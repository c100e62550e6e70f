use rfq_hub::services::frames::{
    call_accepted_text, call_request_text, chat_text, notification_text, push_decimal, signal_text,
};

fn decimal(value: i32) -> String {
    let mut s = String::new();
    push_decimal(&mut s, value);
    s
}

#[test]
fn decimal_matches_standard_formatting() {
    for v in [
        0,
        1,
        9,
        10,
        11,
        99,
        100,
        101,
        12345,
        1000000,
        i32::MAX,
        -1,
        -9,
        -10,
        -2147483647,
        i32::MIN,
    ] {
        assert_eq!(decimal(v), format!("{}", v));
    }
}

#[test]
fn decimal_exact_values() {
    assert_eq!(decimal(0), "0");
    assert_eq!(decimal(42), "42");
    assert_eq!(decimal(-7), "-7");
    assert_eq!(decimal(i32::MIN), "-2147483648");
    assert_eq!(decimal(i32::MAX), "2147483647");
}

#[test]
fn push_decimal_appends() {
    let mut s = String::from("id=");
    push_decimal(&mut s, 305);
    assert_eq!(s, "id=305");
}

#[test]
fn frame_formats() {
    assert_eq!(chat_text("Alice", "Acme Co", "ready to ship"), "chat|Alice (Acme Co): ready to ship");
    assert_eq!(chat_text("", "", ""), "chat| (): ");
    assert_eq!(notification_text("{\"id\":5}"), "notification|{\"id\":5}");
    assert_eq!(signal_text(3, "a|b"), "rtc-signal|3|a|b");
    assert_eq!(call_request_text(3, "Alice", 42), "rtc-call-request|3|Alice|42");
    assert_eq!(call_accepted_text(5), "rtc-call-accepted|5");
}

#[test]
fn frames_keep_non_ascii_text() {
    assert_eq!(chat_text("李雷", "上海工厂", "报价已更新 ✓"), "chat|李雷 (上海工厂): 报价已更新 ✓");
    assert_eq!(signal_text(1, "ünï©ødé"), "rtc-signal|1|ünï©ødé");
}
