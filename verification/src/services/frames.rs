//! The outbound wire format: a type tag, a `|`, then the payload.
//!
//! Clients dispatch on the exact prefixes, so every frame is specified
//! character for character.

use vstd::prelude::*;
use vstd::string::StringExecFns;

verus! {

/// The character that stands for the decimal digit `d`.
pub open spec fn digit_char(d: int) -> char {
    if d == 0 {
        '0'
    } else if d == 1 {
        '1'
    } else if d == 2 {
        '2'
    } else if d == 3 {
        '3'
    } else if d == 4 {
        '4'
    } else if d == 5 {
        '5'
    } else if d == 6 {
        '6'
    } else if d == 7 {
        '7'
    } else if d == 8 {
        '8'
    } else {
        '9'
    }
}

/// Decimal digits of a natural number, most significant first, without
/// leading zeros (`0` is the single digit `0`).
pub open spec fn decimal_digits(n: nat) -> Seq<char>
    decreases n,
{
    if n < 10 {
        seq![digit_char(n as int)]
    } else {
        decimal_digits(n / 10).push(digit_char((n % 10) as int))
    }
}

/// Decimal text of an integer: a `-` for negatives, then the digits.
pub open spec fn decimal(i: int) -> Seq<char> {
    if i < 0 {
        seq!['-'] + decimal_digits((-i) as nat)
    } else {
        decimal_digits(i as nat)
    }
}

/// `chat|<sender> (<company>): <text>`
pub open spec fn chat_frame(sender: Seq<char>, company: Seq<char>, text: Seq<char>) -> Seq<char> {
    "chat|"@ + sender + " ("@ + company + "): "@ + text
}

/// `notification|<content>`
pub open spec fn notification_frame(content: Seq<char>) -> Seq<char> {
    "notification|"@ + content
}

/// `rtc-signal|<sender_user_id>|<payload>`
pub open spec fn signal_frame(sender_user_id: int, payload: Seq<char>) -> Seq<char> {
    "rtc-signal|"@ + decimal(sender_user_id) + "|"@ + payload
}

/// `rtc-call-request|<sender_user_id>|<sender_name>|<room_id>`
pub open spec fn call_request_frame(sender_user_id: int, sender_name: Seq<char>, room_id: int) -> Seq<
    char,
> {
    "rtc-call-request|"@ + decimal(sender_user_id) + "|"@ + sender_name + "|"@ + decimal(room_id)
}

/// `rtc-call-accepted|<recipient_id>`
pub open spec fn call_accepted_frame(recipient_id: int) -> Seq<char> {
    "rtc-call-accepted|"@ + decimal(recipient_id)
}

fn digit_str(d: u32) -> (s: &'static str)
    requires
        d < 10,
    ensures
        s@ == seq![digit_char(d as int)],
{
    proof {
        reveal_strlit("0");
        reveal_strlit("1");
        reveal_strlit("2");
        reveal_strlit("3");
        reveal_strlit("4");
        reveal_strlit("5");
        reveal_strlit("6");
        reveal_strlit("7");
        reveal_strlit("8");
        reveal_strlit("9");
    }
    let s = if d == 0 {
        "0"
    } else if d == 1 {
        "1"
    } else if d == 2 {
        "2"
    } else if d == 3 {
        "3"
    } else if d == 4 {
        "4"
    } else if d == 5 {
        "5"
    } else if d == 6 {
        "6"
    } else if d == 7 {
        "7"
    } else if d == 8 {
        "8"
    } else {
        "9"
    };
    s
}

fn push_decimal_digits(out: &mut String, n: u32)
    ensures
        final(out)@ == old(out)@ + decimal_digits(n as nat),
    decreases n,
{
    if n >= 10 {
        push_decimal_digits(out, n / 10);
    }
    out.append(digit_str(n % 10));
}

/// Appends the decimal text of `value` to `out`.
pub fn push_decimal(out: &mut String, value: i32)
    ensures
        final(out)@ == old(out)@ + decimal(value as int),
{
    if value < 0 {
        proof {
            reveal_strlit("-");
        }
        out.append("-");
        let magnitude: i64 = -(value as i64);
        push_decimal_digits(out, magnitude as u32);
    } else {
        push_decimal_digits(out, value as u32);
    }
}

/// Builds the frame that carries one chat line to a room.
pub fn chat_text(sender: &str, company: &str, text: &str) -> (frame: String)
    ensures
        frame@ == chat_frame(sender@, company@, text@),
{
    let mut frame = String::from_str("chat|");
    frame.append(sender);
    frame.append(" (");
    frame.append(company);
    frame.append("): ");
    frame.append(text);
    frame
}

/// Builds the frame that carries a serialized notification row.
pub fn notification_text(content: &str) -> (frame: String)
    ensures
        frame@ == notification_frame(content@),
{
    let mut frame = String::from_str("notification|");
    frame.append(content);
    frame
}

/// Builds the frame that relays a signalling payload, untouched, together
/// with the sender's id.
pub fn signal_text(sender_user_id: i32, payload: &str) -> (frame: String)
    ensures
        frame@ == signal_frame(sender_user_id as int, payload@),
{
    let mut frame = String::from_str("rtc-signal|");
    push_decimal(&mut frame, sender_user_id);
    frame.append("|");
    frame.append(payload);
    frame
}

/// Builds the frame that invites a user to a call in a room.
pub fn call_request_text(sender_user_id: i32, sender_name: &str, room_id: i32) -> (frame: String)
    ensures
        frame@ == call_request_frame(sender_user_id as int, sender_name@, room_id as int),
{
    let mut frame = String::from_str("rtc-call-request|");
    push_decimal(&mut frame, sender_user_id);
    frame.append("|");
    frame.append(sender_name);
    frame.append("|");
    push_decimal(&mut frame, room_id);
    frame
}

/// Builds the frame that tells a caller that the call was accepted.
pub fn call_accepted_text(recipient_id: i32) -> (frame: String)
    ensures
        frame@ == call_accepted_frame(recipient_id as int),
{
    let mut frame = String::from_str("rtc-call-accepted|");
    push_decimal(&mut frame, recipient_id);
    frame
}

/// A relayed signal ends with the payload, character for character.
pub proof fn lemma_signal_frame_keeps_payload(sender_user_id: int, payload: Seq<char>)
    ensures
        ({
            let frame = signal_frame(sender_user_id, payload);
            &&& frame.len() >= payload.len()
            &&& frame.subrange(frame.len() - payload.len(), frame.len() as int) == payload
        }),
{
    let frame = signal_frame(sender_user_id, payload);
}

} // verus!
