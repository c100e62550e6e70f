use rfq_hub::services::chat_server::{
    ChatServer, ClientMessage, Command, Connect, Delivery, DirectMessage, Disconnect, JoinRoom,
    LeaveRoom, RtcCallAccepted, RtcCallRequest, RtcSignal,
};

fn sorted_recipients(out: &[Delivery]) -> Vec<u64> {
    let mut to: Vec<u64> = out.iter().map(|d| d.to).collect();
    to.sort();
    to
}

fn chat(room: i32, user: i32, name: &str, company: &str, text: &str) -> ClientMessage {
    ClientMessage {
        rfq_id: room,
        user_id: user,
        user_full_name: name.to_string(),
        company_name: company.to_string(),
        msg: text.to_string(),
    }
}

#[test]
fn chat_reaches_both_members_and_nobody_else() {
    let mut hub = ChatServer::default();
    hub.connect(Connect { user_id: 3, addr: 103 });
    hub.connect(Connect { user_id: 5, addr: 105 });
    hub.connect(Connect { user_id: 9, addr: 109 });
    hub.join_room(JoinRoom { rfq_id: 42, addr: 103 });
    hub.join_room(JoinRoom { rfq_id: 42, addr: 105 });

    let out = hub.client_message(chat(42, 3, "Alice", "Acme Co", "ready to ship"));

    assert_eq!(sorted_recipients(&out), vec![103, 105]);
    for d in &out {
        assert_eq!(d.message.0, "chat|Alice (Acme Co): ready to ship");
    }
}

#[test]
fn second_connect_replaces_first_session() {
    let mut hub = ChatServer::default();
    hub.connect(Connect { user_id: 3, addr: 1 });
    hub.connect(Connect { user_id: 3, addr: 2 });

    assert_eq!(hub.session_of(3), Some(2));
    let out = hub.direct_message(DirectMessage {
        recipient_user_id: 3,
        content: "{\"id\":1}".to_string(),
    });
    assert_eq!(out.len(), 1);
    assert_eq!(out[0].to, 2);
    assert_eq!(out[0].message.0, "notification|{\"id\":1}");
}

#[test]
fn join_then_leave_excludes_channel() {
    let mut hub = ChatServer::default();
    hub.join_room(JoinRoom { rfq_id: 7, addr: 11 });
    hub.join_room(JoinRoom { rfq_id: 7, addr: 12 });
    hub.leave_room(LeaveRoom { rfq_id: 7, addr: 11 });
    assert_eq!(hub.room_members(7), vec![12]);
    hub.leave_room(LeaveRoom { rfq_id: 7, addr: 12 });
    assert!(hub.room_members(7).is_empty());
}

#[test]
fn joining_twice_keeps_one_entry() {
    let mut hub = ChatServer::default();
    hub.join_room(JoinRoom { rfq_id: 7, addr: 11 });
    hub.join_room(JoinRoom { rfq_id: 7, addr: 11 });
    assert_eq!(hub.room_members(7), vec![11]);
    let out = hub.client_message(chat(7, 1, "Bo", "Bolt Ltd", "hi"));
    assert_eq!(out.len(), 1);
}

#[test]
fn leaving_unknown_room_or_absent_channel_is_noop() {
    let mut hub = ChatServer::default();
    hub.leave_room(LeaveRoom { rfq_id: 1, addr: 5 });
    assert!(hub.room_members(1).is_empty());
    hub.join_room(JoinRoom { rfq_id: 1, addr: 6 });
    hub.leave_room(LeaveRoom { rfq_id: 1, addr: 5 });
    assert_eq!(hub.room_members(1), vec![6]);
}

#[test]
fn disconnect_removes_channel_from_every_room() {
    let mut hub = ChatServer::default();
    hub.connect(Connect { user_id: 3, addr: 30 });
    hub.connect(Connect { user_id: 4, addr: 40 });
    for room in [1, 2, 3] {
        hub.join_room(JoinRoom { rfq_id: room, addr: 30 });
        hub.join_room(JoinRoom { rfq_id: room, addr: 40 });
    }
    hub.disconnect(Disconnect { user_id: 3, addr: 30 });
    assert_eq!(hub.session_of(3), None);
    for room in [1, 2, 3] {
        assert_eq!(hub.room_members(room), vec![40]);
    }
    hub.disconnect(Disconnect { user_id: 3, addr: 30 });
    for room in [1, 2, 3] {
        assert_eq!(hub.room_members(room), vec![40]);
    }
    assert_eq!(hub.session_of(4), Some(40));
}

#[test]
fn replaced_connection_closes_without_touching_its_successor() {
    let mut hub = ChatServer::default();
    hub.connect(Connect { user_id: 3, addr: 1 });
    hub.join_room(JoinRoom { rfq_id: 42, addr: 1 });
    hub.connect(Connect { user_id: 3, addr: 2 });
    hub.join_room(JoinRoom { rfq_id: 42, addr: 2 });
    let mut members = hub.room_members(42);
    members.sort();
    assert_eq!(members, vec![1, 2]);

    hub.disconnect(Disconnect { user_id: 3, addr: 1 });
    assert_eq!(hub.session_of(3), Some(2));
    assert_eq!(hub.room_members(42), vec![2]);
    let out = hub.direct_message(DirectMessage { recipient_user_id: 3, content: "n".to_string() });
    assert_eq!(out.len(), 1);
    assert_eq!(out[0].to, 2);

    hub.disconnect(Disconnect { user_id: 3, addr: 1 });
    assert_eq!(hub.session_of(3), Some(2));
    assert_eq!(hub.room_members(42), vec![2]);

    hub.disconnect(Disconnect { user_id: 3, addr: 2 });
    assert_eq!(hub.session_of(3), None);
    assert!(hub.room_members(42).is_empty());
}

#[test]
fn disconnect_of_a_channel_that_never_connected_still_leaves_its_rooms() {
    let mut hub = ChatServer::default();
    hub.connect(Connect { user_id: 4, addr: 40 });
    hub.join_room(JoinRoom { rfq_id: 1, addr: 40 });
    hub.join_room(JoinRoom { rfq_id: 1, addr: 77 });
    hub.disconnect(Disconnect { user_id: 9, addr: 77 });
    assert_eq!(hub.room_members(1), vec![40]);
    assert_eq!(hub.session_of(4), Some(40));
    hub.disconnect(Disconnect { user_id: 9, addr: 40 });
    assert_eq!(hub.session_of(4), Some(40));
    assert!(hub.room_members(1).is_empty());
}

#[test]
fn chat_to_empty_or_unknown_room_delivers_nothing() {
    let hub = ChatServer::default();
    assert!(hub.client_message(chat(1, 1, "A", "B", "c")).is_empty());
}

#[test]
fn direct_message_offline_is_dropped() {
    let hub = ChatServer::default();
    let out = hub.direct_message(DirectMessage { recipient_user_id: 7, content: "{}".to_string() });
    assert!(out.is_empty());
}

#[test]
fn signal_relay_keeps_payload() {
    let mut hub = ChatServer::default();
    hub.connect(Connect { user_id: 5, addr: 50 });
    let payload = "{\"sdp\":\"v=0|o=- 46117 2 IN IP4\",\"type\":\"offer\"}";
    let out = hub.rtc_signal(RtcSignal {
        sender_user_id: 3,
        recipient_user_id: 5,
        signal_data: payload.to_string(),
    });
    assert_eq!(out.len(), 1);
    assert_eq!(out[0].to, 50);
    assert_eq!(out[0].message.0, format!("rtc-signal|3|{}", payload));
    assert!(out[0].message.0.ends_with(payload));

    let dropped = hub.rtc_signal(RtcSignal {
        sender_user_id: 3,
        recipient_user_id: 6,
        signal_data: payload.to_string(),
    });
    assert!(dropped.is_empty());
}

#[test]
fn call_request_and_accept_frames() {
    let mut hub = ChatServer::default();
    hub.connect(Connect { user_id: 3, addr: 30 });
    hub.connect(Connect { user_id: 5, addr: 50 });
    let out = hub.rtc_call_request(RtcCallRequest {
        sender_user_id: 3,
        sender_full_name: "Alice".to_string(),
        recipient_user_id: 5,
        rfq_id: 42,
    });
    assert_eq!(out.len(), 1);
    assert_eq!(out[0].to, 50);
    assert_eq!(out[0].message.0, "rtc-call-request|3|Alice|42");

    let out = hub.rtc_call_accepted(RtcCallAccepted { original_sender_id: 3, recipient_id: 5 });
    assert_eq!(out.len(), 1);
    assert_eq!(out[0].to, 30);
    assert_eq!(out[0].message.0, "rtc-call-accepted|5");

    assert!(hub
        .rtc_call_request(RtcCallRequest {
            sender_user_id: 3,
            sender_full_name: "Alice".to_string(),
            recipient_user_id: 8,
            rfq_id: 42,
        })
        .is_empty());
    assert!(hub
        .rtc_call_accepted(RtcCallAccepted { original_sender_id: 8, recipient_id: 5 })
        .is_empty());
}

#[test]
fn handle_dispatches_every_command() {
    let mut hub = ChatServer::default();
    assert!(hub.handle(Command::Connect(Connect { user_id: 1, addr: 10 })).is_empty());
    assert!(hub.handle(Command::JoinRoom(JoinRoom { rfq_id: 2, addr: 10 })).is_empty());
    let out = hub.handle(Command::ClientMessage(chat(2, 1, "Al", "Co", "x")));
    assert_eq!(out.len(), 1);
    assert_eq!(out[0].message.0, "chat|Al (Co): x");
    let out = hub.handle(Command::DirectMessage(DirectMessage {
        recipient_user_id: 1,
        content: "n".to_string(),
    }));
    assert_eq!(out[0].message.0, "notification|n");
    let out = hub.handle(Command::RtcSignal(RtcSignal {
        sender_user_id: -4,
        recipient_user_id: 1,
        signal_data: "s".to_string(),
    }));
    assert_eq!(out[0].message.0, "rtc-signal|-4|s");
    let out = hub.handle(Command::RtcCallRequest(RtcCallRequest {
        sender_user_id: 1,
        sender_full_name: "Al".to_string(),
        recipient_user_id: 1,
        rfq_id: 2,
    }));
    assert_eq!(out[0].message.0, "rtc-call-request|1|Al|2");
    let out = hub.handle(Command::RtcCallAccepted(RtcCallAccepted {
        original_sender_id: 1,
        recipient_id: 9,
    }));
    assert_eq!(out[0].message.0, "rtc-call-accepted|9");
    assert!(hub.handle(Command::LeaveRoom(LeaveRoom { rfq_id: 2, addr: 10 })).is_empty());
    assert!(hub.room_members(2).is_empty());
    hub.handle(Command::JoinRoom(JoinRoom { rfq_id: 2, addr: 10 }));
    assert!(hub.handle(Command::Disconnect(Disconnect { user_id: 1, addr: 10 })).is_empty());
    assert_eq!(hub.session_of(1), None);
    assert!(hub.room_members(2).is_empty());
}
