use rfq_hub::errors::AppError;
use rfq_hub::models::notification::Notification;
use rfq_hub::models::user::Claims;
use rfq_hub::services::chat_server::{ChatServer, Connect, DirectMessage};
use rfq_hub::services::notification_service::{
    get_notifications_for_user, mark_all_as_read, mark_notification_as_read, mark_read_outcome,
    MarkReadOutcome, NotificationBuilder, NotificationSend, NotificationTable, SendStep,
    StorageReply,
};

fn claims(user: i32) -> Claims {
    Claims { sub: user, company_id: 1, company_type: "BUYER".to_string() }
}

/// Runs the send steps against an in-memory table, as a storage driver would.
fn send_into(
    table: &mut NotificationTable,
    draft: NotificationBuilder,
    now: i64,
) -> Result<(Notification, i32), AppError> {
    let (mut state, mut step) = draft.send();
    let mut trace: Vec<&'static str> = Vec::new();
    loop {
        let reply = match step {
            SendStep::Begin => {
                trace.push("begin");
                StorageReply::Opened
            }
            SendStep::Insert { recipient_user_id, message, link_url } => {
                trace.push("insert");
                match table.insert(recipient_user_id, message, link_url, now) {
                    Ok(row) => StorageReply::Inserted { new_id: row.id as u64 },
                    Err(AppError::StorageFailure(text)) => StorageReply::Failed(text),
                    Err(_) => unreachable!(),
                }
            }
            SendStep::ReadBack { id } => {
                trace.push("read");
                match i32::try_from(id).ok().and_then(|id| table.find(id)) {
                    Some(row) => StorageReply::Row(row),
                    None => StorageReply::Failed("no rows returned".to_string()),
                }
            }
            SendStep::Commit => {
                trace.push("commit");
                StorageReply::Committed
            }
            SendStep::Finish { notification, push_to } => {
                assert_eq!(trace, vec!["begin", "insert", "read", "commit"]);
                assert!(matches!(state, NotificationSend::Closed));
                return Ok((notification, push_to));
            }
            SendStep::Abort(error) => return Err(error),
        };
        let next = state.on_reply(reply);
        state = next.0;
        step = next.1;
    }
}

#[test]
fn notification_round_trip() {
    let mut table = NotificationTable::new();
    let draft = NotificationBuilder::new(7, "Quote accepted".to_string());
    let (created, push_to) = send_into(&mut table, draft, 1_700_000_000_000).ok().unwrap();
    assert_eq!(push_to, 7);
    assert_eq!(created.id, 1);

    let listed = get_notifications_for_user(&table, &claims(7));
    assert_eq!(listed.len(), 1);
    assert_eq!(listed[0].id, 1);
    assert_eq!(listed[0].recipient_user_id, 7);
    assert_eq!(listed[0].message, "Quote accepted");
    assert_eq!(listed[0].link_url, None);
    assert!(!listed[0].is_read);
    assert_eq!(listed[0].created_at, 1_700_000_000_000);

    assert!(get_notifications_for_user(&table, &claims(8)).is_empty());
}

#[test]
fn notification_with_link_round_trip() {
    let mut table = NotificationTable::new();
    let draft =
        NotificationBuilder::new(7, "New quote".to_string()).with_link("/rfqs/42".to_string());
    let (created, _) = send_into(&mut table, draft, 5).ok().unwrap();
    assert_eq!(created.link_url.as_deref(), Some("/rfqs/42"));
    let listed = get_notifications_for_user(&table, &claims(7));
    assert_eq!(listed[0].link_url.as_deref(), Some("/rfqs/42"));
    assert_eq!(listed[0].message, "New quote");
}

#[test]
fn with_link_replaces_earlier_link() {
    let draft = NotificationBuilder::new(1, "m".to_string())
        .with_link("/a".to_string())
        .with_link("/b".to_string());
    let (state, step) = draft.send();
    assert!(matches!(step, SendStep::Begin));
    let (_, step) = state.on_reply(StorageReply::Opened);
    match step {
        SendStep::Insert { recipient_user_id, message, link_url } => {
            assert_eq!(recipient_user_id, 1);
            assert_eq!(message, "m");
            assert_eq!(link_url.as_deref(), Some("/b"));
        }
        _ => panic!("expected an insert"),
    }
}

#[test]
fn marking_read_twice_reports_one_then_zero() {
    let mut table = NotificationTable::new();
    table.insert(7, "a".to_string(), None, 1).ok().unwrap();
    assert_eq!(mark_notification_as_read(&mut table, &claims(7), 1), 1);
    assert!(get_notifications_for_user(&table, &claims(7))[0].is_read);
    assert_eq!(mark_notification_as_read(&mut table, &claims(7), 1), 0);
    assert!(get_notifications_for_user(&table, &claims(7))[0].is_read);
}

#[test]
fn marking_foreign_or_missing_notification_reports_zero() {
    let mut table = NotificationTable::new();
    table.insert(7, "a".to_string(), None, 1).ok().unwrap();
    assert_eq!(mark_notification_as_read(&mut table, &claims(8), 1), 0);
    assert_eq!(mark_notification_as_read(&mut table, &claims(7), 99), 0);
    assert!(!get_notifications_for_user(&table, &claims(7))[0].is_read);
}

#[test]
fn mark_all_as_read_touches_only_own_unread_rows() {
    let mut table = NotificationTable::new();
    table.insert(7, "a".to_string(), None, 1).ok().unwrap();
    table.insert(8, "b".to_string(), None, 2).ok().unwrap();
    table.insert(7, "c".to_string(), None, 3).ok().unwrap();
    table.insert(7, "d".to_string(), None, 4).ok().unwrap();
    assert_eq!(mark_notification_as_read(&mut table, &claims(7), 3), 1);

    assert_eq!(mark_all_as_read(&mut table, &claims(7)), 2);
    assert!(get_notifications_for_user(&table, &claims(7)).iter().all(|n| n.is_read));
    let others = get_notifications_for_user(&table, &claims(8));
    assert_eq!(others.len(), 1);
    assert!(!others[0].is_read);
    assert_eq!(others[0].message, "b");

    assert_eq!(mark_all_as_read(&mut table, &claims(7)), 0);
    assert_eq!(mark_all_as_read(&mut table, &claims(9)), 0);
    assert_eq!(mark_all_as_read(&mut table, &claims(8)), 1);
}

#[test]
fn listing_is_newest_first() {
    let mut table = NotificationTable::new();
    for (text, at) in [("a", 30), ("b", 10), ("c", 50), ("d", 20), ("e", 40)] {
        table.insert(7, text.to_string(), None, at).ok().unwrap();
        table.insert(8, "other".to_string(), None, at).ok().unwrap();
    }
    let listed = get_notifications_for_user(&table, &claims(7));
    let texts: Vec<&str> = listed.iter().map(|n| n.message.as_str()).collect();
    assert_eq!(texts, vec!["c", "e", "a", "d", "b"]);
    let times: Vec<i64> = listed.iter().map(|n| n.created_at).collect();
    assert_eq!(times, vec![50, 40, 30, 20, 10]);
}

#[test]
fn listing_keeps_rows_with_equal_times() {
    let mut table = NotificationTable::new();
    for text in ["a", "b", "c"] {
        table.insert(7, text.to_string(), None, 5).ok().unwrap();
    }
    let listed = get_notifications_for_user(&table, &claims(7));
    let mut texts: Vec<&str> = listed.iter().map(|n| n.message.as_str()).collect();
    texts.sort();
    assert_eq!(texts, vec!["a", "b", "c"]);
}

#[test]
fn ids_are_generated_in_order_and_find_reads_back() {
    let mut table = NotificationTable::new();
    let a = table.insert(1, "a".to_string(), None, 1).ok().unwrap();
    let b = table.insert(2, "b".to_string(), Some("/x".to_string()), 2).ok().unwrap();
    assert_eq!((a.id, b.id), (1, 2));
    let found = table.find(2).unwrap();
    assert_eq!(found.message, "b");
    assert_eq!(found.recipient_user_id, 2);
    assert_eq!(found.link_url.as_deref(), Some("/x"));
    assert!(table.find(3).is_none());
    assert!(table.find(0).is_none());
}

#[test]
fn storage_failure_aborts_without_push_at_every_step() {
    for fail_at in 0..4 {
        let (mut state, mut step) = NotificationBuilder::new(7, "m".to_string()).send();
        let mut answered = 0;
        let outcome = loop {
            let reply = match step {
                SendStep::Finish { .. } => break Ok(()),
                SendStep::Abort(error) => break Err(error),
                _ if answered == fail_at => StorageReply::Failed("connection reset".to_string()),
                SendStep::Begin => StorageReply::Opened,
                SendStep::Insert { .. } => StorageReply::Inserted { new_id: 5 },
                SendStep::ReadBack { id } => StorageReply::Row(Notification {
                    id: id as i32,
                    recipient_user_id: 7,
                    message: "m".to_string(),
                    link_url: None,
                    is_read: false,
                    created_at: 0,
                }),
                SendStep::Commit => StorageReply::Committed,
            };
            answered += 1;
            let next = state.on_reply(reply);
            state = next.0;
            step = next.1;
        };
        match outcome {
            Err(AppError::StorageFailure(text)) => assert_eq!(text, "connection reset"),
            _ => panic!("expected a storage failure when step {} fails", fail_at),
        }
        assert!(matches!(state, NotificationSend::Closed));
    }
}

#[test]
fn send_steps_run_in_order_and_finish_with_the_row_read_back() {
    let (state, step) = NotificationBuilder::new(7, "m".to_string()).send();
    assert!(matches!(step, SendStep::Begin));
    let (state, step) = state.on_reply(StorageReply::Opened);
    assert!(matches!(step, SendStep::Insert { .. }));
    let (state, step) = state.on_reply(StorageReply::Inserted { new_id: 12 });
    assert!(matches!(step, SendStep::ReadBack { id: 12 }));
    let row = Notification {
        id: 12,
        recipient_user_id: 7,
        message: "m".to_string(),
        link_url: None,
        is_read: false,
        created_at: 99,
    };
    let (state, step) = state.on_reply(StorageReply::Row(row));
    assert!(matches!(step, SendStep::Commit));
    assert!(matches!(state, NotificationSend::Committing { recipient_user_id: 7, .. }));
    let (state, step) = state.on_reply(StorageReply::Committed);
    match step {
        SendStep::Finish { notification, push_to } => {
            assert_eq!(push_to, 7);
            assert_eq!(notification.id, 12);
            assert_eq!(notification.created_at, 99);
        }
        _ => panic!("expected to finish"),
    }
    let (state, step) = state.on_reply(StorageReply::Committed);
    assert!(matches!(state, NotificationSend::Closed));
    match step {
        SendStep::Abort(AppError::InternalServerError(text)) => {
            assert_eq!(text, "notification is already closed")
        }
        _ => panic!("expected an abort"),
    }
}

#[test]
fn reply_out_of_order_aborts() {
    let (state, _) = NotificationBuilder::new(7, "m".to_string()).send();
    let (state, step) = state.on_reply(StorageReply::Committed);
    assert!(matches!(state, NotificationSend::Closed));
    match step {
        SendStep::Abort(AppError::InternalServerError(text)) => {
            assert_eq!(text, "storage reply out of order")
        }
        _ => panic!("expected an abort"),
    }
}

#[test]
fn committed_notification_is_pushed_to_online_recipient_only() {
    let mut table = NotificationTable::new();
    let mut hub = ChatServer::default();
    hub.connect(Connect { user_id: 7, addr: 70 });

    let (row, push_to) =
        send_into(&mut table, NotificationBuilder::new(7, "Quote accepted".to_string()), 1)
            .ok()
            .unwrap();
    let json = format!("{{\"id\":{},\"message\":\"{}\"}}", row.id, row.message);
    let out = hub.direct_message(DirectMessage { recipient_user_id: push_to, content: json });
    assert_eq!(out.len(), 1);
    assert_eq!(out[0].to, 70);
    assert_eq!(out[0].message.0, "notification|{\"id\":1,\"message\":\"Quote accepted\"}");

    let (_, push_to) =
        send_into(&mut table, NotificationBuilder::new(8, "x".to_string()), 2).ok().unwrap();
    let out = hub.direct_message(DirectMessage { recipient_user_id: push_to, content: "{}".into() });
    assert!(out.is_empty());
    assert_eq!(get_notifications_for_user(&table, &claims(8)).len(), 1);
}

#[test]
fn insert_fails_when_ids_are_used_up() {
    let mut table = NotificationTable::starting_at(i32::MAX - 1);
    let last = table.insert(7, "last".to_string(), None, 1).ok().unwrap();
    assert_eq!(last.id, i32::MAX - 1);
    match table.insert(7, "one too many".to_string(), None, 2) {
        Err(AppError::StorageFailure(text)) => assert_eq!(text, "notification ids are used up"),
        _ => panic!("expected a storage failure"),
    }
    let listed = get_notifications_for_user(&table, &claims(7));
    assert_eq!(listed.len(), 1);
    assert_eq!(listed[0].message, "last");

    let draft = NotificationBuilder::new(7, "again".to_string());
    match send_into(&mut table, draft, 3) {
        Err(AppError::StorageFailure(text)) => assert_eq!(text, "notification ids are used up"),
        _ => panic!("expected the send to abort"),
    }
    assert_eq!(get_notifications_for_user(&table, &claims(7)).len(), 1);
}

#[test]
fn mark_read_outcome_warns_only_when_nothing_changed() {
    assert_eq!(mark_read_outcome(0), MarkReadOutcome::NothingChanged);
    assert_eq!(mark_read_outcome(1), MarkReadOutcome::Marked);
    assert_eq!(mark_read_outcome(u64::MAX), MarkReadOutcome::Marked);

    let mut table = NotificationTable::new();
    table.insert(7, "a".to_string(), None, 1).ok().unwrap();
    let first = mark_notification_as_read(&mut table, &claims(7), 1);
    let second = mark_notification_as_read(&mut table, &claims(7), 1);
    assert_eq!(mark_read_outcome(first), MarkReadOutcome::Marked);
    assert_eq!(mark_read_outcome(second), MarkReadOutcome::NothingChanged);
}

#[test]
fn read_back_asks_for_the_generated_id_unchanged() {
    let (state, _) = NotificationBuilder::new(7, "m".to_string()).send();
    let (state, _) = state.on_reply(StorageReply::Opened);
    let (_, step) = state.on_reply(StorageReply::Inserted { new_id: u64::MAX });
    assert!(matches!(step, SendStep::ReadBack { id: u64::MAX }));
}
