//! The durable, per-user notification record.

use vstd::prelude::*;

verus! {

/// One notification row. Storage owns it; only its recipient may flip
/// `is_read`, and only from `false` to `true`.
pub struct Notification {
    /// Generated by storage.
    pub id: i32,
    pub recipient_user_id: i32,
    pub message: String,
    pub link_url: Option<String>,
    pub is_read: bool,
    /// Milliseconds since the Unix epoch, UTC.
    pub created_at: i64,
}

/// A notification row with its texts as characters.
pub struct NotificationView {
    pub id: i32,
    pub recipient_user_id: i32,
    pub message: Seq<char>,
    pub link_url: Option<Seq<char>>,
    pub is_read: bool,
    pub created_at: i64,
}

/// The characters of an optional text.
pub open spec fn text_of(text: Option<String>) -> Option<Seq<char>> {
    match text {
        Some(t) => Some(t@),
        None => None,
    }
}

impl View for Notification {
    type V = NotificationView;

    open spec fn view(&self) -> NotificationView {
        NotificationView {
            id: self.id,
            recipient_user_id: self.recipient_user_id,
            message: self.message@,
            link_url: text_of(self.link_url),
            is_read: self.is_read,
            created_at: self.created_at,
        }
    }
}

impl Clone for Notification {
    fn clone(&self) -> (copy: Self)
        ensures
            copy == *self,
    {
        Notification {
            id: self.id,
            recipient_user_id: self.recipient_user_id,
            message: self.message.clone(),
            link_url: match &self.link_url {
                Some(link) => Some(link.clone()),
                None => None,
            },
            is_read: self.is_read,
            created_at: self.created_at,
        }
    }
}

} // verus!
