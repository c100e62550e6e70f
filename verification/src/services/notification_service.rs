//! Notifications: the draft a caller fills in, the steps that persist it
//! before anything is pushed, and the rules of the notification table.

use crate::errors::{AppError, AppErrorView};
use crate::models::notification::{text_of, Notification, NotificationView};
use crate::models::user::Claims;
use vstd::prelude::*;

verus! {

broadcast use vstd::seq_lib::group_to_multiset_ensures;

/// What a caller fills in before sending: who is notified, what it says,
/// and optionally where it links to.
pub struct NotificationBuilder {
    recipient_user_id: i32,
    message: String,
    link_url: Option<String>,
}

/// A draft with its texts as characters.
pub struct NotificationDraft {
    pub recipient_user_id: i32,
    pub message: Seq<char>,
    pub link_url: Option<Seq<char>>,
}

impl View for NotificationBuilder {
    type V = NotificationDraft;

    closed spec fn view(&self) -> NotificationDraft {
        NotificationDraft {
            recipient_user_id: self.recipient_user_id,
            message: self.message@,
            link_url: text_of(self.link_url),
        }
    }
}

/// What storage answered to the step it was asked to run.
pub enum StorageReply {
    /// A transaction is open.
    Opened,
    /// The row is inserted; storage generated this id for it.
    Inserted { new_id: u64 },
    /// The row as storage now holds it, read inside the transaction.
    Row(Notification),
    /// The transaction is committed.
    Committed,
    /// The step failed; the text is storage's own.
    Failed(String),
}

/// What to do next for a notification that is being sent.
pub enum SendStep {
    /// Open a transaction.
    Begin,
    /// Insert the row, inside the transaction.
    Insert { recipient_user_id: i32, message: String, link_url: Option<String> },
    /// Read the inserted row back, inside the transaction.
    ReadBack { id: u64 },
    /// Commit the transaction.
    Commit,
    /// The row is durable: push it to `push_to` if that user is online
    /// (whether that reaches anybody does not matter), and report the row.
    Finish { notification: Notification, push_to: i32 },
    /// Give up, roll back whatever is open, and report the error. Nothing
    /// is pushed.
    Abort(AppError),
}

/// How far a notification has come on its way into storage.
pub enum NotificationSend {
    /// Waiting for the transaction to open.
    Opening(NotificationBuilder),
    /// Waiting for the insert.
    Inserting { recipient_user_id: i32 },
    /// Waiting for the row to be read back.
    Reading { recipient_user_id: i32 },
    /// Waiting for the commit; the row is known but not yet durable.
    Committing { recipient_user_id: i32, row: Notification },
    /// Finished or aborted; nothing more will be asked for.
    Closed,
}

/// Whether `step` and `next` are what follows when storage answers
/// `reply` in state `state`.
///
/// The steps run in order: open, insert, read back, commit, finish. A
/// failure at any point aborts with that failure. A reply that does not
/// answer the step that was asked for aborts as well.
pub open spec fn follows(
    state: NotificationSend,
    reply: StorageReply,
    next: NotificationSend,
    step: SendStep,
) -> bool {
    match (state, reply) {
        (NotificationSend::Opening(draft), StorageReply::Opened) => {
            &&& next == (NotificationSend::Inserting {
                recipient_user_id: draft@.recipient_user_id,
            })
            &&& step matches SendStep::Insert { recipient_user_id, message, link_url }
            &&& recipient_user_id == draft@.recipient_user_id
            &&& message@ == draft@.message
            &&& text_of(link_url) == draft@.link_url
        },
        (NotificationSend::Inserting { recipient_user_id }, StorageReply::Inserted { new_id }) => {
            &&& next == (NotificationSend::Reading { recipient_user_id })
            &&& step == (SendStep::ReadBack { id: new_id })
        },
        (NotificationSend::Reading { recipient_user_id }, StorageReply::Row(row)) => {
            &&& next == (NotificationSend::Committing { recipient_user_id, row })
            &&& step == SendStep::Commit
        },
        (NotificationSend::Committing { recipient_user_id, row }, StorageReply::Committed) => {
            &&& next == NotificationSend::Closed
            &&& step == (SendStep::Finish { notification: row, push_to: recipient_user_id })
        },
        (NotificationSend::Closed, _) => {
            &&& next == NotificationSend::Closed
            &&& step matches SendStep::Abort(error)
            &&& error@ == AppErrorView::InternalServerError("notification is already closed"@)
        },
        (_, StorageReply::Failed(text)) => {
            &&& next == NotificationSend::Closed
            &&& step == SendStep::Abort(AppError::StorageFailure(text))
        },
        _ => {
            &&& next == NotificationSend::Closed
            &&& step matches SendStep::Abort(error)
            &&& error@ == AppErrorView::InternalServerError("storage reply out of order"@)
        },
    }
}

impl NotificationBuilder {
    /// A draft for `recipient_user_id` that says `message` and links
    /// nowhere.
    pub fn new(recipient_user_id: i32, message: String) -> (draft: Self)
        ensures
            draft@ == (NotificationDraft {
                recipient_user_id,
                message: message@,
                link_url: None,
            }),
    {
        Self { recipient_user_id, message, link_url: None }
    }

    /// The same draft, linking to `link_url`.
    pub fn with_link(self, link_url: String) -> (draft: Self)
        ensures
            draft@ == (NotificationDraft { link_url: Some(link_url@), ..self@ }),
    {
        let mut draft = self;
        draft.link_url = Some(link_url);
        draft
    }

    /// Starts sending: the first thing to do is to open a transaction.
    pub fn send(self) -> (start: (NotificationSend, SendStep))
        ensures
            start.0 == NotificationSend::Opening(self),
            start.1 == SendStep::Begin,
    {
        (NotificationSend::Opening(self), SendStep::Begin)
    }
}

impl NotificationSend {
    /// Takes storage's answer to the last step and says what to do next.
    pub fn on_reply(self, reply: StorageReply) -> (next: (NotificationSend, SendStep))
        ensures
            follows(self, reply, next.0, next.1),
    {
        match (self, reply) {
            (NotificationSend::Opening(draft), StorageReply::Opened) => {
                let recipient_user_id = draft.recipient_user_id;
                (
                    NotificationSend::Inserting { recipient_user_id },
                    SendStep::Insert {
                        recipient_user_id,
                        message: draft.message,
                        link_url: draft.link_url,
                    },
                )
            },
            (NotificationSend::Inserting { recipient_user_id }, StorageReply::Inserted { new_id }) => {
                (NotificationSend::Reading { recipient_user_id }, SendStep::ReadBack { id: new_id })
            },
            (NotificationSend::Reading { recipient_user_id }, StorageReply::Row(row)) => {
                (NotificationSend::Committing { recipient_user_id, row }, SendStep::Commit)
            },
            (NotificationSend::Committing { recipient_user_id, row }, StorageReply::Committed) => {
                (
                    NotificationSend::Closed,
                    SendStep::Finish { notification: row, push_to: recipient_user_id },
                )
            },
            (NotificationSend::Closed, _) => {
                (
                    NotificationSend::Closed,
                    SendStep::Abort(
                        AppError::InternalServerError(
                            String::from_str("notification is already closed"),
                        ),
                    ),
                )
            },
            (_, StorageReply::Failed(text)) => {
                (NotificationSend::Closed, SendStep::Abort(AppError::StorageFailure(text)))
            },
            _ => {
                (
                    NotificationSend::Closed,
                    SendStep::Abort(
                        AppError::InternalServerError(String::from_str("storage reply out of order")),
                    ),
                )
            },
        }
    }
}

/// A push is asked for only when a commit has just succeeded, and then for
/// the very row that was read back inside the transaction.
pub proof fn lemma_push_only_after_commit(
    state: NotificationSend,
    reply: StorageReply,
    next: NotificationSend,
    step: SendStep,
)
    requires
        follows(state, reply, next, step),
    ensures
        step is Finish <==> state is Committing && reply is Committed,
        step matches SendStep::Finish { notification, push_to } ==> state
            == (NotificationSend::Committing { recipient_user_id: push_to, row: notification }),
        step is Finish || step is Abort ==> next is Closed,
        reply is Failed ==> step is Abort && next is Closed,
{
}

/// The rows of the notification table, oldest insert first.
pub type Rows = Seq<NotificationView>;

/// The rows behind a list of notifications.
pub open spec fn views(rows: Seq<Notification>) -> Rows {
    rows.map_values(|n: Notification| n@)
}

/// The row that storage holds for a draft it has just inserted: unread,
/// with the id and the time that storage gave it.
pub open spec fn created(draft: NotificationDraft, id: i32, now: i64) -> NotificationView {
    NotificationView {
        id,
        recipient_user_id: draft.recipient_user_id,
        message: draft.message,
        link_url: draft.link_url,
        is_read: false,
        created_at: now,
    }
}

/// The same row, read.
pub open spec fn marked(row: NotificationView) -> NotificationView {
    NotificationView { is_read: true, ..row }
}

/// The rows addressed to `user_id`.
pub open spec fn addressed_to(user_id: i32) -> spec_fn(NotificationView) -> bool {
    |row: NotificationView| row.recipient_user_id == user_id
}

/// The rows addressed to `user_id` that are still unread.
pub open spec fn unread_for(user_id: i32) -> spec_fn(NotificationView) -> bool {
    |row: NotificationView| row.recipient_user_id == user_id && !row.is_read
}

/// The unread rows addressed to `user_id` that carry the id `id`.
pub open spec fn unread_with_id(user_id: i32, id: i32) -> spec_fn(NotificationView) -> bool {
    |row: NotificationView| row.id == id && row.recipient_user_id == user_id && !row.is_read
}

/// The table after `user_id` marks notification `id` as read: a row
/// changes only if it has that id and is addressed to that user.
pub open spec fn after_mark_read(rows: Rows, user_id: i32, id: i32) -> Rows {
    rows.map_values(
        |row: NotificationView|
            if row.id == id && row.recipient_user_id == user_id {
                marked(row)
            } else {
                row
            },
    )
}

/// The table after `user_id` marks everything as read: a row changes
/// only if it is addressed to that user.
pub open spec fn after_mark_all_read(rows: Rows, user_id: i32) -> Rows {
    rows.map_values(
        |row: NotificationView|
            if row.recipient_user_id == user_id {
                marked(row)
            } else {
                row
            },
    )
}

/// No row is older than a row that comes after it.
pub open spec fn newest_first(rows: Rows) -> bool {
    forall|i: int, j: int| 0 <= i < j < rows.len() ==> rows[i].created_at >= rows[j].created_at
}

/// No two rows share an id.
pub open spec fn distinct_ids(rows: Rows) -> bool {
    forall|i: int, j: int| 0 <= i < j < rows.len() ==> rows[i].id != rows[j].id
}

/// The notification table, held in memory: the rows and the id that the
/// next insert will get. Rows are never deleted.
///
/// This table and the three functions on it say what listing and marking
/// mean. A server that keeps its notifications in a database runs the same
/// rules as statements of its own; nothing here ties those statements to
/// this table, so whoever writes them has to hold them against it.
pub struct NotificationTable {
    rows: Vec<Notification>,
    next_id: i32,
}

impl View for NotificationTable {
    type V = Rows;

    closed spec fn view(&self) -> Rows {
        views(self.rows@)
    }
}

impl NotificationTable {
    /// Ids are handed out in increasing order and never twice.
    pub closed spec fn wf(&self) -> bool {
        &&& forall|i: int| 0 <= i < self.rows.len() ==> (#[trigger] self.rows[i]).id < self.next_id
        &&& distinct_ids(views(self.rows@))
    }

    /// In a well-formed table no two rows share an id, and every id is
    /// below the next one to be handed out.
    pub proof fn lemma_ids(&self)
        requires
            self.wf(),
        ensures
            distinct_ids(self@),
            forall|i: int| 0 <= i < self@.len() ==> (#[trigger] self@[i]).id < self.next_id(),
    {
        assert forall|i: int| 0 <= i < self@.len() implies (#[trigger] self@[i]).id
            < self.next_id() by {
        }
    }

    /// The id that the next inserted row gets.
    pub closed spec fn next_id(&self) -> i32 {
        self.next_id
    }

    /// An empty table; ids start at 1.
    pub fn new() -> (table: Self)
        ensures
            table.wf(),
            table@ == Seq::<NotificationView>::empty(),
            table.next_id() == 1,
    {
        Self::starting_at(1)
    }

    /// An empty table whose first row gets the id `first_id`.
    pub fn starting_at(first_id: i32) -> (table: Self)
        ensures
            table.wf(),
            table@ == Seq::<NotificationView>::empty(),
            table.next_id() == first_id,
    {
        let table = NotificationTable { rows: Vec::new(), next_id: first_id };
        table
    }

    /// Inserts an unread row for the given recipient, stamped `now`, and
    /// returns it as stored. Fails, changing nothing, only when the ids
    /// are used up.
    pub fn insert(
        &mut self,
        recipient_user_id: i32,
        message: String,
        link_url: Option<String>,
        now: i64,
    ) -> (result: Result<Notification, AppError>)
        requires
            old(self).wf(),
        ensures
            final(self).wf(),
            result is Ok <==> old(self).next_id() < i32::MAX,
            match result {
                Ok(row) => {
                    &&& row@ == created(
                        NotificationDraft {
                            recipient_user_id,
                            message: message@,
                            link_url: text_of(link_url),
                        },
                        old(self).next_id(),
                        now,
                    )
                    &&& final(self)@ == old(self)@.push(row@)
                    &&& final(self).next_id() == old(self).next_id() + 1
                },
                Err(error) => {
                    &&& error@ == AppErrorView::StorageFailure("notification ids are used up"@)
                    &&& final(self)@ == old(self)@
                    &&& final(self).next_id() == old(self).next_id()
                },
            },
    {
        if self.next_id == i32::MAX {
            return Err(AppError::StorageFailure(String::from_str("notification ids are used up")));
        }
        let row = Notification {
            id: self.next_id,
            recipient_user_id,
            message,
            link_url,
            is_read: false,
            created_at: now,
        };
        let copy = row.clone();
        self.rows.push(row);
        self.next_id = self.next_id + 1;
        assert forall|i: int, j: int| 0 <= i < j < self@.len() implies self@[i].id != self@[j].id by {
            if j < old(self)@.len() {
                assert(old(self)@[i].id != old(self)@[j].id);
            }
        }
        Ok(copy)
    }

    /// The row with the given id, if the table holds one.
    pub fn find(&self, id: i32) -> (found: Option<Notification>)
        ensures
            match found {
                Some(row) => self@.contains(row@) && row.id == id,
                None => forall|i: int| 0 <= i < self@.len() ==> (#[trigger] self@[i]).id != id,
            },
    {
        let mut i: usize = 0;
        while i < self.rows.len()
            invariant
                i <= self.rows.len(),
                forall|j: int| 0 <= j < i ==> (#[trigger] self@[j]).id != id,
            decreases self.rows.len() - i,
        {
            if self.rows[i].id == id {
                let row = self.rows[i].clone();
                assert(self@[i as int] == row@);
                return Some(row);
            }
            i += 1;
        }
        None
    }
}

/// What became of a request to mark one notification as read.
#[derive(Clone, Copy, Debug, PartialEq, Eq, Structural)]
pub enum MarkReadOutcome {
    /// The notification is now read.
    Marked,
    /// No row changed: there is no such notification, it is somebody
    /// else's, or it was read already. This is no error for the caller,
    /// who is told no more than the count; it is worth a warning in the
    /// log.
    NothingChanged,
}

/// Judges a mark-read by the number of rows it changed.
pub fn mark_read_outcome(rows_affected: u64) -> (outcome: MarkReadOutcome)
    ensures
        outcome == (if rows_affected == 0 {
            MarkReadOutcome::NothingChanged
        } else {
            MarkReadOutcome::Marked
        }),
{
    if rows_affected == 0 {
        MarkReadOutcome::NothingChanged
    } else {
        MarkReadOutcome::Marked
    }
}

/// All notifications addressed to the caller, newest first. Rows with the
/// same time come in no particular order.
pub fn get_notifications_for_user(table: &NotificationTable, claims: &Claims) -> (listing: Vec<
    Notification,
>)
    ensures
        views(listing@).to_multiset() == table@.filter(addressed_to(claims.sub)).to_multiset(),
        newest_first(views(listing@)),
{
    let mut listing: Vec<Notification> = Vec::new();
    let mut i: usize = 0;
    while i < table.rows.len()
        invariant
            i <= table.rows.len(),
            table@.len() == table.rows.len(),
            views(listing@).to_multiset() == table@.take(i as int).filter(
                addressed_to(claims.sub),
            ).to_multiset(),
            newest_first(views(listing@)),
        decreases table.rows.len() - i,
    {
        let ghost seen = table@.take(i as int);
        let ghost before = views(listing@);
        proof {
            assert(table@.take(i + 1) =~= seen.push(table@[i as int]));
            seen.lemma_filter_push(table@[i as int], addressed_to(claims.sub));
        }
        if table.rows[i].recipient_user_id == claims.sub {
            let row = table.rows[i].clone();
            let mut at: usize = 0;
            while at < listing.len() && listing[at].created_at >= row.created_at
                invariant
                    at <= listing.len(),
                    views(listing@) == before,
                    forall|k: int| 0 <= k < at ==> (#[trigger] before[k]).created_at >= row.created_at,
                decreases listing.len() - at,
            {
                at += 1;
            }
            listing.insert(at, row);
            proof {
                let after = views(listing@);
                assert(after =~= before.insert(at as int, row@));
                vstd::seq_lib::to_multiset_insert(before, at as int, row@);
                // Everything before `at` is at least as new as the row, and
                // everything from `at` on is older.
                assert forall|a: int, b: int| 0 <= a < b < after.len() implies after[a].created_at
                    >= after[b].created_at by {
                    if a == at {
                        assert(before[at as int].created_at < row.created_at);
                    }
                }
            }
        }
        i += 1;
    }
    assert(table@.take(i as int) =~= table@);
    listing
}

/// Marks one notification as read on behalf of the caller and reports how
/// many rows changed.
///
/// A row changes only if it has the given id, is addressed to the caller
/// and was unread. A notification that does not exist, is somebody else's
/// or is read already is no error: nothing changes and the count is 0, so
/// the caller learns nothing about other users' rows.
pub fn mark_notification_as_read(
    table: &mut NotificationTable,
    claims: &Claims,
    notification_id: i32,
) -> (affected: u64)
    requires
        old(table).wf(),
    ensures
        final(table).wf(),
        final(table).next_id() == old(table).next_id(),
        final(table)@ == after_mark_read(old(table)@, claims.sub, notification_id),
        affected == old(table)@.filter(unread_with_id(claims.sub, notification_id)).len(),
{
    let ghost rows = table@;
    let ghost hit = unread_with_id(claims.sub, notification_id);
    let mut affected: u64 = 0;
    let mut i: usize = 0;
    while i < table.rows.len()
        invariant
            i <= table.rows.len(),
            table.rows.len() == rows.len(),
            table.next_id == old(table).next_id,
            rows == old(table)@,
            hit == unread_with_id(claims.sub, notification_id),
            forall|j: int| 0 <= j < i ==> (#[trigger] table@[j]) == after_mark_read(
                rows,
                claims.sub,
                notification_id,
            )[j],
            forall|j: int| i <= j < rows.len() ==> (#[trigger] table@[j]) == rows[j],
            affected == rows.take(i as int).filter(hit).len(),
            affected <= i,
        decreases table.rows.len() - i,
    {
        proof {
            assert(rows.take(i + 1) =~= rows.take(i as int).push(rows[i as int]));
            rows.take(i as int).lemma_filter_push(rows[i as int], hit);
            assert(table@[i as int] == table.rows[i as int]@);
        }
        if table.rows[i].id == notification_id && table.rows[i].recipient_user_id == claims.sub
            && !table.rows[i].is_read {
            let ghost prior = table@;
            let mut row = table.rows[i].clone();
            row.is_read = true;
            table.rows.set(i, row);
            affected = affected + 1;
            proof {
                assert(table@ =~= prior.update(i as int, marked(rows[i as int])));
            }
        }
        i += 1;
    }
    proof {
        assert(rows.take(i as int) =~= rows);
        lemma_ids_survive_marking(rows, table@);
        assert(table.wf()) by {
            assert forall|k: int| 0 <= k < table.rows.len() implies (
            #[trigger] table.rows[k]).id < table.next_id by {
                assert(table@[k].id == rows[k].id);
            }
        }
    }
    affected
}

/// Marks every unread notification of the caller as read and reports how
/// many rows changed. Other users' rows are left as they are.
pub fn mark_all_as_read(table: &mut NotificationTable, claims: &Claims) -> (affected: u64)
    requires
        old(table).wf(),
    ensures
        final(table).wf(),
        final(table).next_id() == old(table).next_id(),
        final(table)@ == after_mark_all_read(old(table)@, claims.sub),
        affected == old(table)@.filter(unread_for(claims.sub)).len(),
{
    let ghost rows = table@;
    let ghost hit = unread_for(claims.sub);
    let mut affected: u64 = 0;
    let mut i: usize = 0;
    while i < table.rows.len()
        invariant
            i <= table.rows.len(),
            table.rows.len() == rows.len(),
            table.next_id == old(table).next_id,
            rows == old(table)@,
            hit == unread_for(claims.sub),
            forall|j: int| 0 <= j < i ==> (#[trigger] table@[j]) == after_mark_all_read(
                rows,
                claims.sub,
            )[j],
            forall|j: int| i <= j < rows.len() ==> (#[trigger] table@[j]) == rows[j],
            affected == rows.take(i as int).filter(hit).len(),
            affected <= i,
        decreases table.rows.len() - i,
    {
        proof {
            assert(rows.take(i + 1) =~= rows.take(i as int).push(rows[i as int]));
            rows.take(i as int).lemma_filter_push(rows[i as int], hit);
            assert(table@[i as int] == table.rows[i as int]@);
        }
        if table.rows[i].recipient_user_id == claims.sub && !table.rows[i].is_read {
            let ghost prior = table@;
            let mut row = table.rows[i].clone();
            row.is_read = true;
            table.rows.set(i, row);
            affected = affected + 1;
            proof {
                assert(table@ =~= prior.update(i as int, marked(rows[i as int])));
            }
        }
        i += 1;
    }
    proof {
        assert(rows.take(i as int) =~= rows);
        lemma_ids_survive_marking(rows, table@);
        assert(table.wf()) by {
            assert forall|k: int| 0 <= k < table.rows.len() implies (
            #[trigger] table.rows[k]).id < table.next_id by {
                assert(table@[k].id == rows[k].id);
            }
        }
    }
    affected
}

proof fn lemma_ids_survive_marking(before: Rows, after: Rows)
    requires
        distinct_ids(before),
        after.len() == before.len(),
        forall|i: int| 0 <= i < before.len() ==> (#[trigger] after[i]).id == before[i].id,
    ensures
        distinct_ids(after),
{
}

/// A notification that has just been created shows up when its recipient
/// lists notifications: unread, with the message and the link it was
/// created with.
pub proof fn lemma_created_notification_is_listed(
    rows: Rows,
    draft: NotificationDraft,
    id: i32,
    now: i64,
    listing: Rows,
)
    requires
        listing.to_multiset() == rows.push(created(draft, id, now)).filter(
            addressed_to(draft.recipient_user_id),
        ).to_multiset(),
    ensures
        listing.contains(created(draft, id, now)),
        !created(draft, id, now).is_read,
        created(draft, id, now).message == draft.message,
        created(draft, id, now).link_url == draft.link_url,
{
    let row = created(draft, id, now);
    let mine = addressed_to(draft.recipient_user_id);
    rows.lemma_filter_push(row, mine);
    let kept = rows.filter(mine).push(row);
    assert(kept[kept.len() - 1] == row);
    vstd::seq_lib::to_multiset_contains(kept, row);
    vstd::seq_lib::to_multiset_contains(listing, row);
}

/// With distinct ids, marking one notification as read changes exactly
/// one row if the caller has an unread notification with that id, and no
/// row otherwise.
pub proof fn lemma_mark_read_changes_at_most_one(rows: Rows, user_id: i32, id: i32)
    requires
        distinct_ids(rows),
    ensures
        rows.filter(unread_with_id(user_id, id)).len() == (if exists|i: int|
            0 <= i < rows.len() && unread_with_id(user_id, id)(#[trigger] rows[i]) {
            1nat
        } else {
            0nat
        }),
    decreases rows.len(),
{
    let hit = unread_with_id(user_id, id);
    if rows.len() > 0 {
        let init = rows.drop_last();
        let last = rows.last();
        assert(rows =~= init.push(last));
        init.lemma_filter_push(last, hit);
        lemma_mark_read_changes_at_most_one(init, user_id, id);
        // A hit among the earlier rows is a hit in `rows` too, and it
        // cannot share its id with a last row that is a hit itself.
        if exists|i: int| 0 <= i < init.len() && hit(#[trigger] init[i]) {
            let i = choose|i: int| 0 <= i < init.len() && hit(#[trigger] init[i]);
            assert(hit(rows[i]));
        } else if !hit(last) {
            assert forall|i: int| 0 <= i < rows.len() implies !hit(#[trigger] rows[i]) by {
                if i < init.len() {
                    assert(!hit(init[i]));
                }
            }
        }
    }
}

/// Marking the same notification as read a second time changes no row and
/// leaves the table as the first time left it.
pub proof fn lemma_mark_read_again_changes_nothing(rows: Rows, user_id: i32, id: i32)
    ensures
        after_mark_read(rows, user_id, id).filter(unread_with_id(user_id, id)).len() == 0,
        after_mark_read(after_mark_read(rows, user_id, id), user_id, id) == after_mark_read(
            rows,
            user_id,
            id,
        ),
{
    let once = after_mark_read(rows, user_id, id);
    let hit = unread_with_id(user_id, id);
    once.lemma_all_neg_filter_empty(hit);
}

/// When a user marks one of its unread notifications as read twice, the
/// first time changes one row and the second time none.
pub proof fn lemma_mark_read_twice(rows: Rows, user_id: i32, id: i32, at: int)
    requires
        distinct_ids(rows),
        0 <= at < rows.len(),
        rows[at].id == id,
        rows[at].recipient_user_id == user_id,
        !rows[at].is_read,
    ensures
        rows.filter(unread_with_id(user_id, id)).len() == 1,
        after_mark_read(rows, user_id, id)[at] == marked(rows[at]),
        after_mark_read(rows, user_id, id).filter(unread_with_id(user_id, id)).len() == 0,
{
    lemma_mark_read_changes_at_most_one(rows, user_id, id);
    lemma_mark_read_again_changes_nothing(rows, user_id, id);
}

/// Marking everything as read for one user changes that user's unread
/// rows and no others, and leaves that user with nothing unread.
pub proof fn lemma_mark_all_read_touches_only_own_unread(rows: Rows, user_id: i32)
    ensures
        ({
            let after = after_mark_all_read(rows, user_id);
            &&& after.len() == rows.len()
            &&& forall|i: int|
                0 <= i < rows.len() && unread_for(user_id)(rows[i]) ==> #[trigger] after[i]
                    == marked(rows[i])
            &&& forall|i: int|
                0 <= i < rows.len() && !unread_for(user_id)(rows[i]) ==> #[trigger] after[i]
                    == rows[i]
            &&& after.filter(unread_for(user_id)).len() == 0
        }),
{
    let after = after_mark_all_read(rows, user_id);
    let hit = unread_for(user_id);
    after.lemma_all_neg_filter_empty(hit);
}

/// Neither marking flips a row back to unread, nor touches anything but
/// the read flag.
pub proof fn lemma_read_never_reverts(rows: Rows, user_id: i32, id: i32)
    ensures
        forall|i: int|
            0 <= i < rows.len() ==> {
                let one = #[trigger] after_mark_read(rows, user_id, id)[i];
                &&& one == (NotificationView { is_read: one.is_read, ..rows[i] })
                &&& rows[i].is_read ==> one.is_read
            },
        forall|i: int|
            0 <= i < rows.len() ==> {
                let all = #[trigger] after_mark_all_read(rows, user_id)[i];
                &&& all == (NotificationView { is_read: all.is_read, ..rows[i] })
                &&& rows[i].is_read ==> all.is_read
            },
{
}

} // verus!
