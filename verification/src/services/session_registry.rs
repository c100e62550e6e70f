//! Which user is reachable over which live connection.

use std::collections::HashMap;
use vstd::prelude::*;

verus! {

broadcast use vstd::std_specs::hash::group_hash_axioms;

/// Identity of one live connection's outbound channel. The connection owns
/// the transport; the registries only ever hold this handle.
pub type ChannelId = u64;

/// Maps a user to its one live outbound channel. A later registration for
/// the same user replaces the earlier one.
pub struct SessionRegistry {
    sessions: HashMap<i32, ChannelId>,
}

impl View for SessionRegistry {
    type V = Map<i32, ChannelId>;

    closed spec fn view(&self) -> Map<i32, ChannelId> {
        self.sessions@
    }
}

impl SessionRegistry {
    /// A registry in which nobody is online.
    pub fn new() -> (registry: Self)
        ensures
            registry@ == Map::<i32, ChannelId>::empty(),
    {
        SessionRegistry { sessions: HashMap::new() }
    }

    /// Records `channel` as the user's live channel and returns the one it
    /// replaces, if any.
    pub fn register(&mut self, user_id: i32, channel: ChannelId) -> (previous: Option<ChannelId>)
        ensures
            final(self)@ == old(self)@.insert(user_id, channel),
            previous == old(self)@.get(user_id),
    {
        self.sessions.insert(user_id, channel)
    }

    /// Forgets the user's session and returns its channel, if it had one.
    pub fn unregister(&mut self, user_id: i32) -> (removed: Option<ChannelId>)
        ensures
            final(self)@ == old(self)@.remove(user_id),
            removed == old(self)@.get(user_id),
    {
        self.sessions.remove(&user_id)
    }

    /// The user's live channel, if the user is online.
    pub fn lookup(&self, user_id: i32) -> (found: Option<ChannelId>)
        ensures
            found == self@.get(user_id),
    {
        match self.sessions.get(&user_id) {
            Some(channel) => Some(*channel),
            None => None,
        }
    }
}

} // verus!
