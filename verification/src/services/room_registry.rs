//! Which live connections are subscribed to which negotiation thread.
//!
//! Membership is keyed by connection, not by user: one user with two live
//! connections can sit in a room twice.

use crate::services::session_registry::ChannelId;
use std::collections::HashMap;
use std::collections::HashSet;
use vstd::prelude::*;
use vstd::std_specs::iter::IteratorSpec;

verus! {

broadcast use vstd::std_specs::hash::group_hash_axioms;

/// The rooms that exist, each with its set of subscribed channels.
pub type Rooms = Map<i32, Set<ChannelId>>;

/// The channels subscribed to `room_id`; no channels for a room that was
/// never joined.
pub open spec fn members_of(rooms: Rooms, room_id: i32) -> Set<ChannelId> {
    if rooms.contains_key(room_id) {
        rooms[room_id]
    } else {
        Set::empty()
    }
}

/// `rooms` after `channel` joins `room_id`: the room exists afterwards and
/// holds the channel once.
pub open spec fn joined(rooms: Rooms, room_id: i32, channel: ChannelId) -> Rooms {
    rooms.insert(room_id, members_of(rooms, room_id).insert(channel))
}

/// `rooms` after `channel` leaves `room_id`: an existing room stays, maybe
/// empty; a room that does not exist is not created.
pub open spec fn left(rooms: Rooms, room_id: i32, channel: ChannelId) -> Rooms {
    if rooms.contains_key(room_id) {
        rooms.insert(room_id, rooms[room_id].remove(channel))
    } else {
        rooms
    }
}

/// `rooms` after `channel` is removed from every room.
pub open spec fn purged(rooms: Rooms, channel: ChannelId) -> Rooms {
    Map::new(|room_id: i32| rooms.contains_key(room_id), |room_id: i32| rooms[room_id].remove(channel))
}

/// A channel that joins a room and then leaves it is not a member of it.
pub proof fn lemma_leave_after_join(rooms: Rooms, room_id: i32, channel: ChannelId)
    ensures
        !members_of(left(joined(rooms, room_id, channel), room_id, channel), room_id).contains(
            channel,
        ),
{
}

/// Joining is idempotent, and so is leaving.
pub proof fn lemma_join_and_leave_are_idempotent(rooms: Rooms, room_id: i32, channel: ChannelId)
    ensures
        joined(joined(rooms, room_id, channel), room_id, channel) == joined(rooms, room_id, channel),
        left(left(rooms, room_id, channel), room_id, channel) == left(rooms, room_id, channel),
{
    assert(joined(joined(rooms, room_id, channel), room_id, channel) =~~= joined(
        rooms,
        room_id,
        channel,
    ));
    assert(left(left(rooms, room_id, channel), room_id, channel) =~~= left(rooms, room_id, channel));
}

/// Joining or leaving one room leaves the membership of every other room
/// as it was.
pub proof fn lemma_other_rooms_untouched(rooms: Rooms, room_id: i32, channel: ChannelId, other: i32)
    requires
        other != room_id,
    ensures
        members_of(joined(rooms, room_id, channel), other) == members_of(rooms, other),
        members_of(left(rooms, room_id, channel), other) == members_of(rooms, other),
{
}

/// After a purge no room holds the channel, and every other membership is
/// as it was.
pub proof fn lemma_purge_removes_everywhere(rooms: Rooms, channel: ChannelId)
    ensures
        forall|room_id: i32| !(#[trigger] members_of(purged(rooms, channel), room_id)).contains(channel),
        forall|room_id: i32, other: ChannelId|
            other != channel ==> (#[trigger] members_of(purged(rooms, channel), room_id).contains(
                other,
            ) <==> members_of(rooms, room_id).contains(other)),
{
}

/// Tracks room membership for broadcast.
pub struct RoomRegistry {
    rooms: HashMap<i32, HashSet<ChannelId>>,
}

impl View for RoomRegistry {
    type V = Rooms;

    closed spec fn view(&self) -> Rooms {
        Map::new(
            |room_id: i32| self.rooms@.contains_key(room_id),
            |room_id: i32| self.rooms@[room_id]@,
        )
    }
}

impl RoomRegistry {
    /// A registry without rooms.
    pub fn new() -> (registry: Self)
        ensures
            registry@ == Map::<i32, Set<ChannelId>>::empty(),
    {
        let registry = RoomRegistry { rooms: HashMap::new() };
        registry
    }

    /// Subscribes `channel` to `room_id`, creating the room on first use.
    /// Joining twice is the same as joining once.
    pub fn join(&mut self, room_id: i32, channel: ChannelId)
        ensures
            final(self)@ == joined(old(self)@, room_id, channel),
    {
        let mut members = match self.rooms.remove(&room_id) {
            Some(members) => members,
            None => HashSet::new(),
        };
        members.insert(channel);
        self.rooms.insert(room_id, members);
    }

    /// Unsubscribes `channel` from `room_id`. Leaving a room that does not
    /// exist, or that does not hold the channel, changes nothing.
    pub fn leave(&mut self, room_id: i32, channel: ChannelId)
        ensures
            final(self)@ == left(old(self)@, room_id, channel),
    {
        match self.rooms.remove(&room_id) {
            Some(members) => {
                let mut members = members;
                members.remove(&channel);
                self.rooms.insert(room_id, members);
            },
            None => {},
        }
    }

    /// The channels to reach when broadcasting to `room_id`, each once.
    pub fn members(&self, room_id: i32) -> (channels: Vec<ChannelId>)
        ensures
            channels@.no_duplicates(),
            channels@.to_set() == members_of(self@, room_id),
    {
        let mut channels: Vec<ChannelId> = Vec::new();
        match self.rooms.get(&room_id) {
            Some(members) => {
                let ghost all = members.iter().remaining();
                for channel in it: members.iter()
                    invariant
                        it.seq() == all,
                        channels@ == all.take(it.index() as int).unref(),
                {
                    channels.push(*channel);
                }
                assert(all.take(all.len() as int) =~= all);
            },
            None => {
            },
        }
        channels
    }

    /// The ids of the rooms that exist, each once.
    pub fn room_ids(&self) -> (ids: Vec<i32>)
        ensures
            ids@.no_duplicates(),
            ids@.to_set() == self@.dom(),
    {
        let mut ids: Vec<i32> = Vec::new();
        let ghost all = self.rooms.keys().remaining();
        for room_id in it: self.rooms.keys()
            invariant
                it.seq() == all,
                ids@ == all.take(it.index() as int).unref(),
        {
            ids.push(*room_id);
        }
        assert(all.take(all.len() as int) =~= all);
        ids
    }

    /// Removes `channel` from every room. Linear in the number of rooms.
    pub fn purge(&mut self, channel: ChannelId)
        ensures
            final(self)@ == purged(old(self)@, channel),
    {
        let ids = self.room_ids();
        let mut i: usize = 0;
        while i < ids.len()
            invariant
                i <= ids.len(),
                ids@.no_duplicates(),
                ids@.to_set() == old(self)@.dom(),
                self@.dom() == old(self)@.dom(),
                forall|j: int| 0 <= j < i ==> self@[#[trigger] ids@[j]] == old(self)@[ids@[j]].remove(channel),
                forall|j: int| i <= j < ids.len() ==> self@[#[trigger] ids@[j]] == old(self)@[ids@[j]],
            decreases ids.len() - i,
        {
            self.leave(ids[i], channel);
            i += 1;
        }
        assert(self@ =~= purged(old(self)@, channel)) by {
            // Every room's id sits somewhere in `ids`, so every room was
            // visited.
            assert forall|room_id: i32| self@.contains_key(room_id) implies self@[room_id] == old(
                self,
            )@[room_id].remove(channel) by {
                let j = choose|j: int| 0 <= j < ids@.len() && ids@[j] == room_id;
                assert(self@[ids@[j]] == old(self)@[ids@[j]].remove(channel));
            }
        }
    }
}

} // verus!
