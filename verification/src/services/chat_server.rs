//! The coordinator: one owner of the session and room registries that
//! processes commands one at a time and answers each with the deliveries
//! to perform.
//!
//! No command fails. A recipient that is offline is a delivery outcome,
//! not an error: the frame is dropped and nothing is queued.

use crate::services::frames::{
    call_accepted_frame, call_accepted_text, call_request_frame, call_request_text, chat_frame,
    chat_text, lemma_signal_frame_keeps_payload, notification_frame, notification_text,
    signal_frame, signal_text,
};
use crate::services::room_registry::{joined, left, members_of, purged, RoomRegistry, Rooms};
use crate::services::session_registry::{ChannelId, SessionRegistry};
use vstd::prelude::*;

verus! {

/// Subscribe a connection to a negotiation thread's room.
pub struct JoinRoom {
    pub rfq_id: i32,
    pub addr: ChannelId,
}

/// Unsubscribe a connection from a room.
pub struct LeaveRoom {
    pub rfq_id: i32,
    pub addr: ChannelId,
}

/// A chat line from a user to everybody in a room.
pub struct ClientMessage {
    pub rfq_id: i32,
    pub user_id: i32,
    pub user_full_name: String,
    pub company_name: String,
    pub msg: String,
}

/// A notification for one user; `content` is the serialized row.
pub struct DirectMessage {
    pub recipient_user_id: i32,
    pub content: String,
}

/// A user came online over the given channel.
pub struct Connect {
    pub user_id: i32,
    pub addr: ChannelId,
}

/// A user's connection went away: `addr` is the channel of the connection
/// that closed, which need not be the one the user is online with now.
pub struct Disconnect {
    pub user_id: i32,
    pub addr: ChannelId,
}

/// One outbound frame, written to the socket verbatim.
#[derive(Debug)]
pub struct ServerMessage(pub String);

impl Clone for ServerMessage {
    fn clone(&self) -> (copy: Self)
        ensures
            copy == *self,
    {
        ServerMessage(self.0.clone())
    }
}

/// Peer-connection negotiation data, relayed without being read.
pub struct RtcSignal {
    pub sender_user_id: i32,
    pub recipient_user_id: i32,
    pub signal_data: String,
}

/// First step of the call handshake: invite a user to a call in a room.
pub struct RtcCallRequest {
    pub sender_user_id: i32,
    pub sender_full_name: String,
    pub recipient_user_id: i32,
    pub rfq_id: i32,
}

/// Second step of the call handshake: the callee picked up.
pub struct RtcCallAccepted {
    pub original_sender_id: i32,
    pub recipient_id: i32,
}

/// Everything the coordinator accepts.
pub enum Command {
    Connect(Connect),
    Disconnect(Disconnect),
    JoinRoom(JoinRoom),
    LeaveRoom(LeaveRoom),
    ClientMessage(ClientMessage),
    DirectMessage(DirectMessage),
    RtcSignal(RtcSignal),
    RtcCallRequest(RtcCallRequest),
    RtcCallAccepted(RtcCallAccepted),
}

/// One frame to push to one live connection.
pub struct Delivery {
    pub to: ChannelId,
    pub message: ServerMessage,
}

impl View for ServerMessage {
    type V = Seq<char>;

    open spec fn view(&self) -> Seq<char> {
        self.0@
    }
}

impl View for Delivery {
    type V = (ChannelId, Seq<char>);

    open spec fn view(&self) -> (ChannelId, Seq<char>) {
        (self.to, self.message@)
    }
}

/// The channels that `out` addresses, in order.
pub open spec fn recipients(out: Seq<Delivery>) -> Seq<ChannelId> {
    out.map_values(|d: Delivery| d.to)
}

/// `out` carries `frame` to every channel in `targets` once, and to nobody
/// else.
pub open spec fn is_fan_out(out: Seq<Delivery>, targets: Set<ChannelId>, frame: Seq<char>) -> bool {
    &&& recipients(out).no_duplicates()
    &&& recipients(out).to_set() == targets
    &&& forall|i: int| 0 <= i < out.len() ==> (#[trigger] out[i]).message@ == frame
}

/// `out` is the single delivery of `frame` to `target`, or nothing at all
/// if there is no target.
pub open spec fn is_direct(out: Seq<Delivery>, target: Option<ChannelId>, frame: Seq<char>) -> bool {
    match target {
        Some(channel) => out.len() == 1 && out[0]@ == (channel, frame),
        None => out.len() == 0,
    }
}

/// What the coordinator knows: who is online over which channel, and which
/// channels sit in which room.
pub struct HubState {
    pub sessions: Map<i32, ChannelId>,
    pub rooms: Rooms,
}

impl HubState {
    /// Nobody online, no rooms.
    pub open spec fn empty() -> HubState {
        HubState { sessions: Map::empty(), rooms: Map::empty() }
    }

    /// The channel that reaches `user_id`, if the user is online.
    pub open spec fn channel_of(self, user_id: i32) -> Option<ChannelId> {
        self.sessions.get(user_id)
    }

    /// The channels subscribed to `room_id`.
    pub open spec fn members(self, room_id: i32) -> Set<ChannelId> {
        members_of(self.rooms, room_id)
    }

    /// Last connect wins: the user now resolves to `channel` alone. A
    /// channel it replaces stays in whatever rooms it had joined until
    /// its own connection is disconnected.
    pub open spec fn connect(self, user_id: i32, channel: ChannelId) -> HubState {
        HubState { sessions: self.sessions.insert(user_id, channel), ..self }
    }

    /// The connection with `channel` is gone: the channel leaves every
    /// room, and the user's session goes if it is the one over that
    /// channel. A session that has replaced it in the meantime stays, and
    /// so does that session's membership.
    pub open spec fn disconnect(self, user_id: i32, channel: ChannelId) -> HubState {
        HubState {
            sessions: if self.sessions.get(user_id) == Some(channel) {
                self.sessions.remove(user_id)
            } else {
                self.sessions
            },
            rooms: purged(self.rooms, channel),
        }
    }

    pub open spec fn join_room(self, room_id: i32, channel: ChannelId) -> HubState {
        HubState { rooms: joined(self.rooms, room_id, channel), ..self }
    }

    pub open spec fn leave_room(self, room_id: i32, channel: ChannelId) -> HubState {
        HubState { rooms: left(self.rooms, room_id, channel), ..self }
    }

    /// The state after `command`. Only the four registry commands change
    /// anything; sending never does.
    pub open spec fn after(self, command: Command) -> HubState {
        match command {
            Command::Connect(m) => self.connect(m.user_id, m.addr),
            Command::Disconnect(m) => self.disconnect(m.user_id, m.addr),
            Command::JoinRoom(m) => self.join_room(m.rfq_id, m.addr),
            Command::LeaveRoom(m) => self.leave_room(m.rfq_id, m.addr),
            _ => self,
        }
    }

    /// Whether `out` is what `command` must deliver in this state.
    pub open spec fn emits(self, command: Command, out: Seq<Delivery>) -> bool {
        match command {
            Command::ClientMessage(m) => is_fan_out(
                out,
                self.members(m.rfq_id),
                chat_frame(m.user_full_name@, m.company_name@, m.msg@),
            ),
            Command::DirectMessage(m) => is_direct(
                out,
                self.channel_of(m.recipient_user_id),
                notification_frame(m.content@),
            ),
            Command::RtcSignal(m) => is_direct(
                out,
                self.channel_of(m.recipient_user_id),
                signal_frame(m.sender_user_id as int, m.signal_data@),
            ),
            Command::RtcCallRequest(m) => is_direct(
                out,
                self.channel_of(m.recipient_user_id),
                call_request_frame(m.sender_user_id as int, m.sender_full_name@, m.rfq_id as int),
            ),
            Command::RtcCallAccepted(m) => is_direct(
                out,
                self.channel_of(m.original_sender_id),
                call_accepted_frame(m.recipient_id as int),
            ),
            _ => out.len() == 0,
        }
    }
}

/// After a connection's disconnect no room holds its channel and its user
/// is not online over it, whether or not the channel was still the user's
/// registered one. Nobody else's session and no other channel's membership
/// changes.
pub proof fn lemma_disconnect_clears_rooms(state: HubState, user_id: i32, channel: ChannelId)
    ensures
        state.disconnect(user_id, channel).channel_of(user_id) != Some(channel),
        forall|room_id: i32|
            !(#[trigger] state.disconnect(user_id, channel).members(room_id)).contains(channel),
        forall|other: i32|
            other != user_id ==> #[trigger] state.disconnect(user_id, channel).channel_of(other)
                == state.channel_of(other),
        forall|room_id: i32, other: ChannelId|
            other != channel ==> (#[trigger] state.disconnect(user_id, channel).members(
                room_id,
            ).contains(other) <==> state.members(room_id).contains(other)),
{
}

/// A second disconnect for the same connection changes nothing.
pub proof fn lemma_disconnect_is_idempotent(state: HubState, user_id: i32, channel: ChannelId)
    ensures
        state.disconnect(user_id, channel).disconnect(user_id, channel) == state.disconnect(
            user_id,
            channel,
        ),
{
    let once = state.disconnect(user_id, channel);
    assert(once.disconnect(user_id, channel).sessions =~= once.sessions);
    assert(once.disconnect(user_id, channel).rooms =~~= once.rooms);
}

/// When a user has reconnected and the connection it replaced closes, the
/// disconnect of the replaced connection is a no-op for the session: the
/// user stays online over the new channel, the new channel keeps its
/// rooms, and the replaced channel is in no room.
pub proof fn lemma_replaced_connection_closes_alone(
    state: HubState,
    user_id: i32,
    replaced: ChannelId,
    current: ChannelId,
)
    requires
        state.channel_of(user_id) == Some(current),
        replaced != current,
    ensures
        state.disconnect(user_id, replaced).sessions == state.sessions,
        forall|room_id: i32|
            (#[trigger] state.disconnect(user_id, replaced).members(room_id)).contains(current)
                <==> state.members(room_id).contains(current),
        forall|room_id: i32|
            !(#[trigger] state.disconnect(user_id, replaced).members(room_id)).contains(replaced),
{
}

/// A chat line reaches every member of its room exactly once, carries the
/// same frame to each, and reaches nobody outside the room.
pub proof fn lemma_chat_reaches_exactly_the_room(
    state: HubState,
    msg: ClientMessage,
    out: Seq<Delivery>,
    channel: ChannelId,
)
    requires
        state.emits(Command::ClientMessage(msg), out),
    ensures
        state.members(msg.rfq_id).contains(channel) <==> exists|i: int|
            0 <= i < out.len() && (#[trigger] out[i]).to == channel,
        forall|i: int, j: int|
            0 <= i < out.len() && 0 <= j < out.len() && (#[trigger] out[i]).to == (
            #[trigger] out[j]).to ==> i == j,
        forall|i: int|
            0 <= i < out.len() ==> (#[trigger] out[i]).message@ == chat_frame(
                msg.user_full_name@,
                msg.company_name@,
                msg.msg@,
            ),
{
    let to = recipients(out);
    let members = state.members(msg.rfq_id);
    if members.contains(channel) {
        let i = choose|i: int| 0 <= i < to.len() && to[i] == channel;
        assert(out[i].to == channel);
    }
    if exists|i: int| 0 <= i < out.len() && (#[trigger] out[i]).to == channel {
        let i = choose|i: int| 0 <= i < out.len() && (#[trigger] out[i]).to == channel;
        assert(to[i] == channel);
    }
    assert forall|i: int, j: int|
        0 <= i < out.len() && 0 <= j < out.len() && (#[trigger] out[i]).to == (
        #[trigger] out[j]).to implies i == j by {
        assert(to[i] == to[j]);
    }
}

/// The sender of a chat line gets its own line back if, and only if, the
/// channel it is online with is a member of the room.
pub proof fn lemma_chat_echoes_to_sender(
    state: HubState,
    msg: ClientMessage,
    out: Seq<Delivery>,
    channel: ChannelId,
)
    requires
        state.emits(Command::ClientMessage(msg), out),
        state.channel_of(msg.user_id) == Some(channel),
    ensures
        state.members(msg.rfq_id).contains(channel) <==> exists|i: int|
            0 <= i < out.len() && #[trigger] out[i]@ == (
                channel,
                chat_frame(msg.user_full_name@, msg.company_name@, msg.msg@),
            ),
{
    lemma_chat_reaches_exactly_the_room(state, msg, out, channel);
    if state.members(msg.rfq_id).contains(channel) {
        let i = choose|i: int| 0 <= i < out.len() && (#[trigger] out[i]).to == channel;
        assert(out[i]@ == (channel, chat_frame(msg.user_full_name@, msg.company_name@, msg.msg@)));
    }
    if exists|i: int|
        0 <= i < out.len() && #[trigger] out[i]@ == (
            channel,
            chat_frame(msg.user_full_name@, msg.company_name@, msg.msg@),
        ) {
        let i = choose|i: int|
            0 <= i < out.len() && #[trigger] out[i]@ == (
                channel,
                chat_frame(msg.user_full_name@, msg.company_name@, msg.msg@),
            );
        assert(out[i].to == channel);
    }
}

/// A notification for an online user is delivered to that user's channel
/// exactly once; for an offline user nothing is delivered.
pub proof fn lemma_direct_message_once_or_never(
    state: HubState,
    msg: DirectMessage,
    out: Seq<Delivery>,
)
    requires
        state.emits(Command::DirectMessage(msg), out),
    ensures
        state.sessions.contains_key(msg.recipient_user_id) ==> out.len() == 1 && out[0]@ == (
            state.sessions[msg.recipient_user_id],
            notification_frame(msg.content@),
        ),
        !state.sessions.contains_key(msg.recipient_user_id) ==> out.len() == 0,
{
}

/// A relayed signal ends with the payload exactly as it was handed in; for
/// an offline recipient nothing is delivered.
pub proof fn lemma_signal_relay_is_verbatim(state: HubState, msg: RtcSignal, out: Seq<Delivery>)
    requires
        state.emits(Command::RtcSignal(msg), out),
    ensures
        !state.sessions.contains_key(msg.recipient_user_id) ==> out.len() == 0,
        state.sessions.contains_key(msg.recipient_user_id) ==> {
            let frame = out[0].message@;
            let payload = msg.signal_data@;
            &&& out.len() == 1
            &&& out[0].to == state.sessions[msg.recipient_user_id]
            &&& frame.len() >= payload.len()
            &&& frame.subrange(frame.len() - payload.len(), frame.len() as int) == payload
        },
{
    lemma_signal_frame_keeps_payload(msg.sender_user_id as int, msg.signal_data@);
}

/// When a user connects twice, the user resolves to the second channel
/// only, and a notification for the user goes to that channel alone.
pub proof fn lemma_last_connect_wins(
    state: HubState,
    user_id: i32,
    first: ChannelId,
    second: ChannelId,
    msg: DirectMessage,
    out: Seq<Delivery>,
)
    requires
        msg.recipient_user_id == user_id,
        state.connect(user_id, first).connect(user_id, second).emits(
            Command::DirectMessage(msg),
            out,
        ),
    ensures
        state.connect(user_id, first).connect(user_id, second).channel_of(user_id) == Some(second),
        out.len() == 1,
        out[0].to == second,
{
}

/// The coordinator's state. Reached only through its commands.
pub struct ChatServer {
    rooms: RoomRegistry,
    sessions: SessionRegistry,
}

impl View for ChatServer {
    type V = HubState;

    closed spec fn view(&self) -> HubState {
        HubState { sessions: self.sessions@, rooms: self.rooms@ }
    }
}

impl Default for ChatServer {
    fn default() -> (server: Self)
        ensures
            server@ == HubState::empty(),
    {
        ChatServer { rooms: RoomRegistry::new(), sessions: SessionRegistry::new() }
    }
}

impl ChatServer {
    /// Registers the user's channel, replacing any earlier one.
    pub fn connect(&mut self, msg: Connect)
        ensures
            final(self)@ == old(self)@.connect(msg.user_id, msg.addr),
    {
        self.sessions.register(msg.user_id, msg.addr);
    }

    /// Takes the closed connection's channel out of every room, and drops
    /// the user's session if it is the one over that channel.
    pub fn disconnect(&mut self, msg: Disconnect)
        ensures
            final(self)@ == old(self)@.disconnect(msg.user_id, msg.addr),
    {
        match self.sessions.lookup(msg.user_id) {
            Some(channel) => {
                if channel == msg.addr {
                    self.sessions.unregister(msg.user_id);
                }
            },
            None => {},
        }
        self.rooms.purge(msg.addr);
    }

    pub fn join_room(&mut self, msg: JoinRoom)
        ensures
            final(self)@ == old(self)@.join_room(msg.rfq_id, msg.addr),
    {
        self.rooms.join(msg.rfq_id, msg.addr);
    }

    pub fn leave_room(&mut self, msg: LeaveRoom)
        ensures
            final(self)@ == old(self)@.leave_room(msg.rfq_id, msg.addr),
    {
        self.rooms.leave(msg.rfq_id, msg.addr);
    }

    /// Sends `frame` to every member of the room, the sender's own channel
    /// included if it is a member.
    pub fn broadcast_to_room(&self, room_id: i32, frame: &String) -> (out: Vec<Delivery>)
        ensures
            is_fan_out(out@, self@.members(room_id), frame@),
    {
        let channels = self.rooms.members(room_id);
        let mut out: Vec<Delivery> = Vec::new();
        let mut i: usize = 0;
        while i < channels.len()
            invariant
                i <= channels.len(),
                out@.len() == i,
                forall|j: int| 0 <= j < i ==> (#[trigger] out@[j])@ == (channels@[j], frame@),
            decreases channels.len() - i,
        {
            out.push(Delivery { to: channels[i], message: ServerMessage(frame.clone()) });
            i += 1;
        }
        assert(recipients(out@) =~= channels@);
        out
    }

    /// Sends `frame` to the user if the user is online; drops it otherwise.
    pub fn send_to_user(&self, user_id: i32, frame: String) -> (out: Vec<Delivery>)
        ensures
            is_direct(out@, self@.channel_of(user_id), frame@),
    {
        let mut out: Vec<Delivery> = Vec::new();
        match self.sessions.lookup(user_id) {
            Some(channel) => {
                out.push(Delivery { to: channel, message: ServerMessage(frame) });
            },
            None => {},
        }
        out
    }

    /// Fans a chat line out to the room.
    pub fn client_message(&self, msg: ClientMessage) -> (out: Vec<Delivery>)
        ensures
            is_fan_out(
                out@,
                self@.members(msg.rfq_id),
                chat_frame(msg.user_full_name@, msg.company_name@, msg.msg@),
            ),
    {
        let frame = chat_text(
            msg.user_full_name.as_str(),
            msg.company_name.as_str(),
            msg.msg.as_str(),
        );
        self.broadcast_to_room(msg.rfq_id, &frame)
    }

    /// Pushes a notification to its recipient, best effort.
    pub fn direct_message(&self, msg: DirectMessage) -> (out: Vec<Delivery>)
        ensures
            is_direct(
                out@,
                self@.channel_of(msg.recipient_user_id),
                notification_frame(msg.content@),
            ),
    {
        let frame = notification_text(msg.content.as_str());
        self.send_to_user(msg.recipient_user_id, frame)
    }

    /// Relays a signalling payload to its recipient, unchanged.
    pub fn rtc_signal(&self, msg: RtcSignal) -> (out: Vec<Delivery>)
        ensures
            is_direct(
                out@,
                self@.channel_of(msg.recipient_user_id),
                signal_frame(msg.sender_user_id as int, msg.signal_data@),
            ),
    {
        let frame = signal_text(msg.sender_user_id, msg.signal_data.as_str());
        self.send_to_user(msg.recipient_user_id, frame)
    }

    /// Forwards a call invitation to the callee.
    pub fn rtc_call_request(&self, msg: RtcCallRequest) -> (out: Vec<Delivery>)
        ensures
            is_direct(
                out@,
                self@.channel_of(msg.recipient_user_id),
                call_request_frame(
                    msg.sender_user_id as int,
                    msg.sender_full_name@,
                    msg.rfq_id as int,
                ),
            ),
    {
        let frame = call_request_text(
            msg.sender_user_id,
            msg.sender_full_name.as_str(),
            msg.rfq_id,
        );
        self.send_to_user(msg.recipient_user_id, frame)
    }

    /// Tells the user who placed the call that the callee picked up.
    pub fn rtc_call_accepted(&self, msg: RtcCallAccepted) -> (out: Vec<Delivery>)
        ensures
            is_direct(
                out@,
                self@.channel_of(msg.original_sender_id),
                call_accepted_frame(msg.recipient_id as int),
            ),
    {
        let frame = call_accepted_text(msg.recipient_id);
        self.send_to_user(msg.original_sender_id, frame)
    }

    /// Processes one command to completion and returns the deliveries it
    /// calls for.
    pub fn handle(&mut self, command: Command) -> (out: Vec<Delivery>)
        ensures
            final(self)@ == old(self)@.after(command),
            old(self)@.emits(command, out@),
    {
        match command {
            Command::Connect(m) => {
                self.connect(m);
                Vec::new()
            },
            Command::Disconnect(m) => {
                self.disconnect(m);
                Vec::new()
            },
            Command::JoinRoom(m) => {
                self.join_room(m);
                Vec::new()
            },
            Command::LeaveRoom(m) => {
                self.leave_room(m);
                Vec::new()
            },
            Command::ClientMessage(m) => self.client_message(m),
            Command::DirectMessage(m) => self.direct_message(m),
            Command::RtcSignal(m) => self.rtc_signal(m),
            Command::RtcCallRequest(m) => self.rtc_call_request(m),
            Command::RtcCallAccepted(m) => self.rtc_call_accepted(m),
        }
    }

    /// The user's live channel, if the user is online.
    pub fn session_of(&self, user_id: i32) -> (found: Option<ChannelId>)
        ensures
            found == self@.channel_of(user_id),
    {
        self.sessions.lookup(user_id)
    }

    /// The channels in a room, each once.
    pub fn room_members(&self, room_id: i32) -> (channels: Vec<ChannelId>)
        ensures
            channels@.no_duplicates(),
            channels@.to_set() == self@.members(room_id),
    {
        self.rooms.members(room_id)
    }
}

} // verus!
