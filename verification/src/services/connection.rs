//! The protocol of one live connection: handshake, inbound frames turned
//! into coordinator commands, pushed frames written back, and exactly one
//! disconnect at the end.

use crate::services::chat_server::{
    ClientMessage, Command, Connect, Disconnect, JoinRoom, LeaveRoom, RtcCallAccepted,
    RtcCallRequest, RtcSignal, ServerMessage,
};
use crate::services::session_registry::ChannelId;
use vstd::prelude::*;

verus! {

/// Who is on the connection, as established at the handshake.
pub struct Identity {
    pub user_id: i32,
    pub full_name: String,
    pub company_name: String,
}

/// What a client may ask for over its connection.
pub enum InboundFrame {
    JoinRoom { room_id: i32 },
    LeaveRoom { room_id: i32 },
    Chat { room_id: i32, text: String },
    RelaySignal { recipient_user_id: i32, payload: String },
    CallRequest { recipient_user_id: i32, room_id: i32 },
    CallAccepted { original_sender_id: i32 },
}

/// What can happen on a connection.
pub enum ConnectionEvent {
    /// The credential that came with the upgrade is valid.
    HandshakeAccepted(Identity),
    /// The credential is missing or invalid.
    HandshakeRejected,
    /// The client sent a frame that parsed.
    Frame(InboundFrame),
    /// The client sent a frame that did not parse.
    Malformed,
    /// The coordinator pushed a frame for this connection.
    Push(ServerMessage),
    /// Writing to the socket failed.
    WriteFailed,
    /// The socket closed, whichever side closed it.
    SocketClosed,
}

/// What the connection's owner has to do in answer to an event.
pub enum ConnectionAction {
    /// Nothing; the event is dropped.
    Ignore,
    /// Refuse the connection and close the socket. No command is issued.
    Reject,
    /// Hand the command to the coordinator.
    Issue(Command),
    /// Write the frame to the socket as it is.
    Write(ServerMessage),
}

/// Where a connection stands.
pub enum ConnectionPhase {
    /// The credential has not been judged yet.
    Handshaking,
    /// The user is connected.
    Open(Identity),
    /// The connection is over.
    Closed,
}

/// One live connection: its outbound channel and where it stands.
pub struct Connection {
    pub channel: ChannelId,
    pub phase: ConnectionPhase,
}

/// The command that a frame from `who`, arriving over `channel`, stands
/// for. The sender's identity is the connection's, never the frame's.
pub open spec fn command_for(frame: InboundFrame, who: Identity, channel: ChannelId) -> Command {
    match frame {
        InboundFrame::JoinRoom { room_id } => Command::JoinRoom(
            JoinRoom { rfq_id: room_id, addr: channel },
        ),
        InboundFrame::LeaveRoom { room_id } => Command::LeaveRoom(
            LeaveRoom { rfq_id: room_id, addr: channel },
        ),
        InboundFrame::Chat { room_id, text } => Command::ClientMessage(
            ClientMessage {
                rfq_id: room_id,
                user_id: who.user_id,
                user_full_name: who.full_name,
                company_name: who.company_name,
                msg: text,
            },
        ),
        InboundFrame::RelaySignal { recipient_user_id, payload } => Command::RtcSignal(
            RtcSignal { sender_user_id: who.user_id, recipient_user_id, signal_data: payload },
        ),
        InboundFrame::CallRequest { recipient_user_id, room_id } => Command::RtcCallRequest(
            RtcCallRequest {
                sender_user_id: who.user_id,
                sender_full_name: who.full_name,
                recipient_user_id,
                rfq_id: room_id,
            },
        ),
        InboundFrame::CallAccepted { original_sender_id } => Command::RtcCallAccepted(
            RtcCallAccepted { original_sender_id, recipient_id: who.user_id },
        ),
    }
}

/// The phase after `event`.
pub open spec fn phase_after(phase: ConnectionPhase, event: ConnectionEvent) -> ConnectionPhase {
    match (phase, event) {
        (ConnectionPhase::Handshaking, ConnectionEvent::HandshakeAccepted(who)) => ConnectionPhase::Open(who),
        (ConnectionPhase::Handshaking, ConnectionEvent::HandshakeRejected) => ConnectionPhase::Closed,
        (_, ConnectionEvent::WriteFailed) => ConnectionPhase::Closed,
        (_, ConnectionEvent::SocketClosed) => ConnectionPhase::Closed,
        _ => phase,
    }
}

/// What `event` calls for in `phase` on the connection with `channel`.
///
/// Before the handshake is accepted nothing reaches the coordinator. An
/// open connection forwards what parses and drops what does not, without
/// closing. Its end, however it comes, issues the one disconnect, which
/// names the connection's own channel. After that nothing is issued any
/// more.
pub open spec fn action_for(
    phase: ConnectionPhase,
    event: ConnectionEvent,
    channel: ChannelId,
) -> ConnectionAction {
    match (phase, event) {
        (
            ConnectionPhase::Handshaking,
            ConnectionEvent::HandshakeAccepted(who),
        ) => ConnectionAction::Issue(Command::Connect(Connect { user_id: who.user_id, addr: channel })),
        (ConnectionPhase::Handshaking, ConnectionEvent::HandshakeRejected) => ConnectionAction::Reject,
        (ConnectionPhase::Open(who), ConnectionEvent::Frame(frame)) => ConnectionAction::Issue(
            command_for(frame, who, channel),
        ),
        (ConnectionPhase::Open(_), ConnectionEvent::Push(message)) => ConnectionAction::Write(message),
        (ConnectionPhase::Open(who), ConnectionEvent::WriteFailed) => ConnectionAction::Issue(
            Command::Disconnect(Disconnect { user_id: who.user_id, addr: channel }),
        ),
        (ConnectionPhase::Open(who), ConnectionEvent::SocketClosed) => ConnectionAction::Issue(
            Command::Disconnect(Disconnect { user_id: who.user_id, addr: channel }),
        ),
        _ => ConnectionAction::Ignore,
    }
}

/// The number of disconnects issued while `events` happen one after the
/// other, starting in `phase`.
pub open spec fn disconnects_issued(
    phase: ConnectionPhase,
    events: Seq<ConnectionEvent>,
    channel: ChannelId,
) -> nat
    decreases events.len(),
{
    if events.len() == 0 {
        0
    } else {
        let first = action_for(phase, events[0], channel);
        let rest = disconnects_issued(phase_after(phase, events[0]), events.drop_first(), channel);
        if first matches ConnectionAction::Issue(Command::Disconnect(_)) {
            rest + 1
        } else {
            rest
        }
    }
}

/// The phase reached when `events` happen one after the other.
pub open spec fn phase_reached(phase: ConnectionPhase, events: Seq<ConnectionEvent>) -> ConnectionPhase
    decreases events.len(),
{
    if events.len() == 0 {
        phase
    } else {
        phase_reached(phase_after(phase, events[0]), events.drop_first())
    }
}

/// Whether the connection is open now or at some point while `events`
/// happen.
pub open spec fn ever_open(phase: ConnectionPhase, events: Seq<ConnectionEvent>) -> bool
    decreases events.len(),
{
    phase is Open || (events.len() > 0 && ever_open(
        phase_after(phase, events[0]),
        events.drop_first(),
    ))
}

/// Whatever happens on a connection, and in whatever order, it issues one
/// disconnect if it was ever open and has come to its end, and none
/// otherwise. A closed connection stays closed.
pub proof fn lemma_disconnect_exactly_once(
    phase: ConnectionPhase,
    events: Seq<ConnectionEvent>,
    channel: ChannelId,
)
    ensures
        disconnects_issued(phase, events, channel) == (if ever_open(phase, events)
            && phase_reached(phase, events) is Closed {
            1nat
        } else {
            0nat
        }),
        phase is Closed ==> phase_reached(phase, events) is Closed && !ever_open(phase, events),
        phase is Open ==> !(phase_reached(phase, events) is Handshaking),
    decreases events.len(),
{
    if events.len() > 0 {
        lemma_disconnect_exactly_once(
            phase_after(phase, events[0]),
            events.drop_first(),
            channel,
        );
    }
}

impl Connection {
    /// A connection whose credential is still to be judged.
    pub fn new(channel: ChannelId) -> (connection: Self)
        ensures
            connection.channel == channel,
            connection.phase == ConnectionPhase::Handshaking,
    {
        Connection { channel, phase: ConnectionPhase::Handshaking }
    }

    /// Takes one event and says what to do about it.
    pub fn on_event(&mut self, event: ConnectionEvent) -> (action: ConnectionAction)
        ensures
            final(self).channel == old(self).channel,
            final(self).phase == phase_after(old(self).phase, event),
            action == action_for(old(self).phase, event, old(self).channel),
    {
        let channel = self.channel;
        let mut phase = ConnectionPhase::Closed;
        std::mem::swap(&mut self.phase, &mut phase);
        match (phase, event) {
            (ConnectionPhase::Handshaking, ConnectionEvent::HandshakeAccepted(who)) => {
                let user_id = who.user_id;
                self.phase = ConnectionPhase::Open(who);
                ConnectionAction::Issue(Command::Connect(Connect { user_id, addr: channel }))
            },
            (ConnectionPhase::Handshaking, ConnectionEvent::HandshakeRejected) => {
                ConnectionAction::Reject
            },
            (ConnectionPhase::Open(who), ConnectionEvent::Frame(frame)) => {
                let command = to_command(frame, &who, channel);
                self.phase = ConnectionPhase::Open(who);
                ConnectionAction::Issue(command)
            },
            (ConnectionPhase::Open(who), ConnectionEvent::Push(message)) => {
                self.phase = ConnectionPhase::Open(who);
                ConnectionAction::Write(message)
            },
            (ConnectionPhase::Open(who), ConnectionEvent::WriteFailed) => {
                ConnectionAction::Issue(Command::Disconnect(Disconnect { user_id: who.user_id, addr: channel }))
            },
            (ConnectionPhase::Open(who), ConnectionEvent::SocketClosed) => {
                ConnectionAction::Issue(Command::Disconnect(Disconnect { user_id: who.user_id, addr: channel }))
            },
            (_, ConnectionEvent::WriteFailed) => ConnectionAction::Ignore,
            (_, ConnectionEvent::SocketClosed) => ConnectionAction::Ignore,
            (phase, _) => {
                self.phase = phase;
                ConnectionAction::Ignore
            },
        }
    }
}

/// Turns a parsed frame into the command it stands for.
pub fn to_command(frame: InboundFrame, who: &Identity, channel: ChannelId) -> (command: Command)
    ensures
        command == command_for(frame, *who, channel),
{
    match frame {
        InboundFrame::JoinRoom { room_id } => Command::JoinRoom(
            JoinRoom { rfq_id: room_id, addr: channel },
        ),
        InboundFrame::LeaveRoom { room_id } => Command::LeaveRoom(
            LeaveRoom { rfq_id: room_id, addr: channel },
        ),
        InboundFrame::Chat { room_id, text } => Command::ClientMessage(
            ClientMessage {
                rfq_id: room_id,
                user_id: who.user_id,
                user_full_name: who.full_name.clone(),
                company_name: who.company_name.clone(),
                msg: text,
            },
        ),
        InboundFrame::RelaySignal { recipient_user_id, payload } => Command::RtcSignal(
            RtcSignal { sender_user_id: who.user_id, recipient_user_id, signal_data: payload },
        ),
        InboundFrame::CallRequest { recipient_user_id, room_id } => Command::RtcCallRequest(
            RtcCallRequest {
                sender_user_id: who.user_id,
                sender_full_name: who.full_name.clone(),
                recipient_user_id,
                rfq_id: room_id,
            },
        ),
        InboundFrame::CallAccepted { original_sender_id } => Command::RtcCallAccepted(
            RtcCallAccepted { original_sender_id, recipient_id: who.user_id },
        ),
    }
}

} // verus!
