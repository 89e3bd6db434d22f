//! Commands flowing through the bus, and the decisions that produce them.
//!
//! The connection-negotiation layer is an external collaborator: it creates
//! peers, watches their transport state, and decodes inbound control
//! payloads. What stands here is the pure mapping from what that layer
//! reports to the command the core must see. Control payload components
//! arrive as raw bit patterns: the core only relays them to the actuation
//! handler and never interprets them.

use vstd::prelude::*;

verus! {

/// The tagged union of everything the bus carries.
#[derive(Clone, Copy, PartialEq, Eq, Structural, Debug)]
pub enum Command {
    /// A peer's transport connected: start streaming to its sink.
    StartSession { id: u128, sink: u64 },
    /// A peer's transport disconnected: stop its stream.
    StopSession { id: u128 },
    /// A decoded control payload for the actuation handler, relayed as the
    /// bit patterns of its two components.
    Actuate { x_bits: u32, y_bits: u32 },
    /// The negotiation layer created a peer; nothing streams until it
    /// connects.
    PeerRegistered { handle: u64 },
}

/// The command kinds consumers subscribe by.
#[derive(Clone, Copy, PartialEq, Eq, Structural, Debug)]
pub enum CommandKind {
    StartSession,
    StopSession,
    Actuate,
    PeerRegistered,
}

impl Command {
    pub open spec fn kind_spec(self) -> CommandKind {
        match self {
            Command::StartSession { .. } => CommandKind::StartSession,
            Command::StopSession { .. } => CommandKind::StopSession,
            Command::Actuate { .. } => CommandKind::Actuate,
            Command::PeerRegistered { .. } => CommandKind::PeerRegistered,
        }
    }

    /// The kind a consumer must have subscribed to in order to receive this
    /// command.
    pub fn kind(&self) -> (k: CommandKind)
        ensures
            k == self.kind_spec(),
    {
        match self {
            Command::StartSession { .. } => CommandKind::StartSession,
            Command::StopSession { .. } => CommandKind::StopSession,
            Command::Actuate { .. } => CommandKind::Actuate,
            Command::PeerRegistered { .. } => CommandKind::PeerRegistered,
        }
    }
}

/// A peer's transport state as the external connection engine reports it.
#[derive(Clone, Copy, PartialEq, Eq, Structural, Debug)]
pub enum PeerTransportState {
    New,
    Connecting,
    Connected,
    Disconnected,
    Failed,
    Closed,
}

/// The registered capability the connection engine invokes on every state
/// change, reduced to its decision: connecting starts the peer's stream
/// against its sink, disconnecting stops it, every other transition publishes
/// nothing.
pub fn command_for_transport_state(id: u128, sink: u64, state: PeerTransportState) -> (c: Option<
    Command,
>)
    ensures
        state == PeerTransportState::Connected ==> c == Some(Command::StartSession { id, sink }),
        state == PeerTransportState::Disconnected ==> c == Some(Command::StopSession { id }),
        state != PeerTransportState::Connected && state != PeerTransportState::Disconnected ==> c
            is None,
{
    match state {
        PeerTransportState::Connected => Some(Command::StartSession { id, sink }),
        PeerTransportState::Disconnected => Some(Command::StopSession { id }),
        _ => None,
    }
}

/// A decoded inbound control message, its two components as raw bit
/// patterns. Parsing the wire payload is the external decoder's work.
#[derive(Clone, Copy, PartialEq, Eq, Structural, Debug)]
pub enum ControlMessage {
    Move { x_bits: u32, y_bits: u32 },
}

/// Republishes a decoded control message as the bus command the actuation
/// handler consumes.
pub fn command_for_control(msg: ControlMessage) -> (c: Command)
    ensures
        msg matches ControlMessage::Move { x_bits, y_bits } ==> c == (Command::Actuate {
            x_bits,
            y_bits,
        }),
{
    match msg {
        ControlMessage::Move { x_bits, y_bits } => Command::Actuate { x_bits, y_bits },
    }
}

} // verus!
