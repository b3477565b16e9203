//! Plain-value stand-ins for what the transport and the readiness poll hand
//! the core: addresses, socket handles, readiness flags, and the answers a
//! non-blocking socket gives within one dispatch.

use vstd::prelude::*;
use crate::message::HandshakeMessage;

verus! {

/// A target network endpoint (an IPv4 address and a port). The core never
/// inspects it; it is carried through to the terminal outcome.
#[derive(Clone, Copy, Debug, PartialEq, Eq)]
pub struct PeerAddr {
    pub ip: u32,
    pub port: u16,
}

/// A handle standing for an exclusively owned, connected, non-blocking
/// transport stream. The core moves it around but never looks inside.
#[derive(Clone, Copy, Debug, PartialEq, Eq)]
pub struct SocketHandle {
    pub id: u64,
}

/// A set of readiness conditions: used both as the interest set given to the
/// poll at registration and as the flags carried by a delivered event.
#[derive(Clone, Copy, Debug, PartialEq, Eq)]
pub struct EventFlags {
    pub error: bool,
    pub hup: bool,
    pub writable: bool,
    pub readable: bool,
}

impl EventFlags {
    /// The event signals a socket error or a hangup: readiness flags on the
    /// same event are to be ignored.
    pub open spec fn interrupted(self) -> bool {
        self.error || self.hup
    }
}

/// What one try-read call on the socket yields: nothing complete yet, one
/// fully decoded message, or a decode failure.
#[derive(Clone, Copy, Debug, PartialEq, Eq)]
pub enum ReadOutcome {
    NoFrame,
    Frame(HandshakeMessage),
    DecodeFailed,
}

/// The socket's answers for one dispatch: whether a queued write would be
/// accepted, and what a try-read would yield. Each answer is consulted only
/// if the dispatch actually performs that operation.
#[derive(Clone, Copy, Debug, PartialEq, Eq)]
pub struct SocketIo {
    pub write_accepted: bool,
    pub read: ReadOutcome,
}

/// A socket operation the dispatch decided to perform, in order. The trace
/// makes the write-before-read discipline of a combined event observable.
#[derive(Clone, Copy, Debug, PartialEq, Eq)]
pub enum SocketOp {
    /// Submit one message to the socket's internal send queue.
    QueueWrite { message: HandshakeMessage, priority: u8 },
    /// Ask the socket for at most one decoded message.
    TryRead,
}

/// A poll registration: the interest set and the notification discipline the
/// socket was registered with.
#[derive(Clone, Copy, Debug, PartialEq, Eq)]
pub struct Registration {
    pub interest: EventFlags,
    pub edge: bool,
}

} // verus!
