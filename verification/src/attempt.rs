//! One in-flight bootstrap attempt: its state, and the two socket-facing
//! steps of its state machine — submitting the pending request and
//! interpreting one try-read outcome.

use vstd::prelude::*;
use crate::message::{HandshakeMessage, PeerId};
use crate::transport::{PeerAddr, ReadOutcome, SocketHandle, SocketOp};

verus! {

/// The terminal outcome of an attempt, as handed to the completion callback.
/// `Success` transfers ownership of the socket out; `Failure` carries only
/// the address that failed. No partial-success value exists.
#[derive(Clone, Copy, Debug, PartialEq, Eq)]
pub enum Outcome {
    Success { socket: SocketHandle, peer: PeerAddr, identity: PeerId },
    Failure { peer: PeerAddr },
}

/// Everything one readiness dispatch produced: the socket operations it
/// performed in order, at most one terminal outcome for the completion
/// callback, and, on the failure path, the socket handle that left the
/// reactor to be deregistered and discarded.
#[derive(Debug, PartialEq, Eq)]
pub struct Dispatch {
    pub ops: Vec<SocketOp>,
    pub outcome: Option<Outcome>,
    pub released: Option<SocketHandle>,
}

/// A construction failure, reported synchronously by `start` and never
/// through the completion callback.
#[derive(Clone, Copy, Debug, PartialEq, Eq)]
pub enum StartError {
    /// Initiating the non-blocking connection failed.
    ConnectFailed,
    /// The readiness poll refused the registration.
    RegisterFailed,
}

/// What one try-read outcome means for the attempt: keep waiting, the
/// handshake completed (the socket moves out here, exactly once), or the
/// error path must follow.
#[derive(Clone, Copy, Debug, PartialEq, Eq)]
pub enum ReceiveStep {
    Pending,
    Complete { socket: SocketHandle, identity: PeerId },
    Bad,
}

/// One outbound handshake attempt. The token is assigned once at creation
/// and never changes; the socket and the pending request are each taken at
/// most once.
#[derive(Clone, Copy, Debug, PartialEq, Eq)]
pub struct TryPeer {
    pub token: u64,
    pub peer: PeerAddr,
    pub socket: Option<SocketHandle>,
    pub request: Option<(HandshakeMessage, u8)>,
}

impl TryPeer {
    /// Submit the pending request, if one is present, by taking it out of
    /// its slot — atomically with the submission, so a repeated writable
    /// event can never send it twice. Returns true exactly when a message
    /// was submitted and the socket refused it, which obliges the caller to
    /// take the error path.
    pub fn write(&mut self, accepted: bool, ops: &mut Vec<SocketOp>) -> (failed: bool)
        ensures
            final(self).token == old(self).token,
            final(self).peer == old(self).peer,
            final(self).socket == old(self).socket,
            final(self).request is None,
            old(self).request is None ==> {
                &&& final(ops)@ == old(ops)@
                &&& !failed
            },
            old(self).request is Some ==> {
                &&& final(ops)@ == old(ops)@.push(
                    SocketOp::QueueWrite {
                        message: old(self).request.unwrap().0,
                        priority: old(self).request.unwrap().1,
                    },
                )
                &&& failed == !accepted
            },
    {
        match self.request.take() {
            None => false,
            Some((message, priority)) => {
                ops.push(SocketOp::QueueWrite { message, priority });
                !accepted
            },
        }
    }

    /// Interpret what one try-read on the socket yielded. A well-formed
    /// response completes the handshake: the socket is taken out of its slot
    /// and returned together with the identity derived from the peer's key.
    /// An incomplete frame changes nothing. Anything else — an unexpected
    /// message shape or a decode failure — demands the error path.
    pub fn receive_response(&mut self, read: ReadOutcome) -> (step: ReceiveStep)
        requires
            old(self).socket is Some,
        ensures
            final(self).token == old(self).token,
            final(self).peer == old(self).peer,
            final(self).request == old(self).request,
            match read {
                ReadOutcome::NoFrame => {
                    &&& step == ReceiveStep::Pending
                    &&& final(self).socket == old(self).socket
                },
                ReadOutcome::Frame(msg) => match msg {
                    HandshakeMessage::Response { public_key } => {
                        &&& step == (ReceiveStep::Complete {
                            socket: old(self).socket.unwrap(),
                            identity: PeerId { key: public_key },
                        })
                        &&& final(self).socket is None
                    },
                    HandshakeMessage::Request { .. } => {
                        &&& step == ReceiveStep::Bad
                        &&& final(self).socket == old(self).socket
                    },
                },
                ReadOutcome::DecodeFailed => {
                    &&& step == ReceiveStep::Bad
                    &&& final(self).socket == old(self).socket
                },
            },
    {
        match read {
            ReadOutcome::NoFrame => ReceiveStep::Pending,
            ReadOutcome::Frame(msg) => match msg {
                HandshakeMessage::Response { public_key } => {
                    let socket = self.socket.take().unwrap();
                    ReceiveStep::Complete { socket, identity: PeerId { key: public_key } }
                },
                HandshakeMessage::Request { .. } => ReceiveStep::Bad,
            },
            ReadOutcome::DecodeFailed => ReceiveStep::Bad,
        }
    }
}

} // verus!
