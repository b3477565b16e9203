//! The mathematical model of the reactor: its abstract state, its
//! well-formedness invariant, and one transition function per public
//! operation. The executable operations promise, clause for clause, to
//! behave as these functions say.

use vstd::prelude::*;
use crate::attempt::{Outcome, StartError, TryPeer};
use crate::message::{HandshakeMessage, PeerId, PublicKey, REQUEST_PRIORITY};
use crate::transport::{EventFlags, PeerAddr, ReadOutcome, Registration, SocketHandle, SocketIo, SocketOp};

verus! {

/// The reactor's abstract state: the next token to hand out, the live
/// attempts keyed by token, and the poll registrations keyed by token.
#[verifier::ext_equal]
pub struct ModelState {
    pub next_token: u64,
    pub table: Map<u64, TryPeer>,
    pub registered: Map<u64, Registration>,
}

/// What one dispatch produces, at the model level.
#[verifier::ext_equal]
pub struct DispatchModel {
    pub ops: Seq<SocketOp>,
    pub outcome: Option<Outcome>,
    pub released: Option<SocketHandle>,
}

/// Well-formedness: every live attempt is keyed by its own token, still owns
/// its socket, is registered with the poll, and carries a token below the
/// allocation mark; so does every registration.
pub open spec fn model_wf(s: ModelState) -> bool {
    &&& forall|t: u64| #[trigger] s.table.contains_key(t) ==> {
        &&& s.table[t].token == t
        &&& s.table[t].socket is Some
        &&& s.registered.contains_key(t)
        &&& t < s.next_token
    }
    &&& forall|t: u64| #[trigger] s.registered.contains_key(t) ==> t < s.next_token
}

/// The reactor with no attempts, no registrations, and the first token yet
/// to be handed out.
pub open spec fn empty_model() -> ModelState {
    ModelState { next_token: 0, table: Map::empty(), registered: Map::empty() }
}

/// The interest set an attempt registers with: error, hangup and writable
/// readiness. Read interest is the transport's to arrange once the request
/// has been queued on it.
pub open spec fn attempt_interest() -> EventFlags {
    EventFlags { error: true, hup: true, writable: true, readable: false }
}

/// The attempt `start` inserts for a freshly connected socket.
pub open spec fn initial_attempt(
    token: u64,
    peer: PeerAddr,
    socket: SocketHandle,
    our_pk: PublicKey,
    name_hash: u64,
) -> TryPeer {
    TryPeer {
        token,
        peer,
        socket: Some(socket),
        request: Some(
            (HandshakeMessage::Request { public_key: our_pk, name_hash }, REQUEST_PRIORITY),
        ),
    }
}

/// What `start` does. A failed connect changes nothing. A refused
/// registration burns the allocated token but inserts nothing. Otherwise
/// exactly one registration and one table entry appear, under the fresh
/// token, and the token is returned.
pub open spec fn start_model(
    s: ModelState,
    connected: Option<SocketHandle>,
    register_accepted: bool,
    peer: PeerAddr,
    our_pk: PublicKey,
    name_hash: u64,
) -> (ModelState, Result<u64, StartError>) {
    match connected {
        None => (s, Err(StartError::ConnectFailed)),
        Some(socket) => {
            let token = s.next_token;
            let next = (s.next_token + 1) as u64;
            if !register_accepted {
                (
                    ModelState { next_token: next, table: s.table, registered: s.registered },
                    Err(StartError::RegisterFailed),
                )
            } else {
                (
                    ModelState {
                        next_token: next,
                        table: s.table.insert(
                            token,
                            initial_attempt(token, peer, socket, our_pk, name_hash),
                        ),
                        registered: s.registered.insert(
                            token,
                            Registration { interest: attempt_interest(), edge: true },
                        ),
                    },
                    Ok(token),
                )
            }
        },
    }
}

/// The error path: the attempt (already keyed by `token`) leaves the table
/// and the poll, its socket is released for deregistration and disposal, and
/// the one failure outcome is produced.
pub open spec fn fail_model(
    s: ModelState,
    token: u64,
    a: TryPeer,
    ops: Seq<SocketOp>,
) -> (ModelState, DispatchModel) {
    (
        ModelState {
            next_token: s.next_token,
            table: s.table.remove(token),
            registered: s.registered.remove(token),
        },
        DispatchModel {
            ops,
            outcome: Some(Outcome::Failure { peer: a.peer }),
            released: a.socket,
        },
    )
}

/// The attempt as it stands after the write phase of a dispatch: the pending
/// request is gone exactly when it was submitted.
pub open spec fn after_write(a: TryPeer, submits: bool) -> TryPeer {
    TryPeer {
        token: a.token,
        peer: a.peer,
        socket: a.socket,
        request: if submits { None } else { a.request },
    }
}

/// What one readiness dispatch does. An unknown token — one already spent by
/// completion, failure or termination — is a silent no-op, which is what
/// makes "the callback fires at most once" enforceable. Error or hangup
/// flags go straight to the error path. Otherwise the pending request, if
/// any, is submitted first; only then is a read attempted, so a combined
/// writable-and-readable event acts on both conditions in one dispatch.
pub open spec fn ready_model(
    s: ModelState,
    token: u64,
    flags: EventFlags,
    io: SocketIo,
) -> (ModelState, DispatchModel) {
    if !s.table.contains_key(token) {
        (s, DispatchModel { ops: Seq::empty(), outcome: None, released: None })
    } else {
        let a = s.table[token];
        if flags.interrupted() {
            fail_model(s, token, a, Seq::empty())
        } else {
            let submits = flags.writable && a.request is Some;
            let write_ops: Seq<SocketOp> = if submits {
                seq![
                    SocketOp::QueueWrite {
                        message: a.request.unwrap().0,
                        priority: a.request.unwrap().1,
                    },
                ]
            } else {
                Seq::empty()
            };
            let a1 = after_write(a, submits);
            if submits && !io.write_accepted {
                fail_model(s, token, a1, write_ops)
            } else if flags.readable {
                let ops = write_ops.push(SocketOp::TryRead);
                match io.read {
                    ReadOutcome::NoFrame => (
                        ModelState {
                            next_token: s.next_token,
                            table: s.table.insert(token, a1),
                            registered: s.registered,
                        },
                        DispatchModel { ops, outcome: None, released: None },
                    ),
                    ReadOutcome::Frame(msg) => match msg {
                        HandshakeMessage::Response { public_key } => (
                            ModelState {
                                next_token: s.next_token,
                                table: s.table.remove(token),
                                registered: s.registered,
                            },
                            DispatchModel {
                                ops,
                                outcome: Some(
                                    Outcome::Success {
                                        socket: a1.socket.unwrap(),
                                        peer: a1.peer,
                                        identity: PeerId { key: public_key },
                                    },
                                ),
                                released: None,
                            },
                        ),
                        HandshakeMessage::Request { .. } => fail_model(s, token, a1, ops),
                    },
                    ReadOutcome::DecodeFailed => fail_model(s, token, a1, ops),
                }
            } else {
                (
                    ModelState {
                        next_token: s.next_token,
                        table: s.table.insert(token, a1),
                        registered: s.registered,
                    },
                    DispatchModel { ops: write_ops, outcome: None, released: None },
                )
            }
        }
    }
}

/// What `terminate` does: the attempt, if still live, leaves the table and
/// the poll, and its socket is handed back for deregistration and disposal.
/// No outcome is ever produced on this path.
pub open spec fn terminate_model(s: ModelState, token: u64) -> (ModelState, Option<
    SocketHandle,
>) {
    if !s.table.contains_key(token) {
        (s, None)
    } else {
        (
            ModelState {
                next_token: s.next_token,
                table: s.table.remove(token),
                registered: s.registered.remove(token),
            },
            s.table[token].socket,
        )
    }
}

} // verus!
