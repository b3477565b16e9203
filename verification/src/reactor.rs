//! The executable reactor core: the token allocator, the live-attempt table,
//! the registration table, and the three public operations — `start`, the
//! readiness dispatch `ready`, and `terminate`. Each is proved to behave
//! exactly as its model transition in `crate::model` says.

use vstd::prelude::*;
use std::collections::HashMap;
use crate::attempt::{Dispatch, Outcome, ReceiveStep, StartError, TryPeer};
use crate::message::{HandshakeMessage, PublicKey, REQUEST_PRIORITY};
use crate::model::{
    attempt_interest, model_wf, ready_model, start_model, terminate_model, ModelState,
};
use crate::transport::{EventFlags, PeerAddr, Registration, SocketHandle, SocketIo, SocketOp};

verus! {

broadcast use vstd::std_specs::hash::group_hash_axioms;

/// The single-threaded reactor: hands out unique tokens, owns one table
/// entry per live attempt, and tracks which sockets are registered with the
/// readiness poll. Ownership of an attempt moves fully into the table at
/// registration and moves out at removal.
pub struct Reactor {
    pub next_token: u64,
    pub table: HashMap<u64, TryPeer>,
    pub registered: HashMap<u64, Registration>,
}

impl Reactor {
    /// The abstract state this reactor stands for.
    pub open spec fn model(self) -> ModelState {
        ModelState {
            next_token: self.next_token,
            table: self.table@,
            registered: self.registered@,
        }
    }

    /// Well-formedness of the reactor, as the model defines it.
    pub open spec fn wf(self) -> bool {
        model_wf(self.model())
    }

    /// A reactor with no attempts and no registrations.
    pub fn new() -> (r: Reactor)
        ensures
            r.model() == crate::model::empty_model(),
            r.wf(),
    {
        let r = Reactor {
            next_token: 0,
            table: HashMap::new(),
            registered: HashMap::new(),
        };
        proof {
            assert(r.model() =~= crate::model::empty_model());
        }
        r
    }

    /// Whether an attempt is still live under this token.
    pub fn is_live(&self, token: u64) -> (b: bool)
        ensures
            b == self.table@.contains_key(token),
    {
        self.table.contains_key(&token)
    }

    /// Whether a socket is still registered with the poll under this token.
    pub fn is_registered(&self, token: u64) -> (b: bool)
        ensures
            b == self.registered@.contains_key(token),
    {
        self.registered.contains_key(&token)
    }

    /// How many attempts are live.
    pub fn live_count(&self) -> (n: usize)
        ensures
            n == self.table@.len(),
    {
        self.table.len()
    }

    /// The error path shared by every asynchronous failure: the attempt —
    /// already taken out of the table by the dispatch — loses its poll
    /// registration, its socket is released for deregistration and disposal,
    /// and the single `Failure` outcome is produced. The table entry is gone
    /// before the outcome becomes visible, so no later event can re-enter
    /// this path for the same token.
    fn handle_error(&mut self, token: u64, a: TryPeer, ops: Vec<SocketOp>) -> (d: Dispatch)
        ensures
            final(self).next_token == old(self).next_token,
            final(self).table@ == old(self).table@,
            final(self).registered@ == old(self).registered@.remove(token),
            d.ops@ == ops@,
            d.outcome == Some(Outcome::Failure { peer: a.peer }),
            d.released == a.socket,
    {
        let _ = self.registered.remove(&token);
        Dispatch { ops, outcome: Some(Outcome::Failure { peer: a.peer }), released: a.socket }
    }

    /// Dispatch one delivered readiness event to the attempt owning `token`.
    /// The returned outcome, if any, is the one the completion callback is
    /// owed; by then the token's table entry is already gone.
    pub fn ready(&mut self, token: u64, flags: EventFlags, io: SocketIo) -> (d: Dispatch)
        requires
            old(self).wf(),
        ensures
            ({
                let (s2, m) = ready_model(old(self).model(), token, flags, io);
                &&& final(self).model() == s2
                &&& d.ops@ == m.ops
                &&& d.outcome == m.outcome
                &&& d.released == m.released
            }),
            final(self).wf(),
            final(self).next_token == old(self).next_token,
            d.outcome is Some ==> !final(self).table@.contains_key(token),
            !old(self).table@.contains_key(token) ==> {
                &&& final(self).model() == old(self).model()
                &&& d.ops@.len() == 0
                &&& d.outcome is None
                &&& d.released is None
            },
    {
        let ghost s0 = self.model();
        let popped = self.table.remove(&token);
        match popped {
            None => {
                proof {
                    assert(self.table@ =~= s0.table);
                    assert(self.model() =~= s0);
                }
                Dispatch { ops: Vec::new(), outcome: None, released: None }
            },
            Some(mut a) => {
                let mut ops: Vec<SocketOp> = Vec::new();
                if flags.error || flags.hup {
                    let d = self.handle_error(token, a, ops);
                    proof {
                        lemma_fail_wf(s0, token, a, Seq::empty());
                        assert(self.model() =~= crate::model::fail_model(
                            s0,
                            token,
                            a,
                            Seq::empty(),
                        ).0);
                    }
                    d
                } else {
                    let failed = if flags.writable {
                        a.write(io.write_accepted, &mut ops)
                    } else {
                        false
                    };
                    proof {
                        assert(a == crate::model::after_write(
                            s0.table[token],
                            flags.writable && s0.table[token].request is Some,
                        ));
                    }
                    if failed {
                        let ghost held = ops@;
                        let d = self.handle_error(token, a, ops);
                        proof {
                            lemma_fail_wf(s0, token, a, held);
                            assert(self.model() =~= crate::model::fail_model(
                                s0,
                                token,
                                a,
                                held,
                            ).0);
                        }
                        d
                    } else if flags.readable {
                        ops.push(SocketOp::TryRead);
                        match a.receive_response(io.read) {
                            ReceiveStep::Pending => {
                                let _ = self.table.insert(token, a);
                                proof {
                                    lemma_stay_wf(s0, token, a);
                                    assert(self.model() =~= ready_model(s0, token, flags, io).0);
                                }
                                Dispatch { ops, outcome: None, released: None }
                            },
                            ReceiveStep::Complete { socket, identity } => {
                                let peer = a.peer;
                                proof {
                                    lemma_remove_wf(s0, token);
                                    assert(self.model() =~= ready_model(s0, token, flags, io).0);
                                }
                                Dispatch {
                                    ops,
                                    outcome: Some(Outcome::Success { socket, peer, identity }),
                                    released: None,
                                }
                            },
                            ReceiveStep::Bad => {
                                let ghost held = ops@;
                                let d = self.handle_error(token, a, ops);
                                proof {
                                    lemma_fail_wf(s0, token, a, held);
                                    assert(self.model() =~= crate::model::fail_model(
                                        s0,
                                        token,
                                        a,
                                        held,
                                    ).0);
                                }
                                d
                            },
                        }
                    } else {
                        let _ = self.table.insert(token, a);
                        proof {
                            lemma_stay_wf(s0, token, a);
                            assert(self.model() =~= ready_model(s0, token, flags, io).0);
                        }
                        Dispatch { ops, outcome: None, released: None }
                    }
                }
            },
        }
    }

    /// Owner-initiated termination, keyed by token: the attempt, if still
    /// live, leaves the table and the poll, and its socket is handed back to
    /// be deregistered and discarded. The completion callback is never
    /// invoked on this path — termination yields no outcome by design.
    pub fn terminate(&mut self, token: u64) -> (r: Option<SocketHandle>)
        requires
            old(self).wf(),
        ensures
            ({
                let (s2, r2) = terminate_model(old(self).model(), token);
                &&& final(self).model() == s2
                &&& r == r2
            }),
            final(self).wf(),
            !final(self).table@.contains_key(token),
    {
        let ghost s0 = self.model();
        match self.table.remove(&token) {
            None => {
                proof {
                    assert(self.table@ =~= s0.table);
                    assert(self.model() =~= s0);
                }
                None
            },
            Some(mut a) => {
                let _ = self.registered.remove(&token);
                proof {
                    lemma_fail_wf(s0, token, a, Seq::empty());
                    assert(self.model() =~= terminate_model(s0, token).0);
                }
                a.socket.take()
            },
        }
    }
}

impl TryPeer {
    /// Begin one bootstrap attempt toward `peer`. The outcome of the
    /// non-blocking connect initiation and the poll's answer to the
    /// registration request enter as values; on either failing, the error is
    /// returned synchronously and no state is created. Otherwise a fresh
    /// token is allocated, the socket is registered for error, hangup and
    /// writable readiness with edge-triggered notification, the attempt —
    /// holding the pending bootstrap request at the lowest priority — is
    /// inserted under the token, and the token is returned.
    pub fn start(
        reactor: &mut Reactor,
        connected: Option<SocketHandle>,
        register_accepted: bool,
        peer: PeerAddr,
        our_pk: PublicKey,
        name_hash: u64,
    ) -> (r: Result<u64, StartError>)
        requires
            old(reactor).wf(),
            connected is Some ==> old(reactor).next_token < u64::MAX,
        ensures
            ({
                let (s2, r2) = start_model(
                    old(reactor).model(),
                    connected,
                    register_accepted,
                    peer,
                    our_pk,
                    name_hash,
                );
                &&& final(reactor).model() == s2
                &&& r == r2
            }),
            final(reactor).wf(),
            r is Ok ==> {
                &&& !old(reactor).table@.contains_key(r.unwrap())
                &&& final(reactor).table@.contains_key(r.unwrap())
            },
            r is Err ==> {
                &&& final(reactor).table@ == old(reactor).table@
                &&& final(reactor).registered@ == old(reactor).registered@
            },
    {
        let ghost s0 = reactor.model();
        match connected {
            None => Err(StartError::ConnectFailed),
            Some(socket) => {
                let token = reactor.next_token;
                reactor.next_token = reactor.next_token + 1;
                if !register_accepted {
                    Err(StartError::RegisterFailed)
                } else {
                    let state = TryPeer {
                        token,
                        peer,
                        socket: Some(socket),
                        request: Some(
                            (
                                HandshakeMessage::Request { public_key: our_pk, name_hash },
                                REQUEST_PRIORITY,
                            ),
                        ),
                    };
                    let _ = reactor.registered.insert(
                        token,
                        Registration {
                            interest: EventFlags {
                                error: true,
                                hup: true,
                                writable: true,
                                readable: false,
                            },
                            edge: true,
                        },
                    );
                    let _ = reactor.table.insert(token, state);
                    proof {
                        assert(EventFlags {
                            error: true,
                            hup: true,
                            writable: true,
                            readable: false,
                        } == attempt_interest());
                        lemma_start_wf(s0, token, state);
                        assert(reactor.model() =~= start_model(
                            s0,
                            connected,
                            register_accepted,
                            peer,
                            our_pk,
                            name_hash,
                        ).0);
                    }
                    Ok(token)
                }
            },
        }
    }
}

/// Removing one token from both tables preserves well-formedness: nothing is
/// added, and every surviving attempt keeps its registration.
proof fn lemma_fail_wf(s: ModelState, token: u64, a: TryPeer, ops: Seq<SocketOp>)
    requires
        model_wf(s),
    ensures
        model_wf(crate::model::fail_model(s, token, a, ops).0),
{
}

/// Removing one token from the table alone preserves well-formedness.
proof fn lemma_remove_wf(s: ModelState, token: u64)
    requires
        model_wf(s),
    ensures
        model_wf(
            ModelState {
                next_token: s.next_token,
                table: s.table.remove(token),
                registered: s.registered,
            },
        ),
{
}

/// Writing back an attempt that keeps its token, its socket and its key
/// preserves well-formedness.
proof fn lemma_stay_wf(s: ModelState, token: u64, a: TryPeer)
    requires
        model_wf(s),
        s.table.contains_key(token),
        a.token == token,
        a.socket is Some,
    ensures
        model_wf(
            ModelState {
                next_token: s.next_token,
                table: s.table.insert(token, a),
                registered: s.registered,
            },
        ),
{
}

/// Inserting one fresh attempt and its registration under the next token
/// preserves well-formedness, once the allocation mark moves past it.
proof fn lemma_start_wf(s: ModelState, token: u64, a: TryPeer)
    requires
        model_wf(s),
        token == s.next_token,
        s.next_token < u64::MAX,
        a.token == token,
        a.socket is Some,
    ensures
        model_wf(
            ModelState {
                next_token: (s.next_token + 1) as u64,
                table: s.table.insert(token, a),
                registered: s.registered.insert(
                    token,
                    Registration { interest: attempt_interest(), edge: true },
                ),
            },
        ),
{
}

} // verus!
