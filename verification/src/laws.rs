//! The reactor's history laws. A run of the reactor is modeled as a
//! sequence of operations — starts, delivered readiness events,
//! terminations — applied to the model state, each step emitting at most one
//! token-tagged completion. The lemmas here prove, over every such
//! sequence, the guarantees the completion callback rests on: it fires at
//! most once per token, and never after that token was terminated.

use vstd::prelude::*;
use crate::attempt::Outcome;
use crate::message::PublicKey;
use crate::model::{
    initial_attempt, model_wf, ready_model, start_model, terminate_model, ModelState,
};
use crate::transport::{EventFlags, PeerAddr, SocketHandle, SocketIo, SocketOp};

verus! {

/// One operation applied to the reactor over its lifetime.
pub enum ReactorOp {
    Started {
        connected: Option<SocketHandle>,
        register_accepted: bool,
        peer: PeerAddr,
        our_pk: PublicKey,
        name_hash: u64,
    },
    Delivered { token: u64, flags: EventFlags, io: SocketIo },
    Terminated { token: u64 },
}

/// Apply one operation: the successor state, and the completion it emits for
/// its token, if any. Only a delivered readiness event can emit one;
/// termination and construction never reach the callback.
pub open spec fn apply_op(s: ModelState, e: ReactorOp) -> (ModelState, Option<(u64, Outcome)>) {
    match e {
        ReactorOp::Started { connected, register_accepted, peer, our_pk, name_hash } => (
            start_model(s, connected, register_accepted, peer, our_pk, name_hash).0,
            None,
        ),
        ReactorOp::Delivered { token, flags, io } => {
            let r = ready_model(s, token, flags, io);
            (
                r.0,
                match r.1.outcome {
                    Some(o) => Some((token, o)),
                    None => None,
                },
            )
        },
        ReactorOp::Terminated { token } => (terminate_model(s, token).0, None),
    }
}

/// The machine limit an operation must respect: a start that found a
/// connection needs a token left to hand out.
pub open spec fn op_ok(s: ModelState, e: ReactorOp) -> bool {
    match e {
        ReactorOp::Started { connected, .. } => connected is Some ==> s.next_token
            < u64::MAX,
        ReactorOp::Delivered { .. } => true,
        ReactorOp::Terminated { .. } => true,
    }
}

/// The state after applying a whole sequence of operations.
pub open spec fn run(s: ModelState, es: Seq<ReactorOp>) -> ModelState
    decreases es.len(),
{
    if es.len() == 0 {
        s
    } else {
        apply_op(run(s, es.drop_last()), es.last()).0
    }
}

/// Every operation of the sequence respects the machine limit in the state
/// it is applied to.
pub open spec fn ops_ok(s: ModelState, es: Seq<ReactorOp>) -> bool
    decreases es.len(),
{
    es.len() == 0 || (ops_ok(s, es.drop_last()) && op_ok(run(s, es.drop_last()), es.last()))
}

/// The completion emitted by step `i` of the sequence, if any.
pub open spec fn emission(s: ModelState, es: Seq<ReactorOp>, i: int) -> Option<(u64, Outcome)> {
    apply_op(run(s, es.take(i)), es[i]).1
}

/// Step `i` hands the completion callback an outcome for `token`.
pub open spec fn fires_for(s: ModelState, es: Seq<ReactorOp>, i: int, token: u64) -> bool {
    match emission(s, es, i) {
        Some((t, _o)) => t == token,
        None => false,
    }
}

/// A token the reactor has handed out and whose attempt is no longer live.
pub open spec fn spent(s: ModelState, token: u64) -> bool {
    token < s.next_token && !s.table.contains_key(token)
}

/// One operation keeps the state well-formed.
proof fn lemma_apply_wf(s: ModelState, e: ReactorOp)
    requires
        model_wf(s),
        op_ok(s, e),
    ensures
        model_wf(apply_op(s, e).0),
{
}

/// One operation never revives a spent token: the allocation mark only
/// grows, and nothing is ever inserted under a token below it.
proof fn lemma_apply_spent(s: ModelState, e: ReactorOp, token: u64)
    requires
        model_wf(s),
        op_ok(s, e),
        spent(s, token),
    ensures
        spent(apply_op(s, e).0, token),
{
}

/// A whole run keeps the state well-formed.
proof fn lemma_run_wf(s: ModelState, es: Seq<ReactorOp>)
    requires
        model_wf(s),
        ops_ok(s, es),
    ensures
        model_wf(run(s, es)),
    decreases es.len(),
{
    if es.len() > 0 {
        lemma_run_wf(s, es.drop_last());
        lemma_apply_wf(run(s, es.drop_last()), es.last());
    }
}

/// A prefix of a well-limited sequence is well-limited.
proof fn lemma_ops_ok_prefix(s: ModelState, es: Seq<ReactorOp>, i: int)
    requires
        ops_ok(s, es),
        0 <= i <= es.len(),
    ensures
        ops_ok(s, es.take(i)),
    decreases es.len() - i,
{
    if i == es.len() {
        assert(es.take(i) =~= es);
    } else {
        lemma_ops_ok_prefix(s, es, i + 1);
        assert(es.take(i + 1).drop_last() =~= es.take(i));
    }
}

/// Running one more step of the sequence applies its operation to the state
/// the prefix reached.
proof fn lemma_run_step(s: ModelState, es: Seq<ReactorOp>, i: int)
    requires
        0 <= i < es.len(),
    ensures
        run(s, es.take(i + 1)) == apply_op(run(s, es.take(i)), es[i]).0,
{
    assert(es.take(i + 1).drop_last() =~= es.take(i));
    assert(es.take(i + 1).last() == es[i]);
}

/// The operation at step `i` respects the machine limit in the state it
/// meets.
proof fn lemma_ops_ok_at(s: ModelState, es: Seq<ReactorOp>, i: int)
    requires
        ops_ok(s, es),
        0 <= i < es.len(),
    ensures
        op_ok(run(s, es.take(i)), es[i]),
{
    lemma_ops_ok_prefix(s, es, i + 1);
    assert(es.take(i + 1).drop_last() =~= es.take(i));
    assert(es.take(i + 1).last() == es[i]);
}

/// A token spent after `k` steps is still spent after `j`.
proof fn lemma_spent_from(s: ModelState, es: Seq<ReactorOp>, k: int, j: int, token: u64)
    requires
        model_wf(s),
        ops_ok(s, es),
        0 <= k <= j <= es.len(),
        spent(run(s, es.take(k)), token),
    ensures
        spent(run(s, es.take(j)), token),
    decreases j - k,
{
    if k < j {
        lemma_ops_ok_prefix(s, es, k);
        lemma_run_wf(s, es.take(k));
        lemma_ops_ok_at(s, es, k);
        lemma_apply_spent(run(s, es.take(k)), es[k], token);
        lemma_run_step(s, es, k);
        lemma_spent_from(s, es, k + 1, j, token);
    }
}

/// A dispatch that emits an outcome found its token live, and leaves it
/// spent: the table entry is removed before the outcome becomes visible.
proof fn lemma_fire_spends(s: ModelState, token: u64, flags: EventFlags, io: SocketIo)
    requires
        model_wf(s),
        ready_model(s, token, flags, io).1.outcome is Some,
    ensures
        s.table.contains_key(token),
        spent(ready_model(s, token, flags, io).0, token),
{
}

/// A spent token is silent: no step can fire the callback for it while it
/// stays spent.
proof fn lemma_spent_never_fires(s: ModelState, es: Seq<ReactorOp>, j: int, token: u64)
    requires
        model_wf(s),
        ops_ok(s, es),
        0 <= j < es.len(),
        spent(run(s, es.take(j)), token),
    ensures
        !fires_for(s, es, j, token),
{
    if fires_for(s, es, j, token) {
        match es[j] {
            ReactorOp::Delivered { token: t1, flags, io } => {
                lemma_ops_ok_prefix(s, es, j);
                lemma_run_wf(s, es.take(j));
                lemma_fire_spends(run(s, es.take(j)), t1, flags, io);
                assert(false);
            },
            ReactorOp::Started { .. } => {
                assert(false);
            },
            ReactorOp::Terminated { .. } => {
                assert(false);
            },
        }
    }
}

/// LAW. The completion callback fires at most once per token: over any
/// well-formed run of the reactor, once some step hands the callback an
/// outcome for a token, no later step ever does so again for that token.
pub proof fn lemma_completion_fires_at_most_once(
    s: ModelState,
    es: Seq<ReactorOp>,
    i: int,
    j: int,
    token: u64,
)
    requires
        model_wf(s),
        ops_ok(s, es),
        0 <= i < j < es.len(),
        fires_for(s, es, i, token),
    ensures
        !fires_for(s, es, j, token),
{
    lemma_ops_ok_prefix(s, es, i);
    lemma_run_wf(s, es.take(i));
    match es[i] {
        ReactorOp::Delivered { token: t0, flags, io } => {
            lemma_fire_spends(run(s, es.take(i)), t0, flags, io);
            lemma_run_step(s, es, i);
            lemma_spent_from(s, es, i + 1, j, token);
            lemma_spent_never_fires(s, es, j, token);
        },
        ReactorOp::Started { .. } => {
            assert(false);
        },
        ReactorOp::Terminated { .. } => {
            assert(false);
        },
    }
}

/// LAW. The completion callback never fires for a token after `terminate`
/// was called on it: from the termination step on, every later step of the
/// run is silent for that token.
pub proof fn lemma_no_completion_after_terminate(
    s: ModelState,
    es: Seq<ReactorOp>,
    i: int,
    j: int,
    token: u64,
)
    requires
        model_wf(s),
        ops_ok(s, es),
        0 <= i < j < es.len(),
        es[i] == (ReactorOp::Terminated { token }),
        token < run(s, es.take(i)).next_token,
    ensures
        !fires_for(s, es, j, token),
{
    lemma_ops_ok_prefix(s, es, i);
    lemma_run_wf(s, es.take(i));
    lemma_run_step(s, es, i);
    lemma_spent_from(s, es, i + 1, j, token);
    lemma_spent_never_fires(s, es, j, token);
}

/// LAW. `start` registers at most one token and one reactor entry: on
/// success exactly one fresh table entry and one fresh registration appear,
/// both under the returned token; on a construction failure the error is
/// the synchronous result and neither table changes at all.
pub proof fn lemma_start_registers_at_most_one(
    s: ModelState,
    connected: Option<SocketHandle>,
    register_accepted: bool,
    peer: PeerAddr,
    our_pk: PublicKey,
    name_hash: u64,
)
    requires
        model_wf(s),
        connected is Some ==> s.next_token < u64::MAX,
    ensures
        ({
            let (s2, r) = start_model(s, connected, register_accepted, peer, our_pk, name_hash);
            &&& r is Ok ==> {
                &&& r.unwrap() == s.next_token
                &&& !s.table.contains_key(r.unwrap())
                &&& !s.registered.contains_key(r.unwrap())
                &&& s2.table == s.table.insert(
                    r.unwrap(),
                    initial_attempt(r.unwrap(), peer, connected.unwrap(), our_pk, name_hash),
                )
                &&& s2.table.dom() =~= s.table.dom().insert(r.unwrap())
                &&& s2.registered.dom() =~= s.registered.dom().insert(r.unwrap())
            }
            &&& r is Err ==> {
                &&& s2.table == s.table
                &&& s2.registered == s.registered
            }
        }),
{
}

/// LAW. A delivered event carrying both the writable and the readable flag,
/// with a request still pending, submits the write first and only then
/// attempts the read, both within that single dispatch: the operation trace
/// is the queued write followed, exactly when the write was accepted, by
/// the read.
pub proof fn lemma_write_submitted_before_read(
    s: ModelState,
    token: u64,
    flags: EventFlags,
    io: SocketIo,
)
    requires
        model_wf(s),
        s.table.contains_key(token),
        s.table[token].request is Some,
        flags.writable,
        flags.readable,
        !flags.error,
        !flags.hup,
    ensures
        ({
            let d = ready_model(s, token, flags, io).1;
            let qw = SocketOp::QueueWrite {
                message: s.table[token].request.unwrap().0,
                priority: s.table[token].request.unwrap().1,
            };
            &&& d.ops.len() >= 1
            &&& d.ops[0] == qw
            &&& io.write_accepted ==> d.ops =~= seq![qw, SocketOp::TryRead]
            &&& !io.write_accepted ==> d.ops =~= seq![qw]
        }),
{
}

} // verus!
