use try_peer::attempt::{Outcome, StartError, TryPeer};
use try_peer::message::{HandshakeMessage, PeerId, PublicKey, REQUEST_PRIORITY};
use try_peer::reactor::Reactor;
use try_peer::transport::{EventFlags, PeerAddr, ReadOutcome, SocketHandle, SocketIo, SocketOp};

fn addr() -> PeerAddr {
    PeerAddr { ip: 0x7f00_0001, port: 5000 }
}

fn key(b: u8) -> PublicKey {
    PublicKey { bytes: [b; 32] }
}

fn sock(id: u64) -> SocketHandle {
    SocketHandle { id }
}

fn flags(error: bool, hup: bool, writable: bool, readable: bool) -> EventFlags {
    EventFlags { error, hup, writable, readable }
}

fn io(write_accepted: bool, read: ReadOutcome) -> SocketIo {
    SocketIo { write_accepted, read }
}

fn started(r: &mut Reactor) -> u64 {
    TryPeer::start(r, Some(sock(1)), true, addr(), key(7), 99).unwrap()
}

fn request_op() -> SocketOp {
    SocketOp::QueueWrite {
        message: HandshakeMessage::Request { public_key: key(7), name_hash: 99 },
        priority: REQUEST_PRIORITY,
    }
}

#[test]
fn start_success_registers_exactly_one_entry() {
    let mut r = Reactor::new();
    let token = TryPeer::start(&mut r, Some(sock(1)), true, addr(), key(7), 99).unwrap();
    assert_eq!(token, 0);
    assert_eq!(r.live_count(), 1);
    assert!(r.is_live(token));
    assert!(r.is_registered(token));
    let reg = *r.registered.get(&token).unwrap();
    assert!(reg.interest.error);
    assert!(reg.interest.hup);
    assert!(reg.interest.writable);
    assert!(!reg.interest.readable);
    assert!(reg.edge);
}

#[test]
fn start_connect_failure_registers_nothing() {
    let mut r = Reactor::new();
    let result = TryPeer::start(&mut r, None, true, addr(), key(7), 99);
    assert_eq!(result, Err(StartError::ConnectFailed));
    assert_eq!(r.live_count(), 0);
    assert!(!r.is_registered(0));
}

#[test]
fn start_register_refusal_registers_nothing() {
    let mut r = Reactor::new();
    let result = TryPeer::start(&mut r, Some(sock(1)), false, addr(), key(7), 99);
    assert_eq!(result, Err(StartError::RegisterFailed));
    assert_eq!(r.live_count(), 0);
    assert!(!r.is_live(0));
    assert!(!r.is_registered(0));
}

#[test]
fn tokens_are_unique_per_attempt() {
    let mut r = Reactor::new();
    let t1 = TryPeer::start(&mut r, Some(sock(1)), true, addr(), key(7), 99).unwrap();
    let t2 = TryPeer::start(&mut r, Some(sock(2)), true, addr(), key(8), 99).unwrap();
    assert_ne!(t1, t2);
    assert_eq!((t1, t2), (0, 1));
    // a token burnt by a refused registration is never reused either
    let _ = TryPeer::start(&mut r, Some(sock(3)), false, addr(), key(9), 99);
    let t3 = TryPeer::start(&mut r, Some(sock(4)), true, addr(), key(9), 99).unwrap();
    assert_eq!(t3, 3);
}

#[test]
fn combined_event_writes_before_reading() {
    let mut r = Reactor::new();
    let token = started(&mut r);
    let d = r.ready(token, flags(false, false, true, true), io(true, ReadOutcome::NoFrame));
    assert_eq!(d.ops, vec![request_op(), SocketOp::TryRead]);
    assert_eq!(d.outcome, None);
    assert!(r.is_live(token));
}

#[test]
fn combined_event_with_response_completes() {
    let mut r = Reactor::new();
    let token = started(&mut r);
    let remote = key(3);
    let d = r.ready(
        token,
        flags(false, false, true, true),
        io(true, ReadOutcome::Frame(HandshakeMessage::Response { public_key: remote })),
    );
    assert_eq!(d.ops, vec![request_op(), SocketOp::TryRead]);
    assert_eq!(
        d.outcome,
        Some(Outcome::Success { socket: sock(1), peer: addr(), identity: PeerId { key: remote } })
    );
    assert_eq!(d.released, None);
    assert!(!r.is_live(token));
    // exactly once: a later event for the same token is silent
    let d2 = r.ready(
        token,
        flags(false, false, true, true),
        io(true, ReadOutcome::Frame(HandshakeMessage::Response { public_key: remote })),
    );
    assert_eq!(d2.outcome, None);
    assert!(d2.ops.is_empty());
}

#[test]
fn error_flags_fail_without_writing() {
    let mut r = Reactor::new();
    let token = started(&mut r);
    let d = r.ready(token, flags(true, false, true, true), io(true, ReadOutcome::NoFrame));
    assert!(d.ops.is_empty());
    assert_eq!(d.outcome, Some(Outcome::Failure { peer: addr() }));
    assert_eq!(d.released, Some(sock(1)));
    assert!(!r.is_live(token));
    assert!(!r.is_registered(token));
}

#[test]
fn hangup_flags_fail_without_writing() {
    let mut r = Reactor::new();
    let token = started(&mut r);
    let d = r.ready(token, flags(false, true, true, false), io(true, ReadOutcome::NoFrame));
    assert!(d.ops.is_empty());
    assert_eq!(d.outcome, Some(Outcome::Failure { peer: addr() }));
    assert_eq!(d.released, Some(sock(1)));
    assert!(!r.is_registered(token));
}

#[test]
fn incomplete_frame_changes_nothing() {
    let mut r = Reactor::new();
    let token = started(&mut r);
    let d = r.ready(token, flags(false, false, false, true), io(true, ReadOutcome::NoFrame));
    assert_eq!(d.ops, vec![SocketOp::TryRead]);
    assert_eq!(d.outcome, None);
    assert_eq!(d.released, None);
    assert!(r.is_live(token));
    assert!(r.is_registered(token));
}

#[test]
fn unexpected_request_message_fails() {
    let mut r = Reactor::new();
    let token = started(&mut r);
    let first = r.ready(token, flags(false, false, true, false), io(true, ReadOutcome::NoFrame));
    assert_eq!(first.ops, vec![request_op()]);
    assert_eq!(first.outcome, None);
    let second = r.ready(
        token,
        flags(false, false, false, true),
        io(
            true,
            ReadOutcome::Frame(HandshakeMessage::Request { public_key: key(5), name_hash: 99 }),
        ),
    );
    assert_eq!(second.ops, vec![SocketOp::TryRead]);
    assert_eq!(second.outcome, Some(Outcome::Failure { peer: addr() }));
    assert_eq!(second.released, Some(sock(1)));
    assert!(!r.is_live(token));
    assert!(!r.is_registered(token));
}

#[test]
fn decode_failure_fails() {
    let mut r = Reactor::new();
    let token = started(&mut r);
    let d = r.ready(token, flags(false, false, false, true), io(true, ReadOutcome::DecodeFailed));
    assert_eq!(d.ops, vec![SocketOp::TryRead]);
    assert_eq!(d.outcome, Some(Outcome::Failure { peer: addr() }));
    assert!(!r.is_live(token));
}

#[test]
fn refused_write_fails() {
    let mut r = Reactor::new();
    let token = started(&mut r);
    let d = r.ready(token, flags(false, false, true, true), io(false, ReadOutcome::NoFrame));
    // the submission was attempted, the read no longer was
    assert_eq!(d.ops, vec![request_op()]);
    assert_eq!(d.outcome, Some(Outcome::Failure { peer: addr() }));
    assert_eq!(d.released, Some(sock(1)));
    assert!(!r.is_live(token));
    assert!(!r.is_registered(token));
}

#[test]
fn request_is_sent_at_most_once() {
    let mut r = Reactor::new();
    let token = started(&mut r);
    let first = r.ready(token, flags(false, false, true, false), io(true, ReadOutcome::NoFrame));
    assert_eq!(first.ops, vec![request_op()]);
    // a repeated writable notification finds the slot already cleared
    let second = r.ready(token, flags(false, false, true, false), io(true, ReadOutcome::NoFrame));
    assert!(second.ops.is_empty());
    assert_eq!(second.outcome, None);
    assert!(r.is_live(token));
}

#[test]
fn terminate_before_any_event_yields_no_outcome() {
    let mut r = Reactor::new();
    let token = started(&mut r);
    let released = r.terminate(token);
    assert_eq!(released, Some(sock(1)));
    assert!(!r.is_live(token));
    assert!(!r.is_registered(token));
    // the callback is never invoked for this token afterwards
    let d = r.ready(
        token,
        flags(false, false, true, true),
        io(true, ReadOutcome::Frame(HandshakeMessage::Response { public_key: key(3) })),
    );
    assert_eq!(d.outcome, None);
    assert!(d.ops.is_empty());
    assert_eq!(d.released, None);
}

#[test]
fn terminate_is_idempotent_and_safe_on_unknown_tokens() {
    let mut r = Reactor::new();
    assert_eq!(r.terminate(17), None);
    let token = started(&mut r);
    assert_eq!(r.terminate(token), Some(sock(1)));
    assert_eq!(r.terminate(token), None);
}

#[test]
fn failure_fires_the_callback_only_once() {
    let mut r = Reactor::new();
    let token = started(&mut r);
    let d = r.ready(token, flags(true, true, false, false), io(true, ReadOutcome::NoFrame));
    assert_eq!(d.outcome, Some(Outcome::Failure { peer: addr() }));
    let d2 = r.ready(token, flags(true, true, false, false), io(true, ReadOutcome::NoFrame));
    assert_eq!(d2.outcome, None);
    let d3 = r.ready(
        token,
        flags(false, false, false, true),
        io(true, ReadOutcome::Frame(HandshakeMessage::Response { public_key: key(3) })),
    );
    assert_eq!(d3.outcome, None);
}

#[test]
fn attempts_do_not_disturb_each_other() {
    let mut r = Reactor::new();
    let t1 = TryPeer::start(&mut r, Some(sock(1)), true, addr(), key(7), 99).unwrap();
    let other = PeerAddr { ip: 0x0a00_0002, port: 6000 };
    let t2 = TryPeer::start(&mut r, Some(sock(2)), true, other, key(8), 99).unwrap();
    let d = r.ready(t1, flags(true, false, false, false), io(true, ReadOutcome::NoFrame));
    assert_eq!(d.outcome, Some(Outcome::Failure { peer: addr() }));
    assert!(r.is_live(t2));
    let d2 = r.ready(
        t2,
        flags(false, false, true, true),
        io(true, ReadOutcome::Frame(HandshakeMessage::Response { public_key: key(9) })),
    );
    assert_eq!(
        d2.outcome,
        Some(Outcome::Success { socket: sock(2), peer: other, identity: PeerId { key: key(9) } })
    );
    assert_eq!(r.live_count(), 0);
}
