//! A verified core for a single outbound peer-bootstrap handshake, driven by
//! a single-threaded reactor.
//!
//! One `TryPeer` attempt per target address: it queues a bootstrap request on
//! the first writable readiness event, reads the bootstrap response on
//! readable events, and produces exactly one terminal outcome — `Success`
//! (handing the socket and the peer's identity out) or `Failure` — unless the
//! owner terminates it first, in which case no outcome is produced at all.
//!
//! The reactor's token table, the interest registrations, and the attempt's
//! state machine live here as verified code. The non-blocking socket and the
//! OS readiness poll stay outside: their answers (connect result, registration
//! acceptance, write acceptance, read outcome) enter each operation as plain
//! values, and the contracts state what the reactor does for every answer.

pub mod attempt;
pub mod laws;
pub mod message;
pub mod model;
pub mod reactor;
pub mod transport;
