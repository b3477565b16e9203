//! The two logical handshake messages and the identity material they carry.

use vstd::prelude::*;

verus! {

/// The priority at which the bootstrap request is queued: the lowest one.
pub const REQUEST_PRIORITY: u8 = 0;

/// A 32-byte public key, as carried in the handshake messages.
#[derive(Clone, Copy, Debug, PartialEq, Eq)]
pub struct PublicKey {
    pub bytes: [u8; 32],
}

/// The remote party's identity: derived from the public key it presented in
/// its bootstrap response.
#[derive(Clone, Copy, Debug, PartialEq, Eq)]
pub struct PeerId {
    pub key: PublicKey,
}

/// One of the two messages exchanged during the handshake. Byte-level framing
/// and encryption belong to the transport collaborator; only the decoded
/// shape matters here.
#[derive(Clone, Copy, Debug, PartialEq, Eq)]
pub enum HandshakeMessage {
    /// Sent once by this side: our public key and the hash of the network
    /// name we expect the peer to share.
    Request { public_key: PublicKey, name_hash: u64 },
    /// Expected once from the remote side: the peer's public key.
    Response { public_key: PublicKey },
}

} // verus!
