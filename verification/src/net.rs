//! Plain-value models of the network and cryptographic collaborators.
//!
//! The transport layer, the rendezvous subsystem and the cryptographic
//! provider are external collaborators: this module only fixes the shape
//! of the values the connection logic reads of them — an address as
//! bytes and a port, a key as its byte encoding, an established stream
//! by the peer it reaches.

use vstd::prelude::*;

verus! {

/// A protocol-aware network address a peer can be dialed on:
/// an address and a port.
#[derive(Clone, Copy, Debug, PartialEq, Eq)]
pub struct PaAddr {
    pub ip: [u8; 4],
    pub port: u16,
}

/// The public half of a peer's encryption key pair, by its byte
/// encoding. It doubles as the peer's identity.
#[derive(Clone, Copy, Debug, PartialEq, Eq)]
pub struct PublicEncryptKey {
    pub bytes: [u8; 32],
}

/// The secret half of a peer's encryption key pair. Deliberately
/// neither `Clone` nor `Copy`: the secret is exclusively owned and is
/// never duplicated into a shareable structure.
#[derive(Debug)]
pub struct SecretEncryptKey {
    pub bytes: [u8; 32],
}

/// An established transport stream, named by the peer address it
/// reaches. The transport mechanics themselves are external.
#[derive(Clone, Copy, Debug, PartialEq, Eq)]
pub struct PaStream {
    pub peer_addr: PaAddr,
}

/// Failure of a rendezvous-assisted connection attempt. During
/// preparation such a failure silently degrades the descriptor to one
/// without rendezvous data; during the connection race it only removes
/// rendezvous as a candidate strategy.
#[derive(Clone, Copy, Debug, PartialEq, Eq)]
pub struct RendezvousConnectError;

} // verus!
