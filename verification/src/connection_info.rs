//! The private/public connection-descriptor pair.
//!
//! A peer preparing a connection assembles a [`PrivConnectionInfo`]: its
//! direct addresses, a fresh key pair, and — when rendezvous negotiation
//! could be set up — the ephemeral [`P2pConnectionInfo`]. The private
//! descriptor is turned into a [`PubConnectionInfo`] for exchange with
//! the remote peer; the public form carries no secret key and no channel
//! or future handle, only plain values.

use vstd::prelude::*;

use crate::net::PaAddr;
use crate::net::PaStream;
use crate::net::PublicEncryptKey;
use crate::net::RendezvousConnectError;
use crate::net::SecretEncryptKey;

verus! {

/// Declares `bytes::Bytes`, the shared byte buffer that carries the
/// opaque rendezvous payload. Opaque here: what it holds is named by
/// [`bytes_content`].
#[verifier::external_type_specification]
#[verifier::external_body]
pub struct ExBytes(bytes::Bytes);

/// Declares `future_utils::bi_channel::UnboundedBiChannel`, the
/// bidirectional unbounded channel shared with the rendezvous helper
/// task. The descriptor only stores the handle; no method of it is
/// called here.
#[verifier::external_type_specification]
#[verifier::external_body]
#[verifier::reject_recursive_types(T)]
pub struct ExUnboundedBiChannel<T>(future_utils::bi_channel::UnboundedBiChannel<T>);

/// Declares `futures::sync::oneshot::Receiver`, the single-resolution
/// future that yields the rendezvous connection outcome. The descriptor
/// only stores the handle; no method of it is called here.
#[verifier::external_type_specification]
#[verifier::external_body]
#[verifier::reject_recursive_types(T)]
pub struct ExOneshotReceiver<T>(futures::sync::oneshot::Receiver<T>);

/// The bytes a `bytes::Bytes` buffer holds, as a sequence.
pub uninterp spec fn bytes_content(b: bytes::Bytes) -> Seq<u8>;

/// Relies on `bytes::Bytes`'s slice view (`to_vec` through the deref to
/// `[u8]`): the returned vector holds exactly the bytes of the buffer.
#[verifier::external_body]
fn bytes_to_vec(b: &bytes::Bytes) -> (r: Vec<u8>)
    ensures
        r@ == bytes_content(*b),
{
    b.to_vec()
}

/// Connection information specifically used for rendezvous (NAT-traversal
/// assisted) connections.
#[derive(Debug)]
pub struct P2pConnectionInfo {
    /// Opaque payload produced by the rendezvous subsystem; only that
    /// subsystem can make sense of it.
    pub our_info: bytes::Bytes,
    /// Channel used to exchange further negotiation data with the
    /// rendezvous helper; shared between exactly two cooperating tasks.
    pub rendezvous_channel: future_utils::bi_channel::UnboundedBiChannel<bytes::Bytes>,
    /// Resolves exactly once, to an established stream or to a
    /// rendezvous-connect failure; must be consumed at most once.
    pub connection_rx: futures::sync::oneshot::Receiver<Result<PaStream, RendezvousConnectError>>,
}

/// Contact info generated by a connection-preparation request. Locally
/// owned and never transmitted as-is: it holds the secret key.
#[derive(Debug)]
pub struct PrivConnectionInfo {
    /// Locally generated correlation number for concurrent negotiation
    /// attempts; purely local bookkeeping.
    pub connection_id: u64,
    /// Addresses this peer is directly dialable on, in order.
    pub for_direct: Vec<PaAddr>,
    /// Rendezvous negotiation state; `None` when rendezvous setup was
    /// never attempted or failed before the descriptor was finalized.
    /// Such a failure is never fatal: direct connections still proceed.
    pub p2p_conn_info: Option<P2pConnectionInfo>,
    /// The peer's public identity.
    pub our_uid: PublicEncryptKey,
    /// The peer's public key (the same value as the identity, in its
    /// second role).
    pub our_pk: PublicEncryptKey,
    /// The peer's secret key: exclusively owned, never copied into any
    /// shareable form.
    pub our_sk: SecretEncryptKey,
}

/// Contact info used to connect to another peer: the shareable form of a
/// [`PrivConnectionInfo`]. By construction it holds no secret key and no
/// channel or future handle.
#[derive(Debug, Clone, PartialEq, Eq)]
pub struct PubConnectionInfo {
    /// Copied verbatim from the private descriptor.
    pub connection_id: u64,
    /// Copied verbatim from the private descriptor.
    pub for_direct: Vec<PaAddr>,
    /// The serialized rendezvous payload when the private descriptor had
    /// one, `None` otherwise.
    pub p2p_conn_info: Option<Vec<u8>>,
    /// Copied verbatim from the private descriptor.
    pub pub_key: PublicEncryptKey,
    /// Copied verbatim from the private descriptor.
    pub uid: PublicEncryptKey,
}

/// What it means for a public descriptor to be the one derived from a
/// private descriptor: identity, correlation number and addresses are
/// preserved verbatim, and the rendezvous payload is present exactly
/// when the private descriptor carries rendezvous state, byte for byte.
pub open spec fn pub_derived_from(r: PubConnectionInfo, p: PrivConnectionInfo) -> bool {
    &&& r.connection_id == p.connection_id
    &&& r.for_direct@ == p.for_direct@
    &&& r.uid == p.our_uid
    &&& r.pub_key == p.our_pk
    &&& (p.p2p_conn_info is None ==> r.p2p_conn_info is None)
    &&& (p.p2p_conn_info matches Some(ci) ==> r.p2p_conn_info matches Some(v)
        && v@ == bytes_content(ci.our_info))
}

/// Copies a list of addresses element for element.
fn clone_addrs(v: &Vec<PaAddr>) -> (r: Vec<PaAddr>)
    ensures
        r@ == v@,
{
    let mut r: Vec<PaAddr> = Vec::new();
    let mut i: usize = 0;
    while i < v.len()
        invariant
            i <= v@.len(),
            r@ == v@.subrange(0, i as int),
        decreases v@.len() - i,
    {
        r.push(v[i]);
        proof {
            assert(v@.subrange(0, i + 1 as int) =~= v@.subrange(0, i as int).push(v@[i as int]));
        }
        i = i + 1;
    }
    proof {
        assert(v@.subrange(0, v@.len() as int) =~= v@);
    }
    r
}

impl PubConnectionInfo {
    /// Returns the identity of the node that created this connection
    /// info.
    pub fn id(&self) -> (r: PublicEncryptKey)
        ensures
            r == self.pub_key,
    {
        self.pub_key
    }
}

impl PrivConnectionInfo {
    /// Use private connection info to create public connection info that
    /// can be shared with the peer.
    ///
    /// The conversion is total and never fails; it borrows the private
    /// descriptor, so the secret key, the rendezvous channel and the
    /// connection future stay behind and are never exposed.
    pub fn to_pub_connection_info(&self) -> (r: PubConnectionInfo)
        ensures
            pub_derived_from(r, *self),
            r.connection_id == self.connection_id,
            r.for_direct@ == self.for_direct@,
            r.uid == self.our_uid,
            r.pub_key == self.our_pk,
            self.p2p_conn_info is None ==> r.p2p_conn_info is None,
            self.p2p_conn_info matches Some(ci) ==> r.p2p_conn_info matches Some(v)
                && v@ == bytes_content(ci.our_info),
    {
        let p2p_conn_info = match &self.p2p_conn_info {
            Some(conn_info) => Some(bytes_to_vec(&conn_info.our_info)),
            None => None,
        };
        PubConnectionInfo {
            connection_id: self.connection_id,
            for_direct: clone_addrs(&self.for_direct),
            uid: self.our_uid,
            p2p_conn_info,
            pub_key: self.our_pk,
        }
    }
}

/// Law: the private-to-public conversion is deterministic. Any two
/// public descriptors derived from the same private descriptor agree on
/// every observable field — so invoking the conversion twice on one
/// private descriptor yields structurally equal public descriptors.
pub proof fn lemma_to_pub_deterministic(
    p: PrivConnectionInfo,
    r1: PubConnectionInfo,
    r2: PubConnectionInfo,
)
    requires
        pub_derived_from(r1, p),
        pub_derived_from(r2, p),
    ensures
        r1.connection_id == r2.connection_id,
        r1.for_direct@ == r2.for_direct@,
        r1.uid == r2.uid,
        r1.pub_key == r2.pub_key,
        r1.p2p_conn_info is Some <==> r2.p2p_conn_info is Some,
        r1.p2p_conn_info matches Some(v1) ==> r2.p2p_conn_info matches Some(v2)
            && v1@ == v2@,
{
}

} // verus!
