//! The vocabulary of lifecycle events.
//!
//! Every state change, success and failure the application can observe
//! is expressed through exactly one [`Event`]. Errors scoped to one
//! connection or one message surface as their event and never abort
//! unrelated negotiations.

use vstd::prelude::*;

use crate::connection_info::PrivConnectionInfo;
use crate::net::PaAddr;

verus! {

/// Role tag attached to inbound connections and message deliveries, so
/// the application can apply differentiated policy.
#[derive(Clone, Copy, Debug, PartialEq, Eq, Structural)]
pub enum CrustUser {
    /// Full network participant.
    Node,
    /// Lightweight peer.
    Client,
}

/// Failure while preparing contact info: gathering direct addresses or
/// generating the key pair went wrong. A rendezvous setup failure is
/// not such an error — it silently degrades the descriptor instead.
#[derive(Clone, Copy, Debug, PartialEq, Eq, Structural)]
pub enum PrepareError {
    /// The peer's directly dialable addresses could not be gathered.
    GatherAddresses,
    /// A fresh key pair could not be generated.
    GenerateKeys,
}

/// Outcome of a connection-preparation request, correlated by the
/// identifier of the peer that asked for it.
#[derive(Debug)]
pub struct ConnectionInfoResult<UID> {
    /// The identifier the request was made under.
    pub uid: UID,
    /// A usable private descriptor, or the preparation error.
    pub result: Result<PrivConnectionInfo, PrepareError>,
}

/// Enum representing different events that will be sent over the
/// asynchronous channel to the user of this module.
#[derive(Debug)]
pub enum Event<UID> {
    /// Invoked when a bootstrap peer connects to us.
    BootstrapAccept(UID, CrustUser),
    /// Invoked when we bootstrap to a new peer.
    BootstrapConnect(UID, PaAddr),
    /// Invoked when we failed to connect to all bootstrap contacts.
    BootstrapFailed,
    /// Invoked when we are ready to listen for incoming connections.
    /// Contains the listening port.
    ListenerStarted(u16),
    /// Invoked when the listener failed to start.
    ListenerFailed,
    /// Invoked as the completion notice of a contact-info preparation
    /// request.
    ConnectionInfoPrepared(ConnectionInfoResult<UID>),
    /// Invoked when connection to a new peer has been established.
    ConnectSuccess(UID),
    /// Invoked when connection to a new peer has failed.
    ConnectFailure(UID),
    /// Invoked when a peer disconnects or can no longer be contacted.
    LostPeer(UID),
    /// Invoked when a new message is received. Passes the message.
    NewMessage(UID, CrustUser, Vec<u8>),
    /// Invoked when trying to send too large data.
    WriteMsgSizeProhibitive(UID, Vec<u8>),
}

/// Applies the configured maximum payload size to an outgoing message.
///
/// A message within the limit is returned unchanged for the transport
/// layer to deliver. A message over the limit is dropped — not queued,
/// not retried, never delivered to the peer — and exactly one
/// [`Event::WriteMsgSizeProhibitive`] carrying the untouched bytes is
/// produced locally in its place. Connection state is unaffected either
/// way.
pub fn check_outgoing_msg<UID: Copy>(uid: UID, msg: Vec<u8>, max_msg_size: usize) -> (r: Result<
    Vec<u8>,
    Event<UID>,
>)
    ensures
        msg@.len() <= max_msg_size <==> r is Ok,
        r matches Ok(m) ==> m@ == msg@,
        r matches Err(ev) ==> ev matches Event::WriteMsgSizeProhibitive(u, m) && u == uid
            && m@ == msg@,
{
    if msg.len() <= max_msg_size {
        Ok(msg)
    } else {
        Err(Event::WriteMsgSizeProhibitive(uid, msg))
    }
}

} // verus!
