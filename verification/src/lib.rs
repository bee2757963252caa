//! Core connection-negotiation model of a peer-to-peer network layer:
//! the private/public connection-descriptor pair and the conversion
//! between them, the vocabulary of lifecycle events delivered to the
//! application, the resolution of a connection race between direct
//! dialing and rendezvous negotiation, and the delivery order of the
//! event channel.

pub mod connect;
pub mod connection_info;
pub mod event;
pub mod event_channel;
pub mod net;

pub use connect::ConnectRace;
pub use connection_info::P2pConnectionInfo;
pub use connection_info::PrivConnectionInfo;
pub use connection_info::PubConnectionInfo;
pub use event::ConnectionInfoResult;
pub use event::CrustUser;
pub use event::Event;
pub use event::PrepareError;
pub use event_channel::EventChannel;
pub use net::PaAddr;
pub use net::PaStream;
pub use net::PublicEncryptKey;
pub use net::RendezvousConnectError;
pub use net::SecretEncryptKey;
