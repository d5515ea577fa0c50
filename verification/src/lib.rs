//! Sans-I/O core of a Bitcoin peer-to-peer connection endpoint.
//!
//! The crate holds the decisions of one connection and leaves sockets,
//! channels and tasks to the program that embeds it.
//!
//! A caller holds a [`BitcoinConnection`], whose type says how far the
//! handshake has come: only a connection in phase [`Connected`] hands out
//! commands that forward a message to the peer. The embedding program runs
//! three parts for each connection and carries values between them:
//!
//! - the [`IncomingReceiver`] takes what was decoded from the peer's byte
//!   stream and says which events to publish;
//! - the [`ProtocolDriver`] takes the caller's commands and the published
//!   events and says which bytes to write to the peer;
//! - the [`ConnectionActor`] takes the end of either of the two, or of the
//!   caller's interest in the connection, and says how to tear the
//!   connection down.
//!
//! Frames are encoded by the `bitcoin` crate, see [`codec`].

pub mod actor;
pub mod codec;
pub mod connection;
pub mod error;
pub mod handle;
pub mod incoming_receiver;
pub mod message;
pub mod network;
pub mod protocol_driver;
pub mod settings;

pub use actor::{ConnectionActor, SupervisorAction, SupervisorEvent, Task};
pub use connection::{
    BitcoinConnection, BitcoinConnector, Connected, PreHandshake, VersionReceived, VersionSent,
};
pub use error::{DecodeFailure, Error, RecvError};
pub use handle::{ConnectionHandle, Delivery, FromConnectionHandle, ToConnectionHandle};
pub use incoming_receiver::{Decoded, IncomingReceiver};
pub use message::{
    BitcoinMessage, GetAddr, OtherMessage, RawNetworkMessage, Verack, Version,
};
pub use network::{Address, Network, SocketAddress};
pub use protocol_driver::{DriverInput, ProtocolDriver};
pub use settings::Settings;
