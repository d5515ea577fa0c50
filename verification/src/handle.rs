//! The caller's end of a connection: it turns requests into commands for the
//! protocol driver and judges the events that the inbound reader publishes.

use crate::error::{Error, RecvError};
use crate::message::{
    BitcoinMessage, GetAddr, RawNetworkMessage, Version, VersionView, PROTOCOL_VERSION,
};
use crate::network::{Address, Network, SocketAddress};
use rand::Rng;
use vstd::prelude::*;

verus! {

/// Capacity of the command queue and of the event stream: how many items
/// each holds before a sender waits or a slow subscriber loses events.
pub const CHANNEL_SIZE: usize = 10;

/// Height of the best chain that this endpoint announces. It tracks no chain.
pub const START_HEIGHT: i32 = 0;

/// Name that this endpoint announces as its software.
pub const USER_AGENT: &'static str = "bitcoin-handshake";

/// Services that this endpoint announces: none.
pub const SERVICES: u64 = 0;

/// A command from the caller to the protocol driver.
#[derive(Clone, Debug, PartialEq, Eq)]
pub enum ToConnectionHandle {
    /// Send this message to the peer as it is.
    ToBitcoinNode(RawNetworkMessage),
    /// Open the handshake by announcing this version to the peer.
    InitHandshake { version: Version },
}

/// An event from the connection to its subscribers.
#[derive(Clone, Debug, PartialEq, Eq)]
pub enum FromConnectionHandle {
    /// The peer sent this message. The magic number of its frame is dropped:
    /// it belongs to the transport.
    FromBitcoinNode(BitcoinMessage),
}

/// What a subscriber gets when it asks the event stream for the next event.
pub type Delivery = Result<FromConnectionHandle, RecvError>;

/// Whether `version` is the announcement that this endpoint makes to the
/// peer at `peer_address` when it advertises `sender_address`, built at
/// `timestamp` with `nonce`.
pub open spec fn announces(
    version: VersionView,
    peer_address: SocketAddress,
    sender_address: SocketAddress,
    timestamp: i64,
    nonce: u64,
) -> bool {
    &&& version.version == PROTOCOL_VERSION
    &&& version.services == SERVICES
    &&& version.timestamp == timestamp
    &&& version.receiver.services == SERVICES
    &&& version.receiver.address@ == peer_address.spec_segments()
    &&& version.receiver.port == peer_address.spec_port()
    &&& version.sender.services == SERVICES
    &&& version.sender.address@ == sender_address.spec_segments()
    &&& version.sender.port == sender_address.spec_port()
    &&& version.nonce == nonce
    &&& version.user_agent == USER_AGENT@
    &&& version.start_height == START_HEIGHT
    &&& !version.relay
}

/// What the first event after the opening of the handshake amounts to: the
/// peer's version, or the error that ends the handshake.
pub open spec fn expect_version(delivery: Delivery) -> Result<Version, Error> {
    match delivery {
        Err(_) => Err(Error::ActorUnavailable),
        Ok(FromConnectionHandle::FromBitcoinNode(BitcoinMessage::Version(version))) => Ok(
            version,
        ),
        Ok(event) => Err(Error::UnexpectedConnectionMessage(Box::new(event))),
    }
}

/// What the event after the peer's version amounts to: the acknowledgement,
/// or the error that ends the handshake.
pub open spec fn expect_verack(delivery: Delivery) -> Result<(), Error> {
    match delivery {
        Err(_) => Err(Error::ActorUnavailable),
        Ok(FromConnectionHandle::FromBitcoinNode(BitcoinMessage::Verack(_))) => Ok(()),
        Ok(event) => Err(Error::UnexpectedConnectionMessage(Box::new(event))),
    }
}

/// What a handshake amounts to when the two events after its opening are
/// `first` and `second`, in this order. The second is not looked at when
/// the first ends the handshake. The handshake is strict: a message that
/// would be welcome at another time ends it as any other does when it comes
/// in one of these two places.
pub open spec fn handshake_outcome(first: Delivery, second: Delivery) -> Result<(), Error> {
    match expect_version(first) {
        Ok(_) => expect_verack(second),
        Err(error) => Err(error),
    }
}

/// Reads the clock with `chrono::Utc::now` and hands back its `timestamp`:
/// seconds since the Unix epoch. Nothing is claimed of the value. The call
/// does not return on a machine whose clock stands before the Unix epoch.
#[verifier::external_body]
fn unix_timestamp() -> (seconds: i64) {
    chrono::Utc::now().timestamp()
}

/// Draws a number with `Rng::gen` from `rand::thread_rng`. Nothing is
/// claimed of the value. The call does not return on a machine whose
/// operating system gives the generator no seed.
#[verifier::external_body]
fn random_nonce() -> (nonce: u64) {
    rand::thread_rng().gen()
}

/// The version announcement for a connection to `peer_address` that
/// advertises `sender_address`, built at `timestamp` with `nonce`.
pub fn build_version_message_with(
    peer_address: &SocketAddress,
    sender_address: &SocketAddress,
    timestamp: i64,
    nonce: u64,
) -> (version: Version)
    ensures
        announces(version@, *peer_address, *sender_address, timestamp, nonce),
{
    let sender = Address::new(sender_address, SERVICES);
    let receiver = Address::new(peer_address, SERVICES);
    let user_agent = USER_AGENT.to_owned();
    Version::new(SERVICES, timestamp, receiver, sender, nonce, user_agent, START_HEIGHT)
}

/// The version announcement for a connection to `peer_address` that
/// advertises `sender_address`, with the current time and a fresh random
/// nonce.
pub fn build_version_message(
    peer_address: &SocketAddress,
    sender_address: &SocketAddress,
) -> (version: Version)
    ensures
        announces(version@, *peer_address, *sender_address, version.timestamp, version.nonce),
{
    let timestamp = unix_timestamp();
    let nonce = random_nonce();
    build_version_message_with(peer_address, sender_address, timestamp, nonce)
}

/// The caller's end of one connection. It knows the identity of the
/// connection, which never changes: the peer, the address advertised to the
/// peer, and the network.
#[derive(Debug)]
pub struct ConnectionHandle {
    network: Network,
    peer_address: SocketAddress,
    sender_address: SocketAddress,
}

impl ConnectionHandle {
    /// The network of the connection.
    pub closed spec fn spec_network(&self) -> Network {
        self.network
    }

    /// The address of the peer.
    pub closed spec fn spec_peer_address(&self) -> SocketAddress {
        self.peer_address
    }

    /// The address advertised to the peer.
    pub closed spec fn spec_sender_address(&self) -> SocketAddress {
        self.sender_address
    }

    /// The handle of a connection with the given identity.
    pub fn new(
        peer_address: SocketAddress,
        sender_address: SocketAddress,
        network: Network,
    ) -> (handle: ConnectionHandle)
        ensures
            handle.peer_address() == peer_address,
            handle.sender_address() == sender_address,
            handle.network() == network,
    {
        ConnectionHandle { network, peer_address, sender_address }
    }

    /// The network of the connection.
    #[verifier::when_used_as_spec(spec_network)]
    pub fn network(&self) -> (network: Network)
        ensures
            network == self.spec_network(),
    {
        self.network
    }

    /// The address of the peer.
    #[verifier::when_used_as_spec(spec_peer_address)]
    pub fn peer_address(&self) -> (address: SocketAddress)
        ensures
            address == self.spec_peer_address(),
    {
        self.peer_address
    }

    /// The address advertised to the peer.
    #[verifier::when_used_as_spec(spec_sender_address)]
    pub fn sender_address(&self) -> (address: SocketAddress)
        ensures
            address == self.spec_sender_address(),
    {
        self.sender_address
    }

    /// The command that has the driver send `message` to the peer, framed
    /// for the network of the connection.
    pub fn send_to_node(&self, message: BitcoinMessage) -> (command: ToConnectionHandle)
        ensures
            command == ToConnectionHandle::ToBitcoinNode(
                RawNetworkMessage { magic: self.network().magic(), payload: message },
            ),
    {
        let message = RawNetworkMessage { magic: self.network.magic(), payload: message };
        ToConnectionHandle::ToBitcoinNode(message)
    }

    /// What the attempt to put a command into the queue amounts to: the
    /// queue took it, or it is closed.
    pub fn enqueued(accepted: bool) -> (outcome: Result<(), Error>)
        ensures
            outcome == if accepted {
                Ok::<(), Error>(())
            } else {
                Err(Error::ActorSendError)
            },
    {
        if accepted {
            Ok(())
        } else {
            Err(Error::ActorSendError)
        }
    }

    /// What a delivery of the event stream amounts to for the caller: the
    /// event, or `ActorUnavailable` when the stream is closed or this
    /// subscriber missed events.
    pub fn receive(&self, delivery: Delivery) -> (outcome: Result<FromConnectionHandle, Error>)
        ensures
            outcome == match delivery {
                Ok(event) => Ok::<FromConnectionHandle, Error>(event),
                Err(_) => Err(Error::ActorUnavailable),
            },
    {
        match delivery {
            Ok(event) => Ok(event),
            Err(_) => Err(Error::ActorUnavailable),
        }
    }

    /// The command that asks the peer for addresses of other peers.
    pub fn send_get_addr(&self) -> (command: ToConnectionHandle)
        ensures
            command == ToConnectionHandle::ToBitcoinNode(
                RawNetworkMessage {
                    magic: self.network().magic(),
                    payload: BitcoinMessage::GetAddr(GetAddr),
                },
            ),
    {
        self.send_to_node(BitcoinMessage::GetAddr(GetAddr))
    }

    /// The command that opens the handshake: it has the driver announce this
    /// endpoint's version, built now. The two events that follow are to be
    /// judged by [`Self::receive_version`] and [`Self::receive_verack`], in
    /// that order.
    pub fn init_handshake(&self) -> (command: ToConnectionHandle)
        ensures
            command matches ToConnectionHandle::InitHandshake { version } && announces(
                version@,
                self.peer_address(),
                self.sender_address(),
                version.timestamp,
                version.nonce,
            ),
    {
        let version = build_version_message(&self.peer_address, &self.sender_address);
        ToConnectionHandle::InitHandshake { version }
    }

    /// Judges the first event after the opening of the handshake: it has to
    /// be the peer's version.
    pub fn receive_version(&self, delivery: Delivery) -> (outcome: Result<Version, Error>)
        ensures
            outcome == expect_version(delivery),
    {
        let event = self.receive(delivery)?;
        match event {
            FromConnectionHandle::FromBitcoinNode(BitcoinMessage::Version(version)) => Ok(version),
            event => Err(Error::UnexpectedConnectionMessage(Box::new(event))),
        }
    }

    /// Judges the event after the peer's version: it has to be the
    /// acknowledgement.
    pub fn receive_verack(&self, delivery: Delivery) -> (outcome: Result<(), Error>)
        ensures
            outcome == expect_verack(delivery),
    {
        let event = self.receive(delivery)?;
        match event {
            FromConnectionHandle::FromBitcoinNode(BitcoinMessage::Verack(_)) => Ok(()),
            event => Err(Error::UnexpectedConnectionMessage(Box::new(event))),
        }
    }
}

} // verus!
