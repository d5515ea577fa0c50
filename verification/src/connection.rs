//! A connection whose type says how far its handshake has come, so that
//! nothing can be sent to the peer before the handshake is complete.

use crate::error::Error;
use crate::handle::{
    announces, expect_verack, expect_version, handshake_outcome, ConnectionHandle, Delivery,
    FromConnectionHandle, ToConnectionHandle,
};
use crate::message::{BitcoinMessage, GetAddr, RawNetworkMessage, Verack, Version};
use crate::settings::Settings;
use std::marker::PhantomData;
use vstd::prelude::*;

verus! {

/// Phase of a connection on which no handshake has begun.
#[derive(Copy, Clone, Debug, PartialEq, Eq, Hash)]
pub struct PreHandshake;

/// Phase of a connection that has announced its version and awaits the
/// peer's.
#[derive(Copy, Clone, Debug, PartialEq, Eq, Hash)]
pub struct VersionSent;

/// Phase of a connection that has the peer's version and awaits its
/// acknowledgement.
#[derive(Copy, Clone, Debug, PartialEq, Eq, Hash)]
pub struct VersionReceived;

/// Phase of a connection whose handshake is complete.
#[derive(Copy, Clone, Debug, PartialEq, Eq, Hash)]
pub struct Connected;

/// Makes connections from settings.
#[derive(Copy, Clone, Debug, PartialEq, Eq, Hash)]
pub struct BitcoinConnector {
    settings: Settings,
}

impl BitcoinConnector {
    /// The settings that connections are made from.
    pub closed spec fn spec_settings(&self) -> Settings {
        self.settings
    }

    /// A connector for `settings`.
    pub fn new(settings: Settings) -> (connector: BitcoinConnector)
        ensures
            connector.spec_settings() == settings,
    {
        BitcoinConnector { settings }
    }

    /// A connection to the peer of the settings, before its handshake.
    pub fn connect(self) -> (connection: BitcoinConnection<PreHandshake>)
        ensures
            connection@ == self.spec_settings(),
    {
        let peer_address = self.settings.peer_address();
        let sender_address = self.settings.sender_address();
        let peer_network = self.settings.peer_network();
        let connection_handle = ConnectionHandle::new(peer_address, sender_address, peer_network);
        BitcoinConnection::at_phase(self.settings, connection_handle)
    }
}

/// A connection in phase `T`. The phases follow one another in one
/// direction only, and each step consumes the connection that it starts
/// from: `PreHandshake`, `VersionSent`, `VersionReceived`, `Connected`.
#[derive(Debug)]
pub struct BitcoinConnection<T> {
    settings: Settings,
    connection: ConnectionHandle,
    _type: PhantomData<T>,
}

impl<T> View for BitcoinConnection<T> {
    type V = Settings;

    /// The settings that the connection was made from.
    closed spec fn view(&self) -> Settings {
        self.settings
    }
}

impl<T> BitcoinConnection<T> {
    #[verifier::type_invariant]
    spec fn well_formed(self) -> bool {
        &&& self.connection.peer_address() == self.settings.peer_address()
        &&& self.connection.sender_address() == self.settings.sender_address()
        &&& self.connection.network() == self.settings.peer_network()
    }

    fn at_phase(settings: Settings, connection: ConnectionHandle) -> (next: BitcoinConnection<T>)
        requires
            connection.peer_address() == settings.peer_address(),
            connection.sender_address() == settings.sender_address(),
            connection.network() == settings.peer_network(),
        ensures
            next@ == settings,
    {
        BitcoinConnection { settings, connection, _type: PhantomData }
    }

    /// The settings that the connection was made from.
    pub fn settings(&self) -> (settings: Settings)
        ensures
            settings == self@,
    {
        self.settings
    }
}

impl BitcoinConnection<PreHandshake> {
    /// Opens the handshake. The command has the driver announce this
    /// endpoint's version, built now, to the peer; the connection moves on
    /// to await the peer's version. No other command is issued until the
    /// handshake is complete: the steps that follow only judge events.
    pub fn perform_handshake(self) -> (opened: (BitcoinConnection<VersionSent>, ToConnectionHandle))
        ensures
            opened.0@ == self@,
            opened.1 matches ToConnectionHandle::InitHandshake { version } && announces(
                version@,
                self@.peer_address(),
                self@.sender_address(),
                version.timestamp,
                version.nonce,
            ),
    {
        proof {
            use_type_invariant(&self);
        }
        let command = self.connection.init_handshake();
        (BitcoinConnection::at_phase(self.settings, self.connection), command)
    }
}

impl BitcoinConnection<VersionSent> {
    /// Judges the first event after the opening of the handshake. The
    /// peer's version moves the connection on; anything else ends it with
    /// the error of [`expect_version`].
    pub fn receive_version(
        self,
        delivery: Delivery,
    ) -> (outcome: Result<BitcoinConnection<VersionReceived>, Error>)
        ensures
            match expect_version(delivery) {
                Ok(_) => outcome matches Ok(next) && next@ == self@,
                Err(error) => outcome matches Err(e) && e == error,
            },
    {
        proof {
            use_type_invariant(&self);
        }
        match self.connection.receive_version(delivery) {
            Ok(_) => Ok(BitcoinConnection::at_phase(self.settings, self.connection)),
            Err(error) => Err(error),
        }
    }

    /// Judges the two events after the opening of the handshake, in their
    /// order: [`Self::receive_version`] on the first and, when that moves
    /// the connection on, `receive_verack` on the second. The handshake is
    /// complete when [`handshake_outcome`] is; else it ends with the error
    /// of [`handshake_outcome`].
    pub fn complete_handshake(
        self,
        first: Delivery,
        second: Delivery,
    ) -> (outcome: Result<BitcoinConnection<Connected>, Error>)
        ensures
            match handshake_outcome(first, second) {
                Ok(_) => outcome matches Ok(next) && next@ == self@,
                Err(error) => outcome matches Err(e) && e == error,
            },
    {
        match self.receive_version(first) {
            Ok(connection) => connection.receive_verack(second),
            Err(error) => Err(error),
        }
    }
}

impl BitcoinConnection<VersionReceived> {
    /// Judges the event after the peer's version. The acknowledgement
    /// completes the handshake; anything else ends the connection with the
    /// error of [`expect_verack`].
    pub fn receive_verack(
        self,
        delivery: Delivery,
    ) -> (outcome: Result<BitcoinConnection<Connected>, Error>)
        ensures
            match expect_verack(delivery) {
                Ok(_) => outcome matches Ok(next) && next@ == self@,
                Err(error) => outcome matches Err(e) && e == error,
            },
    {
        proof {
            use_type_invariant(&self);
        }
        match self.connection.receive_verack(delivery) {
            Ok(_) => Ok(BitcoinConnection::at_phase(self.settings, self.connection)),
            Err(error) => Err(error),
        }
    }
}

impl BitcoinConnection<Connected> {
    /// The command that asks the peer for addresses of other peers.
    pub fn send_get_addr(&self) -> (command: ToConnectionHandle)
        ensures
            command == ToConnectionHandle::ToBitcoinNode(
                RawNetworkMessage {
                    magic: self@.peer_network().magic(),
                    payload: BitcoinMessage::GetAddr(GetAddr),
                },
            ),
    {
        proof {
            use_type_invariant(self);
        }
        self.connection.send_get_addr()
    }

    /// What a delivery of the event stream amounts to for the caller: the
    /// event, or `ActorUnavailable` when the stream is closed or this
    /// subscriber missed events.
    pub fn receive(&self, delivery: Delivery) -> (outcome: Result<FromConnectionHandle, Error>)
        ensures
            outcome == match delivery {
                Ok(event) => Ok::<FromConnectionHandle, Error>(event),
                Err(_) => Err(Error::ActorUnavailable),
            },
    {
        self.connection.receive(delivery)
    }
}

/// A peer that answers the opening of the handshake with its version and
/// then its acknowledgement completes it, whatever the version says.
pub proof fn lemma_version_then_verack_completes_handshake(version: Version)
    ensures
        handshake_outcome(
            Ok(FromConnectionHandle::FromBitcoinNode(BitcoinMessage::Version(version))),
            Ok(FromConnectionHandle::FromBitcoinNode(BitcoinMessage::Verack(Verack))),
        ) == Ok::<(), Error>(()),
{
}

/// A first message that is no version ends the handshake with
/// `UnexpectedConnectionMessage`, which carries the event of that message,
/// whatever comes after it.
pub proof fn lemma_other_first_message_fails_handshake(message: BitcoinMessage, second: Delivery)
    requires
        !(message is Version),
    ensures
        handshake_outcome(Ok(FromConnectionHandle::FromBitcoinNode(message)), second) == Err::<
            (),
            Error,
        >(
            Error::UnexpectedConnectionMessage(
                Box::new(FromConnectionHandle::FromBitcoinNode(message)),
            ),
        ),
{
}

/// After the peer's version, a message that is no acknowledgement ends the
/// handshake with `UnexpectedConnectionMessage`, which carries the event of
/// that message.
pub proof fn lemma_other_second_message_fails_handshake(version: Version, message: BitcoinMessage)
    requires
        !(message is Verack),
    ensures
        handshake_outcome(
            Ok(FromConnectionHandle::FromBitcoinNode(BitcoinMessage::Version(version))),
            Ok(FromConnectionHandle::FromBitcoinNode(message)),
        ) == Err::<(), Error>(
            Error::UnexpectedConnectionMessage(
                Box::new(FromConnectionHandle::FromBitcoinNode(message)),
            ),
        ),
{
}

/// A handshake whose event stream closes, or drops events of a slow
/// subscriber, in either of the two places ends with `ActorUnavailable`,
/// unless an unexpected first message has ended it before.
pub proof fn lemma_dead_stream_fails_handshake(first: Delivery, second: Delivery)
    requires
        first is Err || (expect_version(first) is Ok && second is Err),
    ensures
        handshake_outcome(first, second) == Err::<(), Error>(Error::ActorUnavailable),
{
}

} // verus!
