//! The protocol driver: it owns the writing side of the connection and says
//! which bytes go to the peer for each command of the caller and each
//! message of the peer.

use crate::codec::{encode, wire_frame};
use crate::error::Error;
use crate::handle::{FromConnectionHandle, ToConnectionHandle};
use crate::message::{BitcoinMessage, BitcoinMessageView, RawNetworkMessage, Verack, Version};
use crate::network::Network;
use vstd::prelude::*;

verus! {

/// An item that became ready on one of the driver's two input streams.
/// `None` says that the stream has closed.
#[derive(Clone, Debug, PartialEq, Eq)]
pub enum DriverInput {
    /// The next command of the caller.
    Command(Option<ToConnectionHandle>),
    /// The next event of the inbound reader.
    FromNode(Option<FromConnectionHandle>),
}

/// What the driver writes to the peer in reaction to an input: the bytes of
/// one frame, or nothing.
pub type Outbound = Option<Vec<u8>>;

/// The bytes of a reaction.
pub open spec fn outbound_bytes(outbound: Outbound) -> Option<Seq<u8>> {
    match outbound {
        Some(frame) => Some(frame@),
        None => None,
    }
}

/// The frame that a driver on a network with magic number `magic` writes for
/// a command.
pub open spec fn command_frame(magic: u32, command: ToConnectionHandle) -> Seq<u8> {
    match command {
        ToConnectionHandle::ToBitcoinNode(message) => wire_frame(message.magic, message.payload@),
        ToConnectionHandle::InitHandshake { version } => wire_frame(
            magic,
            BitcoinMessageView::Version(version@),
        ),
    }
}

/// The frame, if any, that a driver on a network with magic number `magic`
/// writes on an event: a peer's version is acknowledged, nothing else is
/// answered.
pub open spec fn event_frame(magic: u32, event: FromConnectionHandle) -> Option<Seq<u8>> {
    match event {
        FromConnectionHandle::FromBitcoinNode(BitcoinMessage::Version(_)) => Some(
            wire_frame(magic, BitcoinMessageView::Verack),
        ),
        _ => None,
    }
}

/// The driver of one connection. It runs until one of its input streams
/// closes or a write fails, and then stays stopped.
#[derive(Debug)]
pub struct ProtocolDriver {
    network: Network,
    stopped: bool,
}

impl ProtocolDriver {
    /// The network of the connection.
    pub closed spec fn spec_network(&self) -> Network {
        self.network
    }

    /// Whether the driver has stopped.
    pub closed spec fn spec_is_stopped(&self) -> bool {
        self.stopped
    }

    /// What the driver does on an input: the new state of `stopped`, and the
    /// outcome with the bytes to write.
    pub open spec fn reaction(&self, input: DriverInput) -> (bool, Result<Option<Seq<u8>>, Error>) {
        let magic = self.spec_network().spec_magic();
        match input {
            DriverInput::Command(None) | DriverInput::FromNode(None) => (
                true,
                Err(Error::ActorUnavailable),
            ),
            DriverInput::FromNode(Some(event)) => match event_frame(magic, event) {
                None => (self.spec_is_stopped(), Ok(None)),
                Some(frame) => if self.spec_is_stopped() {
                    (true, Err(Error::ActorSendError))
                } else {
                    (false, Ok(Some(frame)))
                },
            },
            DriverInput::Command(Some(command)) => if self.spec_is_stopped() {
                (true, Err(Error::ActorSendError))
            } else {
                (false, Ok(Some(command_frame(magic, command))))
            },
        }
    }

    /// Whether `outcome` and the driver's state after an input are what
    /// [`Self::reaction`] says of the state before.
    pub open spec fn reacted(
        &self,
        input: DriverInput,
        after: ProtocolDriver,
        outcome: Result<Outbound, Error>,
    ) -> bool {
        &&& after.spec_network() == self.spec_network()
        &&& after.spec_is_stopped() == self.reaction(input).0
        &&& match outcome {
            Ok(outbound) => self.reaction(input).1 == Ok::<Option<Seq<u8>>, Error>(
                outbound_bytes(outbound),
            ),
            Err(error) => self.reaction(input).1 == Err::<Option<Seq<u8>>, Error>(error),
        }
    }

    /// A running driver for a connection on `network`.
    pub fn new(network: Network) -> (driver: ProtocolDriver)
        ensures
            driver.network() == network,
            !driver.is_stopped(),
    {
        ProtocolDriver { network, stopped: false }
    }

    /// The network of the connection.
    #[verifier::when_used_as_spec(spec_network)]
    pub fn network(&self) -> (network: Network)
        ensures
            network == self.spec_network(),
    {
        self.network
    }

    /// Whether the driver has stopped.
    #[verifier::when_used_as_spec(spec_is_stopped)]
    pub fn is_stopped(&self) -> (stopped: bool)
        ensures
            stopped == self.spec_is_stopped(),
    {
        self.stopped
    }

    /// Reacts to whichever input became ready. There is no priority between
    /// the two streams: the caller hands over the item that was ready first.
    pub fn drive(&mut self, input: DriverInput) -> (outcome: Result<Outbound, Error>)
        ensures
            old(self).reacted(input, *final(self), outcome),
    {
        match input {
            DriverInput::Command(command) => self.handle_incoming_commands(command),
            DriverInput::FromNode(event) => self.handle_messages_from_node(event),
        }
    }

    /// Reacts to the next event of the inbound reader. A version of the
    /// peer is acknowledged; no other message is answered. The end of the
    /// event stream stops the driver.
    pub fn handle_messages_from_node(
        &mut self,
        msg: Option<FromConnectionHandle>,
    ) -> (outcome: Result<Outbound, Error>)
        ensures
            old(self).reacted(DriverInput::FromNode(msg), *final(self), outcome),
    {
        match msg {
            Some(FromConnectionHandle::FromBitcoinNode(msg)) => {
                match msg {
                    BitcoinMessage::Version(_) => {
                        let message = self.verack_message();
                        match self.send_blocking(message) {
                            Ok(frame) => Ok(Some(frame)),
                            Err(error) => Err(error),
                        }
                    },
                    _ => Ok(None),
                }
            },
            None => {
                self.stopped = true;
                Err(Error::ActorUnavailable)
            },
        }
    }

    /// Reacts to the next command of the caller. A message to forward is
    /// written as it is; the opening of the handshake writes the announced
    /// version. The end of the command stream stops the driver.
    pub fn handle_incoming_commands(
        &mut self,
        msg: Option<ToConnectionHandle>,
    ) -> (outcome: Result<Outbound, Error>)
        ensures
            old(self).reacted(DriverInput::Command(msg), *final(self), outcome),
    {
        match msg {
            Some(msg) => {
                let message = match msg {
                    ToConnectionHandle::ToBitcoinNode(message) => message,
                    ToConnectionHandle::InitHandshake { version } => self.version_message(version),
                };
                match self.send_blocking(message) {
                    Ok(frame) => Ok(Some(frame)),
                    Err(error) => Err(error),
                }
            },
            None => {
                self.stopped = true;
                Err(Error::ActorUnavailable)
            },
        }
    }

    /// The frame of `msg`, to be written to the peer, or `ActorSendError`
    /// when the driver has stopped and nothing can be sent any more.
    pub fn send_blocking(&mut self, msg: RawNetworkMessage) -> (outcome: Result<Vec<u8>, Error>)
        ensures
            *final(self) == *old(self),
            match outcome {
                Ok(frame) => !old(self).is_stopped() && frame@ == wire_frame(
                    msg.magic,
                    msg.payload@,
                ),
                Err(error) => old(self).is_stopped() && error == Error::ActorSendError,
            },
    {
        if self.stopped {
            Err(Error::ActorSendError)
        } else {
            Ok(encode(&msg))
        }
    }

    /// Takes note of how the write of a frame ended. A failed write stops
    /// the driver and is reported as `ActorSendError`.
    pub fn written(&mut self, succeeded: bool) -> (outcome: Result<(), Error>)
        ensures
            final(self).network() == old(self).network(),
            final(self).is_stopped() == (old(self).is_stopped() || !succeeded),
            outcome == if succeeded {
                Ok::<(), Error>(())
            } else {
                Err(Error::ActorSendError)
            },
    {
        if succeeded {
            Ok(())
        } else {
            self.stopped = true;
            Err(Error::ActorSendError)
        }
    }

    /// The peer-bound message that announces `version` on the network of the
    /// connection.
    pub fn version_message(&self, version: Version) -> (message: RawNetworkMessage)
        ensures
            message == (RawNetworkMessage {
                magic: self.network().magic(),
                payload: BitcoinMessage::Version(version),
            }),
    {
        RawNetworkMessage { magic: self.network.magic(), payload: BitcoinMessage::Version(version) }
    }

    /// The peer-bound message that acknowledges a version on the network of
    /// the connection.
    pub fn verack_message(&self) -> (message: RawNetworkMessage)
        ensures
            message == (RawNetworkMessage {
                magic: self.network().magic(),
                payload: BitcoinMessage::Verack(Verack),
            }),
    {
        RawNetworkMessage { magic: self.network.magic(), payload: BitcoinMessage::Verack(Verack) }
    }
}

/// A stopped driver stays stopped and writes nothing, whatever becomes
/// ready.
pub proof fn lemma_stopped_driver_writes_nothing(driver: ProtocolDriver, input: DriverInput)
    requires
        driver.is_stopped(),
    ensures
        driver.reaction(input).0,
        driver.reaction(input).1 matches Ok(bytes) ==> bytes is None,
{
}

/// A running driver answers every version of the peer with the
/// acknowledgement, framed for its network, and keeps running.
pub proof fn lemma_running_driver_acknowledges_version(driver: ProtocolDriver, version: Version)
    requires
        !driver.is_stopped(),
    ensures
        driver.reaction(
            DriverInput::FromNode(
                Some(FromConnectionHandle::FromBitcoinNode(BitcoinMessage::Version(version))),
            ),
        ) == (
            false,
            Ok::<Option<Seq<u8>>, Error>(
                Some(wire_frame(driver.network().magic(), BitcoinMessageView::Verack)),
            ),
        ),
{
}

} // verus!
