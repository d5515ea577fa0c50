//! Protocol messages as plain values, and their mathematical views.

use crate::network::Address;
use vstd::prelude::*;
use vstd::utf8::encode_utf8;

verus! {

/// Protocol version that this endpoint announces.
pub const PROTOCOL_VERSION: u32 = 70001;

/// Number of bytes that a frame reserves for the command name.
pub const COMMAND_SIZE: usize = 12;

/// The `version` message: what a peer announces of itself when a connection
/// opens.
#[derive(Clone, Debug, PartialEq, Eq)]
pub struct Version {
    /// Protocol version of the sender.
    pub version: u32,
    /// Bitmask of the services the sender offers.
    pub services: u64,
    /// Time at which the message was built, in seconds since the Unix epoch.
    pub timestamp: i64,
    /// Address of the peer that receives the message.
    pub receiver: Address,
    /// Address of the peer that sends the message.
    pub sender: Address,
    /// Random number by which a node recognises a connection to itself.
    pub nonce: u64,
    /// Name of the sender's software.
    pub user_agent: String,
    /// Height of the best chain the sender knows.
    pub start_height: i32,
    /// Whether the receiver should relay transactions to the sender.
    pub relay: bool,
}

/// Mathematical view of a [`Version`].
pub struct VersionView {
    pub version: u32,
    pub services: u64,
    pub timestamp: i64,
    pub receiver: Address,
    pub sender: Address,
    pub nonce: u64,
    pub user_agent: Seq<char>,
    pub start_height: i32,
    pub relay: bool,
}

impl View for Version {
    type V = VersionView;

    open spec fn view(&self) -> VersionView {
        VersionView {
            version: self.version,
            services: self.services,
            timestamp: self.timestamp,
            receiver: self.receiver,
            sender: self.sender,
            nonce: self.nonce,
            user_agent: self.user_agent@,
            start_height: self.start_height,
            relay: self.relay,
        }
    }
}

impl Version {
    /// A `version` message of protocol [`PROTOCOL_VERSION`] that asks for no
    /// relay.
    pub fn new(
        services: u64,
        timestamp: i64,
        receiver: Address,
        sender: Address,
        nonce: u64,
        user_agent: String,
        start_height: i32,
    ) -> (message: Version)
        ensures
            message@ == (VersionView {
                version: PROTOCOL_VERSION,
                services,
                timestamp,
                receiver,
                sender,
                nonce,
                user_agent: user_agent@,
                start_height,
                relay: false,
            }),
    {
        Version {
            version: PROTOCOL_VERSION,
            services,
            timestamp,
            receiver,
            sender,
            nonce,
            user_agent,
            start_height,
            relay: false,
        }
    }
}

/// The `verack` message: acknowledges a peer's `version`. It has no payload.
#[derive(Copy, Clone, Debug, PartialEq, Eq)]
pub struct Verack;

/// The `getaddr` message: asks a peer for addresses of other peers. It has no
/// payload.
#[derive(Copy, Clone, Debug, PartialEq, Eq)]
pub struct GetAddr;

/// A message that this crate carries without interpreting it: a command name
/// and the bytes that came with it.
///
/// The command name always fits the command field of a frame. On the way
/// out the codec treats such a message as one of unknown kind and writes
/// its payload as a byte vector: the length first, then the bytes.
#[derive(Debug, PartialEq, Eq)]
pub struct OtherMessage {
    command: String,
    payload: Vec<u8>,
}

/// Mathematical view of an [`OtherMessage`].
pub struct OtherMessageView {
    pub command: Seq<char>,
    pub payload: Seq<u8>,
}

impl View for OtherMessage {
    type V = OtherMessageView;

    closed spec fn view(&self) -> OtherMessageView {
        OtherMessageView { command: self.command@, payload: self.payload@ }
    }
}

/// Whether a command name, encoded as UTF-8, fits the command field of a
/// frame.
pub open spec fn command_fits(command: Seq<char>) -> bool {
    encode_utf8(command).len() <= COMMAND_SIZE
}

impl OtherMessage {
    #[verifier::type_invariant]
    spec fn well_formed(self) -> bool {
        command_fits(self.command@)
    }

    /// A message to be carried as it is, or `None` when the command name is longer
    /// than the command field of a frame.
    pub fn new(command: String, payload: Vec<u8>) -> (message: Option<OtherMessage>)
        ensures
            message is Some <==> command_fits(command@),
            message matches Some(m) ==> m@ == (OtherMessageView {
                command: command@,
                payload: payload@,
            }),
    {
        if command.as_str().as_bytes().len() <= COMMAND_SIZE {
            Some(OtherMessage { command, payload })
        } else {
            None
        }
    }

    /// The command name.
    pub fn command(&self) -> (command: &str)
        ensures
            command@ == self@.command,
            command_fits(command@),
    {
        proof {
            use_type_invariant(self);
        }
        self.command.as_str()
    }

    /// The bytes that came with the command.
    pub fn payload(&self) -> (payload: &Vec<u8>)
        ensures
            payload@ == self@.payload,
    {
        &self.payload
    }
}

impl Clone for OtherMessage {
    fn clone(&self) -> (copy: OtherMessage)
        ensures
            copy@ == self@,
    {
        proof {
            use_type_invariant(self);
        }
        OtherMessage { command: self.command.clone(), payload: self.payload.clone() }
    }
}

/// A protocol message.
#[derive(Clone, Debug, PartialEq, Eq)]
pub enum BitcoinMessage {
    /// `version`
    Version(Version),
    /// `verack`
    Verack(Verack),
    /// `getaddr`
    GetAddr(GetAddr),
    /// Any other message.
    Other(OtherMessage),
}

/// Mathematical view of a [`BitcoinMessage`].
pub enum BitcoinMessageView {
    Version(VersionView),
    Verack,
    GetAddr,
    Other(OtherMessageView),
}

impl View for BitcoinMessage {
    type V = BitcoinMessageView;

    open spec fn view(&self) -> BitcoinMessageView {
        match self {
            BitcoinMessage::Version(version) => BitcoinMessageView::Version(version@),
            BitcoinMessage::Verack(_) => BitcoinMessageView::Verack,
            BitcoinMessage::GetAddr(_) => BitcoinMessageView::GetAddr,
            BitcoinMessage::Other(other) => BitcoinMessageView::Other(other@),
        }
    }
}

/// A message together with the magic number of the network it travels on:
/// what one frame carries.
#[derive(Clone, Debug, PartialEq, Eq)]
pub struct RawNetworkMessage {
    /// Magic number of the network.
    pub magic: u32,
    /// The message.
    pub payload: BitcoinMessage,
}

} // verus!
