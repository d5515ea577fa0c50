//! The wire codec: frames are produced by the `bitcoin` crate.
//!
//! A frame is `magic || command || length || checksum || payload`: the magic
//! number of the network in four bytes, least significant first; the command
//! name in twelve bytes, padded with zeros; the length of the payload in four
//! bytes, least significant first; the first four bytes of the double
//! SHA-256 of the payload; and the payload. [`wire_frame`] says which bytes
//! the frame of a message holds: it writes them out where the message has no
//! payload, and names them otherwise.

use crate::message::{
    command_fits, BitcoinMessage, BitcoinMessageView, OtherMessage, RawNetworkMessage, Version,
};
use bitcoin::consensus::encode::serialize;
use bitcoin::network::address::Address as WireAddress;
use bitcoin::network::constants::ServiceFlags;
use bitcoin::network::message as wire;
use bitcoin::network::message_network::VersionMessage;
use vstd::prelude::*;

verus! {

/// The four bytes of `value`, least significant first.
pub open spec fn le_bytes(value: u32) -> Seq<u8> {
    seq![
        (value % 0x100) as u8,
        (value / 0x100 % 0x100) as u8,
        (value / 0x1_0000 % 0x100) as u8,
        (value / 0x100_0000) as u8,
    ]
}

/// What follows the magic number in the frame of a `verack`: the command
/// name, the length zero, and the checksum of the empty payload.
pub open spec fn verack_tail() -> Seq<u8> {
    seq![
        0x76u8, 0x65, 0x72, 0x61, 0x63, 0x6b, 0, 0, 0, 0, 0, 0,
        0, 0, 0, 0,
        0x5d, 0xf6, 0xe0, 0xe2,
    ]
}

/// What follows the magic number in the frame of a `getaddr`: the command
/// name, the length zero, and the checksum of the empty payload.
pub open spec fn getaddr_tail() -> Seq<u8> {
    seq![
        0x67u8, 0x65, 0x74, 0x61, 0x64, 0x64, 0x72, 0, 0, 0, 0, 0,
        0, 0, 0, 0,
        0x5d, 0xf6, 0xe0, 0xe2,
    ]
}

/// The frame that `bitcoin::consensus::encode::serialize` produces for a
/// `bitcoin::network::message::RawNetworkMessage` with the given magic number
/// and a message that has a payload.
pub uninterp spec fn payload_frame(magic: u32, message: BitcoinMessageView) -> Seq<u8>;

/// The frame that carries a message on a network with magic number `magic`.
pub open spec fn wire_frame(magic: u32, message: BitcoinMessageView) -> Seq<u8> {
    match message {
        BitcoinMessageView::Verack => le_bytes(magic) + verack_tail(),
        BitcoinMessageView::GetAddr => le_bytes(magic) + getaddr_tail(),
        _ => payload_frame(magic, message),
    }
}

/// The frame that carries a message on the wire.
pub fn encode(message: &RawNetworkMessage) -> (frame: Vec<u8>)
    ensures
        frame@ == wire_frame(message.magic, message.payload@),
{
    match &message.payload {
        BitcoinMessage::Version(version) => encode_version(message.magic, version),
        BitcoinMessage::Verack(_) => encode_verack(message.magic),
        BitcoinMessage::GetAddr(_) => encode_getaddr(message.magic),
        BitcoinMessage::Other(other) => {
            let _ = other.command();
            encode_other(message.magic, other)
        },
    }
}

/// Builds the `bitcoin` crate's `version` message with the same field values
/// and serialises its frame with `bitcoin::consensus::encode::serialize`.
/// The contract names the result.
#[verifier::external_body]
fn encode_version(magic: u32, version: &Version) -> (frame: Vec<u8>)
    ensures
        frame@ == payload_frame(magic, BitcoinMessageView::Version(version@)),
{
    let (receiver, sender) = (&version.receiver, &version.sender);
    let (to, from) = (ServiceFlags::from(receiver.services), ServiceFlags::from(sender.services));
    let payload = wire::NetworkMessage::Version(VersionMessage {
        version: version.version,
        services: ServiceFlags::from(version.services),
        timestamp: version.timestamp,
        receiver: WireAddress { services: to, address: receiver.address, port: receiver.port },
        sender: WireAddress { services: from, address: sender.address, port: sender.port },
        nonce: version.nonce,
        user_agent: version.user_agent.clone(),
        start_height: version.start_height,
        relay: version.relay,
    });
    serialize(&wire::RawNetworkMessage { magic, payload })
}

/// Serialises the frame of the `bitcoin` crate's `verack` message with
/// `bitcoin::consensus::encode::serialize`. The contract gives the bytes:
/// the magic number as that function writes a `u32`, and the twenty bytes
/// that it writes after the magic number for a `verack`.
#[verifier::external_body]
fn encode_verack(magic: u32) -> (frame: Vec<u8>)
    ensures
        frame@ == le_bytes(magic) + verack_tail(),
{
    serialize(&wire::RawNetworkMessage { magic, payload: wire::NetworkMessage::Verack })
}

/// Serialises the frame of the `bitcoin` crate's `getaddr` message with
/// `bitcoin::consensus::encode::serialize`. The contract gives the bytes:
/// the magic number as that function writes a `u32`, and the twenty bytes
/// that it writes after the magic number for a `getaddr`.
#[verifier::external_body]
fn encode_getaddr(magic: u32) -> (frame: Vec<u8>)
    ensures
        frame@ == le_bytes(magic) + getaddr_tail(),
{
    serialize(&wire::RawNetworkMessage { magic, payload: wire::NetworkMessage::GetAddr })
}

/// Builds the `bitcoin` crate's `Unknown` message with the same command name
/// and payload and serialises its frame with
/// `bitcoin::consensus::encode::serialize`. The contract names the result.
/// A command name that does not fit the command field is left out: the
/// `bitcoin` crate has no command string for it.
#[verifier::external_body]
fn encode_other(magic: u32, other: &OtherMessage) -> (frame: Vec<u8>)
    requires
        command_fits(other@.command),
    ensures
        frame@ == payload_frame(magic, BitcoinMessageView::Other(other@)),
{
    let command: wire::CommandString = other.command().parse().unwrap();
    let payload = wire::NetworkMessage::Unknown { command, payload: other.payload().clone() };
    serialize(&wire::RawNetworkMessage { magic, payload })
}

} // verus!
