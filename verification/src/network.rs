//! Networks, socket addresses and the address record of the wire protocol.

use vstd::prelude::*;

verus! {

/// The chain a peer belongs to.
#[derive(Copy, Clone, Debug, PartialEq, Eq, Hash)]
pub enum Network {
    Bitcoin,
    Testnet,
    Signet,
    Regtest,
}

impl Network {
    /// The magic number that starts every frame on this network.
    pub open spec fn spec_magic(self) -> u32 {
        match self {
            Network::Bitcoin => 0xD9B4BEF9,
            Network::Testnet => 0x0709110B,
            Network::Signet => 0x40CF030A,
            Network::Regtest => 0xDAB5BFFA,
        }
    }

    /// The magic number that starts every frame on this network.
    #[verifier::when_used_as_spec(spec_magic)]
    pub fn magic(self) -> (magic: u32)
        ensures
            magic == self.spec_magic(),
    {
        network_magic(self)
    }
}

/// Calls `bitcoin::network::constants::Network::magic` on the network of the
/// same name. The contract repeats the four constants of that function.
#[verifier::external_body]
fn network_magic(network: Network) -> (magic: u32)
    ensures
        magic == network.spec_magic(),
{
    match network {
        Network::Bitcoin => bitcoin::network::constants::Network::Bitcoin,
        Network::Testnet => bitcoin::network::constants::Network::Testnet,
        Network::Signet => bitcoin::network::constants::Network::Signet,
        Network::Regtest => bitcoin::network::constants::Network::Regtest,
    }.magic()
}

/// An IP address with a port, as plain numbers.
#[derive(Copy, Clone, Debug, PartialEq, Eq, Hash)]
pub enum SocketAddress {
    /// An IPv4 address: four octets, most significant first.
    V4 { octets: [u8; 4], port: u16 },
    /// An IPv6 address: eight 16-bit segments, most significant first.
    V6 { segments: [u16; 8], port: u16 },
}

impl SocketAddress {
    /// The port of the address.
    pub open spec fn spec_port(self) -> u16 {
        match self {
            SocketAddress::V4 { port, .. } => port,
            SocketAddress::V6 { port, .. } => port,
        }
    }

    /// The eight segments of the address; an IPv4 address is mapped into
    /// `::ffff:a.b.c.d`.
    pub open spec fn spec_segments(self) -> Seq<u16> {
        match self {
            SocketAddress::V4 { octets, .. } => seq![
                0u16,
                0u16,
                0u16,
                0u16,
                0u16,
                0xffffu16,
                (octets[0] * 256 + octets[1]) as u16,
                (octets[2] * 256 + octets[3]) as u16,
            ],
            SocketAddress::V6 { segments, .. } => segments@,
        }
    }
}

/// A peer's address as the wire protocol carries it.
#[derive(Copy, Clone, Debug, PartialEq, Eq, Hash)]
pub struct Address {
    /// Bitmask of the services the peer offers.
    pub services: u64,
    /// IPv6 address, or IPv4 address mapped into IPv6, in eight segments.
    pub address: [u16; 8],
    /// Port.
    pub port: u16,
}

impl Address {
    /// The address record of a socket address.
    pub fn new(socket: &SocketAddress, services: u64) -> (address: Address)
        ensures
            address.services == services,
            address.address@ == socket.spec_segments(),
            address.port == socket.spec_port(),
    {
        match *socket {
            SocketAddress::V4 { octets, port } => {
                let high: u16 = (octets[0] as u16) * 256 + (octets[1] as u16);
                let low: u16 = (octets[2] as u16) * 256 + (octets[3] as u16);
                let address: [u16; 8] = [0, 0, 0, 0, 0, 0xffff, high, low];
                Address { services, address, port }
            },
            SocketAddress::V6 { segments, port } => Address { services, address: segments, port },
        }
    }
}

} // verus!
