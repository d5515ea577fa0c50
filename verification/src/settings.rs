//! What a connection is configured with.

use crate::network::{Network, SocketAddress};
use vstd::prelude::*;

verus! {

/// The configuration of one connection: whom to connect to, which address
/// to advertise, and on which network.
#[derive(Copy, Clone, Debug, PartialEq, Eq, Hash)]
pub struct Settings {
    peer_address: SocketAddress,
    sender_address: SocketAddress,
    peer_network: Network,
}

impl Settings {
    /// The address of the peer.
    pub closed spec fn spec_peer_address(&self) -> SocketAddress {
        self.peer_address
    }

    /// The address that is advertised to the peer as this endpoint's own.
    pub closed spec fn spec_sender_address(&self) -> SocketAddress {
        self.sender_address
    }

    /// The network of the peer.
    pub closed spec fn spec_peer_network(&self) -> Network {
        self.peer_network
    }

    /// Settings with the given values.
    pub fn new(
        peer_address: SocketAddress,
        sender_address: SocketAddress,
        peer_network: Network,
    ) -> (settings: Settings)
        ensures
            settings.peer_address() == peer_address,
            settings.sender_address() == sender_address,
            settings.peer_network() == peer_network,
    {
        Settings { peer_address, sender_address, peer_network }
    }

    /// The address of the peer.
    #[verifier::when_used_as_spec(spec_peer_address)]
    pub fn peer_address(&self) -> (address: SocketAddress)
        ensures
            address == self.spec_peer_address(),
    {
        self.peer_address
    }

    /// The network of the peer.
    #[verifier::when_used_as_spec(spec_peer_network)]
    pub fn peer_network(&self) -> (network: Network)
        ensures
            network == self.spec_peer_network(),
    {
        self.peer_network
    }

    /// The address that is advertised to the peer as this endpoint's own.
    #[verifier::when_used_as_spec(spec_sender_address)]
    pub fn sender_address(&self) -> (address: SocketAddress)
        ensures
            address == self.spec_sender_address(),
    {
        self.sender_address
    }
}

} // verus!
