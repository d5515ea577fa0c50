use bitcoin::network::constants::ServiceFlags;
use bitcoin_handshake::{Address, Network, SocketAddress};

#[test]
fn magic_of_each_network() {
    assert_eq!(Network::Bitcoin.magic(), 0xD9B4BEF9);
    assert_eq!(Network::Testnet.magic(), 0x0709110B);
    assert_eq!(Network::Signet.magic(), 0x40CF030A);
    assert_eq!(Network::Regtest.magic(), 0xDAB5BFFA);
}

#[test]
fn magic_agrees_with_the_codec() {
    assert_eq!(Network::Bitcoin.magic(), bitcoin::Network::Bitcoin.magic());
    assert_eq!(Network::Testnet.magic(), bitcoin::Network::Testnet.magic());
    assert_eq!(Network::Signet.magic(), bitcoin::Network::Signet.magic());
    assert_eq!(Network::Regtest.magic(), bitcoin::Network::Regtest.magic());
}

#[test]
fn address_of_an_ipv4_socket_is_mapped_into_ipv6() {
    let socket = SocketAddress::V4 { octets: [203, 0, 113, 5], port: 8333 };
    let address = Address::new(&socket, 0);
    assert_eq!(
        address,
        Address { services: 0, address: [0, 0, 0, 0, 0, 0xffff, 0xcb00, 0x7105], port: 8333 }
    );
}

#[test]
fn address_of_an_ipv4_socket_with_extreme_octets() {
    let low = Address::new(&SocketAddress::V4 { octets: [0, 0, 0, 0], port: 0 }, 0);
    assert_eq!(low.address, [0, 0, 0, 0, 0, 0xffff, 0, 0]);
    assert_eq!(low.port, 0);
    let high = Address::new(&SocketAddress::V4 { octets: [255, 255, 255, 255], port: 65535 }, u64::MAX);
    assert_eq!(high.address, [0, 0, 0, 0, 0, 0xffff, 0xffff, 0xffff]);
    assert_eq!(high.port, 65535);
    assert_eq!(high.services, u64::MAX);
}

#[test]
fn address_of_an_ipv6_socket_keeps_its_segments() {
    let segments = [0x2001, 0xdb8, 0x85a3, 0, 0, 0x8a2e, 0x370, 0x7334];
    let address = Address::new(&SocketAddress::V6 { segments, port: 18333 }, 9);
    assert_eq!(address, Address { services: 9, address: segments, port: 18333 });
}

#[test]
fn address_agrees_with_the_codec() {
    let ours = Address::new(&SocketAddress::V4 { octets: [203, 0, 113, 9], port: 51000 }, 0);
    let theirs =
        bitcoin::network::Address::new(&"203.0.113.9:51000".parse().unwrap(), ServiceFlags::NONE);
    assert_eq!(ours.address, theirs.address);
    assert_eq!(ours.port, theirs.port);
    assert_eq!(ours.services, theirs.services.to_u64());

    let segments = [0x2001, 0xdb8, 0, 0, 0, 0, 0, 1];
    let ours = Address::new(&SocketAddress::V6 { segments, port: 8333 }, 1);
    let theirs = bitcoin::network::Address::new(
        &"[2001:db8::1]:8333".parse().unwrap(),
        ServiceFlags::NETWORK,
    );
    assert_eq!(ours.address, theirs.address);
    assert_eq!(ours.port, theirs.port);
    assert_eq!(ours.services, theirs.services.to_u64());
}
