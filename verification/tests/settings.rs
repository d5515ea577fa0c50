use bitcoin_handshake::{Network, Settings, SocketAddress};

#[test]
fn settings_hand_back_their_values() {
    let peer = SocketAddress::V4 { octets: [203, 0, 113, 5], port: 8333 };
    let sender = SocketAddress::V6 { segments: [0x2001, 0xdb8, 0, 0, 0, 0, 0, 9], port: 51000 };
    let settings = Settings::new(peer, sender, Network::Signet);
    assert_eq!(settings.peer_address(), peer);
    assert_eq!(settings.sender_address(), sender);
    assert_eq!(settings.peer_network(), Network::Signet);
}
