use bitcoin::consensus::deserialize;
use bitcoin::network::constants::ServiceFlags;
use bitcoin::network::message::{NetworkMessage, RawNetworkMessage as WireMessage};
use bitcoin_handshake::handle::build_version_message_with;
use bitcoin_handshake::{
    Address, BitcoinConnection, BitcoinConnector, BitcoinMessage, ConnectionActor, Connected,
    DecodeFailure, Error, FromConnectionHandle, GetAddr, IncomingReceiver, Network, OtherMessage,
    PreHandshake, RawNetworkMessage, RecvError, Settings, SocketAddress, SupervisorAction,
    SupervisorEvent, Task,
    ToConnectionHandle, Verack, Version,
};

const PEER: SocketAddress = SocketAddress::V4 { octets: [203, 0, 113, 5], port: 8333 };
const LOCAL: SocketAddress = SocketAddress::V4 { octets: [203, 0, 113, 9], port: 51000 };
const MAINNET: u32 = 0xD9B4BEF9;

fn settings() -> Settings {
    Settings::new(PEER, LOCAL, Network::Bitcoin)
}

fn connection() -> BitcoinConnection<PreHandshake> {
    BitcoinConnector::new(settings()).connect()
}

fn peer_version(nonce: u64, user_agent: &str) -> Version {
    Version {
        version: 70016,
        services: 1033,
        timestamp: 1_700_000_123,
        receiver: Address::new(&LOCAL, 0),
        sender: Address::new(&PEER, 1033),
        nonce,
        user_agent: user_agent.to_string(),
        start_height: 800_000,
        relay: true,
    }
}

fn event(message: BitcoinMessage) -> FromConnectionHandle {
    FromConnectionHandle::FromBitcoinNode(message)
}

fn addr_list() -> BitcoinMessage {
    let mut payload = vec![1u8];
    payload.extend_from_slice(&1_700_000_200u32.to_le_bytes());
    payload.extend_from_slice(&1u64.to_le_bytes());
    payload.extend_from_slice(&[0, 0, 0, 0, 0, 0, 0, 0, 0, 0, 0xff, 0xff, 198, 51, 100, 7]);
    payload.extend_from_slice(&8333u16.to_be_bytes());
    BitcoinMessage::Other(OtherMessage::new("addr".to_string(), payload).unwrap())
}

fn connected() -> BitcoinConnection<Connected> {
    let (connection, _) = connection().perform_handshake();
    let connection = connection
        .receive_version(Ok(event(BitcoinMessage::Version(peer_version(1, "peer")))))
        .unwrap();
    connection.receive_verack(Ok(event(BitcoinMessage::Verack(Verack)))).unwrap()
}

#[test]
fn connect_keeps_the_settings() {
    assert_eq!(connection().settings(), settings());
}

#[test]
fn perform_handshake_announces_this_endpoint() {
    let (connection, command) = connection().perform_handshake();
    assert_eq!(connection.settings(), settings());
    let ToConnectionHandle::InitHandshake { version } = command else {
        panic!("not the opening of a handshake");
    };
    assert_eq!(
        version,
        build_version_message_with(&PEER, &LOCAL, version.timestamp, version.nonce)
    );
}

#[test]
fn handshake_succeeds_on_version_then_verack() {
    let versions = [
        peer_version(0, ""),
        peer_version(u64::MAX, "/Satoshi:25.0.0/"),
        Version::new(0, 0, Address::new(&PEER, 0), Address::new(&PEER, 0), 0, "x".to_string(), 0),
        Version {
            version: 0,
            services: u64::MAX,
            timestamp: i64::MIN,
            receiver: Address { services: u64::MAX, address: [0xffff; 8], port: 65535 },
            sender: Address { services: 0, address: [0; 8], port: 0 },
            nonce: 1,
            user_agent: "é".repeat(200),
            start_height: i32::MIN,
            relay: false,
        },
    ];
    for version in versions {
        let (connection, _) = connection().perform_handshake();
        let connection = connection.receive_version(Ok(event(BitcoinMessage::Version(version)))).unwrap();
        assert_eq!(connection.settings(), settings());
        let connection: BitcoinConnection<Connected> =
            connection.receive_verack(Ok(event(BitcoinMessage::Verack(Verack)))).unwrap();
        assert_eq!(connection.settings(), settings());
    }
}

#[test]
fn handshake_fails_when_the_first_message_is_no_version() {
    for message in [BitcoinMessage::Verack(Verack), BitcoinMessage::GetAddr(GetAddr), addr_list()] {
        let (connection, _) = connection().perform_handshake();
        let delivered = event(message);
        let outcome = connection.receive_version(Ok(delivered.clone()));
        assert_eq!(outcome.unwrap_err(), Error::UnexpectedConnectionMessage(Box::new(delivered)));
    }
}

#[test]
fn handshake_fails_when_the_second_message_is_no_verack() {
    let messages =
        [BitcoinMessage::Version(peer_version(2, "peer")), BitcoinMessage::GetAddr(GetAddr), addr_list()];
    for message in messages {
        let (connection, _) = connection().perform_handshake();
        let connection = connection
            .receive_version(Ok(event(BitcoinMessage::Version(peer_version(1, "peer")))))
            .unwrap();
        let delivered = event(message);
        let outcome = connection.receive_verack(Ok(delivered.clone()));
        assert_eq!(outcome.unwrap_err(), Error::UnexpectedConnectionMessage(Box::new(delivered)));
    }
}

#[test]
fn handshake_fails_when_the_event_stream_dies() {
    for failure in [RecvError::Closed, RecvError::Lagged(4)] {
        let (connection, _) = connection().perform_handshake();
        assert_eq!(connection.receive_version(Err(failure)).unwrap_err(), Error::ActorUnavailable);

        let (connection, _) = self::connection().perform_handshake();
        let connection = connection
            .receive_version(Ok(event(BitcoinMessage::Version(peer_version(1, "peer")))))
            .unwrap();
        assert_eq!(connection.receive_verack(Err(failure)).unwrap_err(), Error::ActorUnavailable);
    }
}

#[test]
fn complete_handshake_judges_both_events_in_order() {
    let version = event(BitcoinMessage::Version(peer_version(3, "peer")));
    let verack = event(BitcoinMessage::Verack(Verack));

    let (connection, _) = connection().perform_handshake();
    let connected = connection.complete_handshake(Ok(version.clone()), Ok(verack.clone())).unwrap();
    assert_eq!(connected.settings(), settings());

    // the acknowledgement before the version: the first event ends it
    let (connection, _) = self::connection().perform_handshake();
    assert_eq!(
        connection.complete_handshake(Ok(verack.clone()), Ok(version.clone())).unwrap_err(),
        Error::UnexpectedConnectionMessage(Box::new(verack.clone()))
    );

    // the first event ends it, whatever the second is
    let (connection, _) = self::connection().perform_handshake();
    assert_eq!(
        connection.complete_handshake(Ok(event(addr_list())), Err(RecvError::Closed)).unwrap_err(),
        Error::UnexpectedConnectionMessage(Box::new(event(addr_list())))
    );
    let (connection, _) = self::connection().perform_handshake();
    assert_eq!(
        connection.complete_handshake(Err(RecvError::Lagged(2)), Ok(verack.clone())).unwrap_err(),
        Error::ActorUnavailable
    );

    // two versions: the second event ends it
    let (connection, _) = self::connection().perform_handshake();
    assert_eq!(
        connection.complete_handshake(Ok(version.clone()), Ok(version.clone())).unwrap_err(),
        Error::UnexpectedConnectionMessage(Box::new(version.clone()))
    );
    let (connection, _) = self::connection().perform_handshake();
    assert_eq!(
        connection.complete_handshake(Ok(version), Err(RecvError::Closed)).unwrap_err(),
        Error::ActorUnavailable
    );
}

#[test]
fn connected_asks_for_peer_addresses() {
    assert_eq!(
        connected().send_get_addr(),
        ToConnectionHandle::ToBitcoinNode(RawNetworkMessage {
            magic: MAINNET,
            payload: BitcoinMessage::GetAddr(GetAddr),
        })
    );
}

#[test]
fn connected_on_another_network_uses_its_magic() {
    let settings = Settings::new(PEER, LOCAL, Network::Regtest);
    let (connection, _) = BitcoinConnector::new(settings).connect().perform_handshake();
    let connection = connection
        .receive_version(Ok(event(BitcoinMessage::Version(peer_version(1, "peer")))))
        .unwrap();
    let connection = connection.receive_verack(Ok(event(BitcoinMessage::Verack(Verack)))).unwrap();
    assert_eq!(
        connection.send_get_addr(),
        ToConnectionHandle::ToBitcoinNode(RawNetworkMessage {
            magic: 0xDAB5BFFA,
            payload: BitcoinMessage::GetAddr(GetAddr),
        })
    );
}

#[test]
fn slow_subscriber_is_told_that_it_missed_events() {
    let connection = connected();
    assert_eq!(connection.receive(Err(RecvError::Lagged(11))), Err(Error::ActorUnavailable));
    // the events that are still held come through afterwards
    assert_eq!(connection.receive(Ok(event(addr_list()))), Ok(event(addr_list())));
    assert_eq!(connection.settings(), settings());
}

#[test]
fn peer_that_closes_its_side_takes_the_connection_down() {
    let mut actor = ConnectionActor::new(Network::Bitcoin);
    let mut reader = actor.init_node_message_broadcast();
    let mut driver = actor.init_protocol_driver();
    let connection = connected();

    // the read side ends: the reader stops, and the supervisor cancels the
    // driver and closes the socket
    assert_eq!(reader.next_event(Err(DecodeFailure::Truncated)), None);
    assert!(reader.is_stopped());
    let actions = actor.run(SupervisorEvent::TaskEnded(Task::Reader));
    assert_eq!(actions, vec![SupervisorAction::AbortDriver, SupervisorAction::ShutdownSocket]);

    // what the cancelled driver and the caller see from then on
    assert_eq!(driver.written(false), Err(Error::ActorSendError));
    assert_eq!(driver.drive(bitcoin_handshake::DriverInput::Command(Some(connection.send_get_addr()))),
        Err(Error::ActorSendError));
    assert_eq!(connection.receive(Err(RecvError::Closed)), Err(Error::ActorUnavailable));
}

#[test]
fn handshake_then_address_request_on_mainnet() {
    let mut actor = ConnectionActor::new(settings().peer_network());
    let mut reader = actor.init_node_message_broadcast();
    let mut driver = actor.init_protocol_driver();

    // the caller opens the handshake; the driver announces the version
    let (connection, command) = connection().perform_handshake();
    let frame = driver.handle_incoming_commands(Some(command)).unwrap().unwrap();
    let announced: WireMessage = deserialize(&frame).unwrap();
    assert_eq!(announced.magic, MAINNET);
    let NetworkMessage::Version(announced) = announced.payload else {
        panic!("not a version message");
    };
    assert_eq!(announced.version, 70001);
    assert_eq!(announced.services, ServiceFlags::NONE);
    assert_eq!(
        announced.receiver,
        bitcoin::network::Address::new(&"203.0.113.5:8333".parse().unwrap(), ServiceFlags::NONE)
    );
    assert_eq!(
        announced.sender,
        bitcoin::network::Address::new(&"203.0.113.9:51000".parse().unwrap(), ServiceFlags::NONE)
    );
    assert_eq!(announced.user_agent, "bitcoin-handshake");
    assert_eq!(announced.start_height, 0);
    assert!(!announced.relay);

    // the peer sends its version: the reader publishes it, the driver
    // acknowledges it, the caller accepts it
    let version = BitcoinMessage::Version(peer_version(9, "/Satoshi:25.0.0/"));
    let published =
        reader.next_event(Ok(RawNetworkMessage { magic: MAINNET, payload: version.clone() })).unwrap();
    assert_eq!(published, event(version));
    let acknowledgement = driver.handle_messages_from_node(Some(published.clone())).unwrap().unwrap();
    let acknowledgement: WireMessage = deserialize(&acknowledgement).unwrap();
    assert_eq!(acknowledgement, WireMessage { magic: MAINNET, payload: NetworkMessage::Verack });
    let connection = connection.receive_version(Ok(published)).unwrap();

    // the peer acknowledges: the handshake is complete
    let published = reader
        .next_event(Ok(RawNetworkMessage { magic: MAINNET, payload: BitcoinMessage::Verack(Verack) }))
        .unwrap();
    assert_eq!(driver.handle_messages_from_node(Some(published.clone())), Ok(None));
    let connection = connection.receive_verack(Ok(published)).unwrap();

    // the caller asks for addresses; the driver writes the request
    let frame = driver.handle_incoming_commands(Some(connection.send_get_addr())).unwrap().unwrap();
    let request: WireMessage = deserialize(&frame).unwrap();
    assert_eq!(request, WireMessage { magic: MAINNET, payload: NetworkMessage::GetAddr });

    // the peer replies with a list of addresses, which reaches the caller
    // as it came
    let published =
        reader.next_event(Ok(RawNetworkMessage { magic: MAINNET, payload: addr_list() })).unwrap();
    assert_eq!(driver.handle_messages_from_node(Some(published.clone())), Ok(None));
    assert_eq!(connection.receive(Ok(published)), Ok(event(addr_list())));

    assert!(!reader.is_stopped() && !driver.is_stopped() && !actor.is_stopped());
    assert_eq!(
        actor.run(SupervisorEvent::TaskEnded(Task::Driver)),
        vec![SupervisorAction::AbortReader, SupervisorAction::ShutdownSocket]
    );
}
