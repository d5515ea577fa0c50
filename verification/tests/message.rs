use bitcoin_handshake::message::{COMMAND_SIZE, PROTOCOL_VERSION};
use bitcoin_handshake::{Address, OtherMessage, Version};

fn localhost(port: u16) -> Address {
    Address { services: 0, address: [0, 0, 0, 0, 0, 0xffff, 0x7f00, 1], port }
}

#[test]
fn protocol_constants() {
    assert_eq!(PROTOCOL_VERSION, 70001);
    assert_eq!(PROTOCOL_VERSION, bitcoin::network::constants::PROTOCOL_VERSION);
    assert_eq!(COMMAND_SIZE, 12);
}

#[test]
fn new_version_sets_protocol_version_and_no_relay() {
    let version = Version::new(3, -5, localhost(1), localhost(2), 99, "ua".to_string(), -1);
    assert_eq!(
        version,
        Version {
            version: 70001,
            services: 3,
            timestamp: -5,
            receiver: localhost(1),
            sender: localhost(2),
            nonce: 99,
            user_agent: "ua".to_string(),
            start_height: -1,
            relay: false,
        }
    );
}

#[test]
fn other_message_keeps_command_and_payload() {
    let other = OtherMessage::new("addr".to_string(), vec![9, 8, 7]).unwrap();
    assert_eq!(other.command(), "addr");
    assert_eq!(other.payload(), &vec![9, 8, 7]);
}

#[test]
fn other_message_accepts_an_empty_command() {
    let other = OtherMessage::new(String::new(), Vec::new()).unwrap();
    assert_eq!(other.command(), "");
    assert!(other.payload().is_empty());
}

#[test]
fn other_message_accepts_twelve_bytes_of_command() {
    assert!(OtherMessage::new("sendheaders1".to_string(), Vec::new()).is_some());
}

#[test]
fn other_message_refuses_thirteen_bytes_of_command() {
    assert_eq!(OtherMessage::new("sendheaders12".to_string(), vec![1]), None);
}

#[test]
fn other_message_counts_bytes_not_characters() {
    // six characters of two bytes each fit, seven do not
    assert!(OtherMessage::new("éééééé".to_string(), Vec::new()).is_some());
    assert_eq!(OtherMessage::new("ééééééé".to_string(), Vec::new()), None);
}

#[test]
fn clone_of_other_message_is_equal() {
    let other = OtherMessage::new("inv".to_string(), vec![1, 2]).unwrap();
    let copy = other.clone();
    assert_eq!(copy, other);
    assert_eq!(copy.command(), "inv");
    assert_eq!(copy.payload(), &vec![1, 2]);
}
