use metro::{MetroError, MetroPacket, PAYLOAD_CAPACITY};

#[test]
fn capacity_is_256_bytes() {
    assert_eq!(PAYLOAD_CAPACITY, 256);
}

#[test]
fn new_packet_is_empty_on_port_zero() {
    let packet = MetroPacket::new();
    assert_eq!(packet.port(), 0);
    assert_eq!(packet.len(), 0);
    assert!(packet.payload().is_empty());
}

#[test]
fn default_packet_is_the_new_packet() {
    let packet = MetroPacket::default();
    assert_eq!(packet.port(), 0);
    assert_eq!(packet.len(), 0);
    assert!(packet == MetroPacket::new());
}

#[test]
fn with_payload_keeps_port_and_bytes() {
    let packet = MetroPacket::with_payload(0, &[0xDE, 0xAD, 0xBE, 0xEF]).unwrap();
    assert_eq!(packet.port(), 0);
    assert_eq!(packet.len(), 4);
    assert_eq!(packet.payload(), &[0xDE, 0xAD, 0xBE, 0xEF]);
}

#[test]
fn with_payload_keeps_the_highest_port() {
    let packet = MetroPacket::with_payload(255, &[7]).unwrap();
    assert_eq!(packet.port(), 255);
    assert_eq!(packet.len(), 1);
    assert_eq!(packet.payload(), &[7]);
}

#[test]
fn with_payload_accepts_an_empty_payload() {
    let packet = MetroPacket::with_payload(9, &[]).unwrap();
    assert_eq!(packet.port(), 9);
    assert_eq!(packet.len(), 0);
    assert!(packet.payload().is_empty());
}

#[test]
fn with_payload_accepts_a_full_buffer() {
    let mut bytes: Vec<u8> = Vec::new();
    for i in 0..256usize {
        bytes.push((i % 251) as u8);
    }
    let packet = MetroPacket::with_payload(17, &bytes).unwrap();
    assert_eq!(packet.port(), 17);
    assert_eq!(packet.len(), 256);
    assert_eq!(packet.payload(), &bytes[..]);
}

#[test]
fn with_payload_accepts_one_byte_less_than_full() {
    let bytes = vec![0xA5u8; 255];
    let packet = MetroPacket::with_payload(1, &bytes).unwrap();
    assert_eq!(packet.len(), 255);
    assert_eq!(packet.payload(), &bytes[..]);
}

#[test]
fn with_payload_rejects_one_byte_too_many() {
    let bytes = vec![1u8; 257];
    let built = MetroPacket::with_payload(3, &bytes);
    assert_eq!(built.err(), Some(MetroError::PayloadTooLarge));
}

#[test]
fn with_payload_rejects_a_far_too_long_payload() {
    let bytes = vec![0u8; 4096];
    assert!(matches!(MetroPacket::with_payload(0, &bytes), Err(MetroError::PayloadTooLarge)));
}

#[test]
fn clone_keeps_port_length_and_bytes() {
    let packet = MetroPacket::with_payload(42, &[1, 2, 3]).unwrap();
    let copy = packet.clone();
    assert_eq!(copy.port(), 42);
    assert_eq!(copy.len(), 3);
    assert_eq!(copy.payload(), &[1, 2, 3]);
    assert!(copy == packet);
}

#[test]
fn packets_with_the_same_port_and_bytes_are_equal() {
    let a = MetroPacket::with_payload(4, &[10, 20, 30]).unwrap();
    let b = MetroPacket::with_payload(4, &[10, 20, 30]).unwrap();
    assert!(a == b);
}

#[test]
fn packets_differ_by_port() {
    let a = MetroPacket::with_payload(4, &[10, 20, 30]).unwrap();
    let b = MetroPacket::with_payload(5, &[10, 20, 30]).unwrap();
    assert!(a != b);
}

#[test]
fn packets_differ_by_a_byte() {
    let a = MetroPacket::with_payload(4, &[10, 20, 30]).unwrap();
    let b = MetroPacket::with_payload(4, &[10, 21, 30]).unwrap();
    assert!(a != b);
}

#[test]
fn packets_differ_by_length() {
    let a = MetroPacket::with_payload(4, &[10, 20, 30]).unwrap();
    let b = MetroPacket::with_payload(4, &[10, 20]).unwrap();
    let c = MetroPacket::with_payload(4, &[10, 20, 0]).unwrap();
    assert!(a != b);
    assert!(b != c);
}
