use hello_aarch64_wifi_adb::adb::{A_OPEN, A_WRTE, MAX_PAYLOAD};
use hello_aarch64_wifi_adb::transport::{ATransport, MemStream};
use hello_aarch64_wifi_adb::types::{AMessage, APacket, AdbError};

fn loopback(bytes: Vec<u8>) -> ATransport<MemStream> {
    ATransport::new(MemStream::new(bytes))
}

#[test]
fn frame_round_trip_over_loopback() {
    let mut packet = APacket::new(A_WRTE);
    packet.msg.arg0 = 3;
    packet.msg.arg1 = 4;
    packet.payload = b"framed payload bytes".to_vec();
    let sent_payload = packet.payload.clone();

    let mut out = loopback(Vec::new());
    let n = out.send_apacket(packet).unwrap();
    assert_eq!(24 + sent_payload.len(), n);
    let wire = out.stream().written().clone();
    assert_eq!(n, wire.len());

    let mut back = loopback(wire);
    let received = back.read_apacket().unwrap();
    assert_eq!(A_WRTE, received.msg.command);
    assert_eq!(3, received.msg.arg0);
    assert_eq!(4, received.msg.arg1);
    assert_eq!(sent_payload.len() as u32, received.msg.data_length);
    assert_eq!(sent_payload, received.payload);
    assert_eq!(A_WRTE ^ 0xffffffff, received.msg.magic);
}

#[test]
fn empty_payload_round_trip() {
    let packet = APacket::new(A_OPEN);
    let mut out = loopback(Vec::new());
    assert_eq!(24, out.send_apacket(packet).unwrap());
    let wire = out.stream().written().clone();
    let mut back = loopback(wire);
    let received = back.read_apacket().unwrap();
    assert_eq!(A_OPEN, received.msg.command);
    assert_eq!(0, received.msg.data_length);
    assert!(received.payload.is_empty());
}

#[test]
fn send_sets_data_length_from_payload() {
    let mut packet = APacket::new(A_WRTE);
    packet.msg.data_length = 999; // stale value; sending must override it
    packet.payload = vec![1, 2, 3];
    let mut out = loopback(Vec::new());
    out.send_apacket(packet).unwrap();
    let wire = out.stream().written().clone();
    let header = AMessage::from(&wire).unwrap();
    assert_eq!(3, header.data_length);
}

#[test]
fn read_rejects_unknown_command() {
    let msg = AMessage::new(0xdeadbeef);
    let wire = msg.bytes().unwrap();
    let mut t = loopback(wire);
    assert_eq!(Err(AdbError::UnknownCommand), t.read_apacket().map(|p| p.msg.command));
}

#[test]
fn read_rejects_oversized_payload() {
    let mut msg = AMessage::new(A_WRTE);
    msg.data_length = MAX_PAYLOAD + 1;
    let wire = msg.bytes().unwrap();
    let mut t = loopback(wire);
    assert_eq!(Err(AdbError::PayloadTooLarge), t.read_apacket().map(|p| p.msg.command));
}

#[test]
fn read_fails_on_short_header() {
    let mut t = loopback(vec![0u8; 10]);
    assert_eq!(Err(AdbError::Io), t.read_apacket().map(|p| p.msg.command));
}

#[test]
fn read_fails_on_short_payload() {
    let mut msg = AMessage::new(A_WRTE);
    msg.data_length = 8;
    let mut wire = msg.bytes().unwrap();
    wire.extend_from_slice(&[1, 2, 3]); // three bytes where eight are promised
    let mut t = loopback(wire);
    assert_eq!(Err(AdbError::Io), t.read_apacket().map(|p| p.msg.command));
}

#[test]
fn stream_hands_back_the_endpoint() {
    let t = loopback(vec![9, 9, 9]);
    // after this consuming call the transport is gone; only the endpoint remains
    let endpoint = t.stream();
    assert_eq!(0, endpoint.written().len());
}
