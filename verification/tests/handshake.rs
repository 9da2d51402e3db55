use hello_aarch64_wifi_adb::adb::{
    A_CNXN, A_OKAY, A_STLS, A_STLS_VERSION, A_SYNC, A_VERSION, MAX_PAYLOAD,
};
use hello_aarch64_wifi_adb::handshake::{
    expect_apacket, handshake_step, run_plain_handshake, HandshakeEvent, HandshakeState,
};
use hello_aarch64_wifi_adb::transport::{ATransport, MemStream};
use hello_aarch64_wifi_adb::types::{AMessage, AdbError};

fn header_only_frame(command: u32) -> Vec<u8> {
    AMessage::new(command).bytes().unwrap()
}

#[test]
fn step_table_happy_path() {
    let s = handshake_step(HandshakeState::Start, HandshakeEvent::SentConnect).unwrap();
    assert_eq!(HandshakeState::ConnectSent, s);
    let s = handshake_step(s, HandshakeEvent::ReceivedCommand(A_STLS)).unwrap();
    assert_eq!(HandshakeState::UpgradeRequested, s);
    let s = handshake_step(s, HandshakeEvent::SentUpgradeAck).unwrap();
    assert_eq!(HandshakeState::UpgradeAckSent, s);
    let s = handshake_step(s, HandshakeEvent::UpgradeCompleted).unwrap();
    assert_eq!(HandshakeState::Encrypted, s);
    let s = handshake_step(s, HandshakeEvent::ReceivedCommand(A_CNXN)).unwrap();
    assert_eq!(HandshakeState::Ready, s);
}

#[test]
fn step_rejects_wrong_reply() {
    assert_eq!(
        Err(AdbError::UnexpectedCommand),
        handshake_step(HandshakeState::ConnectSent, HandshakeEvent::ReceivedCommand(A_OKAY)),
    );
    assert_eq!(
        Err(AdbError::UnexpectedCommand),
        handshake_step(HandshakeState::Encrypted, HandshakeEvent::ReceivedCommand(A_SYNC)),
    );
}

#[test]
fn step_rejects_events_out_of_order() {
    assert_eq!(
        Err(AdbError::OutOfOrder),
        handshake_step(HandshakeState::Start, HandshakeEvent::UpgradeCompleted),
    );
    assert_eq!(
        Err(AdbError::OutOfOrder),
        handshake_step(HandshakeState::Ready, HandshakeEvent::SentConnect),
    );
    assert_eq!(
        Err(AdbError::OutOfOrder),
        handshake_step(HandshakeState::UpgradeAckSent, HandshakeEvent::SentUpgradeAck),
    );
}

#[test]
fn handshake_reaches_ready_against_compliant_peer() {
    // the mock peer answers the connect request with an upgrade request, and
    // confirms with a connect frame once the stream is "encrypted"
    let mut peer_replies = header_only_frame(A_STLS);
    peer_replies.extend_from_slice(&header_only_frame(A_CNXN));
    let mut t = ATransport::new(MemStream::new(peer_replies));

    let state = run_plain_handshake(&mut t).unwrap();
    assert_eq!(HandshakeState::UpgradeAckSent, state);

    // the upgrade consumes the raw endpoint and a new transport is built over
    // the upgraded stream; the loopback stands in for the encrypted endpoint
    let endpoint = t.stream();
    let mut t = ATransport::new(endpoint);
    let state = handshake_step(state, HandshakeEvent::UpgradeCompleted).unwrap();
    assert_eq!(HandshakeState::Encrypted, state);

    let confirmation = expect_apacket(&mut t, A_CNXN).unwrap();
    let state =
        handshake_step(state, HandshakeEvent::ReceivedCommand(confirmation.msg.command)).unwrap();
    assert_eq!(HandshakeState::Ready, state);

    // everything sent: the connect request, then the upgrade acknowledgement
    let written = t.stream().written().clone();
    let mut connect = AMessage::new(A_CNXN);
    connect.arg0 = A_VERSION;
    connect.arg1 = MAX_PAYLOAD;
    let mut stls = AMessage::new(A_STLS);
    stls.arg0 = A_STLS_VERSION;
    let mut expected = connect.bytes().unwrap();
    expected.extend_from_slice(&stls.bytes().unwrap());
    assert_eq!(expected, written);
}

#[test]
fn handshake_fails_fast_on_wrong_first_reply() {
    // the mock peer replies OKAY instead of the upgrade request
    let peer_replies = header_only_frame(A_OKAY);
    let mut t = ATransport::new(MemStream::new(peer_replies));

    assert_eq!(Err(AdbError::UnexpectedCommand), run_plain_handshake(&mut t));

    // no upgrade acknowledgement went out, so no encryption attempt follows:
    // only the 24 connect-request bytes were written
    let written = t.stream().written().clone();
    let mut connect = AMessage::new(A_CNXN);
    connect.arg0 = A_VERSION;
    connect.arg1 = MAX_PAYLOAD;
    assert_eq!(connect.bytes().unwrap(), written);
}

#[test]
fn connect_request_carries_version_and_max_payload() {
    let mut t = ATransport::new(MemStream::new(header_only_frame(A_STLS)));
    let state = run_plain_handshake(&mut t).unwrap();
    assert_eq!(HandshakeState::UpgradeAckSent, state);
    let written = t.stream().written().clone();
    let header = AMessage::from(&written).unwrap();
    assert_eq!(A_CNXN, header.command);
    assert_eq!(A_VERSION, header.arg0);
    assert_eq!(MAX_PAYLOAD, header.arg1);
    assert_eq!(0, header.data_length);
}
