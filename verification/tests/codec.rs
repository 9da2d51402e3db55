use hello_aarch64_wifi_adb::adb::{A_CNXN, A_OKAY, A_STLS, A_SYNC, A_VERSION, MAX_PAYLOAD};
use hello_aarch64_wifi_adb::types::{parse_write_payload, validate_header, AMessage, AdbError};

#[test]
fn connect_header_exact_bytes() {
    let mut msg = AMessage::new(A_CNXN);
    msg.arg0 = A_VERSION;
    msg.arg1 = MAX_PAYLOAD;
    let bytes = msg.bytes().unwrap();
    let expected: Vec<u8> = vec![
        0x43, 0x4e, 0x58, 0x4e, // command, little-endian
        0x01, 0x00, 0x00, 0x01, // arg0 = protocol version
        0x00, 0x00, 0x10, 0x00, // arg1 = maximum payload size
        0x00, 0x00, 0x00, 0x00, // data_length
        0x00, 0x00, 0x00, 0x00, // data_check
        0xbc, 0xb1, 0xa7, 0xb1, // magic = command XOR 0xffffffff
    ];
    assert_eq!(expected, bytes);
}

#[test]
fn header_round_trip_recomputes_magic() {
    let msg = AMessage {
        command: A_OKAY,
        arg0: 7,
        arg1: 11,
        data_length: 13,
        data_check: 17,
        magic: 0x12345678, // stale value; every encode must override it
    };
    let bytes = msg.bytes().unwrap();
    assert_eq!(24, bytes.len());
    let back = AMessage::from(&bytes).unwrap();
    assert_eq!(A_OKAY, back.command);
    assert_eq!(7, back.arg0);
    assert_eq!(11, back.arg1);
    assert_eq!(13, back.data_length);
    assert_eq!(17, back.data_check);
    assert_eq!(A_OKAY ^ 0xffffffff, back.magic);
}

#[test]
fn decode_rejects_short_buffer() {
    let buf = vec![0u8; 23];
    assert_eq!(Err(AdbError::TruncatedHeader), AMessage::from(&buf));
}

#[test]
fn decode_performs_no_semantic_validation() {
    let mut msg = AMessage::new(0xdeadbeef);
    msg.data_length = MAX_PAYLOAD + 1;
    let bytes = msg.bytes().unwrap();
    let back = AMessage::from(&bytes).unwrap();
    assert_eq!(0xdeadbeef, back.command);
    assert_eq!(MAX_PAYLOAD + 1, back.data_length);
}

#[test]
fn command_names() {
    assert_eq!("SYNC", AMessage::new(A_SYNC).command());
    assert_eq!("CNXN", AMessage::new(A_CNXN).command());
    assert_eq!("STLS", AMessage::new(A_STLS).command());
    assert_eq!("OKAY", AMessage::new(A_OKAY).command());
}

#[test]
fn validate_header_checks_magic_and_command_set() {
    let mut msg = AMessage::new(A_CNXN);
    msg.magic = A_CNXN ^ 0xffffffff;
    assert!(validate_header(&msg));
    msg.magic = 0;
    assert!(!validate_header(&msg));
    let mut unknown = AMessage::new(0x01020304);
    unknown.magic = 0x01020304 ^ 0xffffffff;
    assert!(!validate_header(&unknown));
}

#[test]
fn write_payload_decodes_stream_id_and_text() {
    let mut payload: Vec<u8> = vec![0x01, 0x07, 0x00, 0x00, 0x00];
    payload.extend_from_slice(b"A,B,C,D");
    let (id, data) = parse_write_payload(&payload).unwrap();
    assert_eq!(1, id);
    assert_eq!(b"A,B,C,D".to_vec(), data);
    assert_eq!("A,B,C,D", String::from_utf8(data).unwrap());
}

#[test]
fn write_payload_rejects_bad_layout() {
    assert_eq!(Err(AdbError::MalformedPayload), parse_write_payload(&[1, 2, 0]));
    // declared length longer than the data that follows
    let payload: Vec<u8> = vec![0x01, 0x08, 0x00, 0x00, 0x00, b'x'];
    assert_eq!(Err(AdbError::MalformedPayload), parse_write_payload(&payload));
}
