use sup_client::codec::{
    decode, encode, SrvCodec, SrvMessage, SrvTxn, MAX_BODY_LEN, MAX_MESSAGE_ID_LEN, MAX_TXN_ID,
};
use sup_client::error::DecodeError;

fn message(id: &str, txn: Option<SrvTxn>, body: &[u8]) -> SrvMessage {
    SrvMessage { message_id: id.to_string(), transaction: txn, body: body.to_vec() }
}

fn frame(m: &SrvMessage) -> Vec<u8> {
    let mut out = Vec::new();
    encode(m, &mut out);
    out
}

fn same(a: &SrvMessage, b: &SrvMessage) -> bool {
    a.message_id == b.message_id && a.transaction == b.transaction && a.body == b.body
}

#[test]
fn frame_bytes_with_transaction() {
    let m = message("Ping", Some(SrvTxn { id: 1, complete: false }), &[1, 2, 3]);
    assert_eq!(
        frame(&m),
        vec![0x04, 0x40, 0x00, 0x03, 0, 0, 0, 1, b'P', b'i', b'n', b'g', 1, 2, 3]
    );
}

#[test]
fn frame_bytes_without_transaction() {
    let m = message("Ping", None, &[]);
    assert_eq!(frame(&m), vec![0x00, 0x40, 0x00, 0x00, b'P', b'i', b'n', b'g']);
}

#[test]
fn frame_bytes_complete_flag() {
    let m = message("A", Some(SrvTxn { id: 2, complete: true }), &[9]);
    assert_eq!(frame(&m), vec![0x04, 0x10, 0x00, 0x01, 0x80, 0, 0, 2, b'A', 9]);
}

#[test]
fn encode_appends_to_existing_bytes() {
    let m = message("A", None, &[]);
    let mut out = vec![7u8];
    encode(&m, &mut out);
    assert_eq!(out, vec![7, 0x00, 0x10, 0x00, 0x00, b'A']);
}

#[test]
fn round_trip_with_trailing_bytes() {
    let m = message("ServiceStatus", Some(SrvTxn { id: 77, complete: true }), b"payload");
    let mut bytes = frame(&m);
    let len = bytes.len();
    bytes.extend_from_slice(&[0xAA, 0xBB]);
    let (back, n) = decode(&bytes).unwrap().unwrap();
    assert!(same(&back, &m));
    assert_eq!(n, len);
}

#[test]
fn round_trip_utf8_identifier() {
    let m = message("Grüße", None, &[0, 255]);
    let bytes = frame(&m);
    let (back, n) = decode(&bytes).unwrap().unwrap();
    assert!(same(&back, &m));
    assert_eq!(n, bytes.len());
}

#[test]
fn round_trip_largest_message() {
    let id = "x".repeat(MAX_MESSAGE_ID_LEN);
    let body = vec![5u8; MAX_BODY_LEN];
    let m = message(&id, Some(SrvTxn { id: MAX_TXN_ID, complete: true }), &body);
    assert!(m.is_valid());
    let bytes = frame(&m);
    assert_eq!(bytes.len(), 8 + MAX_MESSAGE_ID_LEN + MAX_BODY_LEN);
    let (back, n) = decode(&bytes).unwrap().unwrap();
    assert!(same(&back, &m));
    assert_eq!(n, bytes.len());
}

#[test]
fn every_proper_prefix_is_incomplete() {
    let m = message("Handshake", Some(SrvTxn { id: 0, complete: false }), b"secret");
    let bytes = frame(&m);
    for k in 0..bytes.len() {
        assert!(decode(&bytes[..k]).unwrap().is_none(), "prefix of {} bytes", k);
    }
}

#[test]
fn byte_by_byte_delivery_decodes_once() {
    let m = message("SvcStatus", Some(SrvTxn { id: 1, complete: false }), b"abc");
    let bytes = frame(&m);
    let mut codec = SrvCodec::new();
    let mut got = Vec::new();
    for b in &bytes {
        codec.feed(&[*b]);
        if let Some(msg) = codec.next_message().unwrap() {
            got.push(msg);
        }
    }
    assert_eq!(got.len(), 1);
    assert!(same(&got[0], &m));
    assert!(codec.end_of_stream().is_ok());
}

#[test]
fn two_frames_in_uneven_chunks() {
    let a = message("First", None, b"one");
    let b = message("Second", Some(SrvTxn { id: 3, complete: true }), b"two");
    let mut bytes = frame(&a);
    bytes.extend(frame(&b));
    let mut codec = SrvCodec::new();
    let mut got = Vec::new();
    for chunk in bytes.chunks(5) {
        codec.feed(chunk);
        while let Some(msg) = codec.next_message().unwrap() {
            got.push(msg);
        }
    }
    assert_eq!(got.len(), 2);
    assert!(same(&got[0], &a));
    assert!(same(&got[1], &b));
}

#[test]
fn stream_ending_inside_a_frame_is_truncated() {
    let m = message("Ping", None, b"abc");
    let bytes = frame(&m);
    let mut codec = SrvCodec::new();
    codec.feed(&bytes[..bytes.len() - 1]);
    assert!(codec.next_message().unwrap().is_none());
    assert_eq!(codec.end_of_stream(), Err(DecodeError::Truncated));
}

#[test]
fn reserved_bits_are_malformed() {
    assert_eq!(decode(&[0x08, 0x10, 0, 0, b'A']).unwrap_err(), DecodeError::ReservedBits);
}

#[test]
fn empty_identifier_is_malformed() {
    assert_eq!(decode(&[0, 0, 0, 0]).unwrap_err(), DecodeError::EmptyMessageId);
}

#[test]
fn invalid_utf8_identifier_is_malformed() {
    assert_eq!(decode(&[0x00, 0x10, 0, 0, 0xFF]).unwrap_err(), DecodeError::InvalidMessageId);
}

#[test]
fn malformed_frame_stays_pending() {
    let mut codec = SrvCodec::new();
    codec.feed(&[0, 0, 0, 0]);
    assert_eq!(codec.next_message().unwrap_err(), DecodeError::EmptyMessageId);
    assert_eq!(codec.next_message().unwrap_err(), DecodeError::EmptyMessageId);
}

#[test]
fn validity_limits() {
    assert!(!message("", None, &[]).is_valid());
    assert!(!message(&"x".repeat(MAX_MESSAGE_ID_LEN + 1), None, &[]).is_valid());
    assert!(!message("A", None, &vec![0u8; MAX_BODY_LEN + 1]).is_valid());
    assert!(!message("A", Some(SrvTxn { id: MAX_TXN_ID + 1, complete: false }), &[]).is_valid());
    assert!(message("A", Some(SrvTxn { id: MAX_TXN_ID, complete: false }), &[]).is_valid());
}

#[test]
fn transaction_increment_and_wrap() {
    let mut t = SrvTxn::new();
    assert_eq!(t, SrvTxn { id: 0, complete: false });
    t.increment();
    assert_eq!(t.id, 1);
    let mut last = SrvTxn { id: MAX_TXN_ID, complete: true };
    last.increment();
    assert_eq!(last, SrvTxn { id: 0, complete: false });
}
