use discord_presence_rs::error::Error;
use discord_presence_rs::frame::{decode_frame, decode_header, encode_frame};

#[test]
fn round_trip_empty_payload() {
    let payload: Vec<u8> = Vec::new();
    let frame = encode_frame(0, &payload).unwrap();
    assert_eq!(frame, vec![0, 0, 0, 0, 0, 0, 0, 0]);
    let (opcode, decoded, consumed) = decode_frame(&frame).unwrap();
    assert_eq!(opcode, 0);
    assert_eq!(decoded, payload);
    assert_eq!(consumed, 8);
}

#[test]
fn round_trip_with_payload() {
    let payload = b"hello".to_vec();
    let frame = encode_frame(1, &payload).unwrap();
    assert_eq!(frame.len(), 8 + 5);
    assert_eq!(&frame[0..4], &[1, 0, 0, 0]);
    assert_eq!(&frame[4..8], &[5, 0, 0, 0]);
    assert_eq!(&frame[8..], b"hello");
    let (opcode, decoded, consumed) = decode_frame(&frame).unwrap();
    assert_eq!(opcode, 1);
    assert_eq!(decoded, payload);
    assert_eq!(consumed, 13);
}

#[test]
fn round_trip_every_opcode() {
    for opcode in [0u32, 1, 2, 7, 0xffff_ffff] {
        let payload = vec![0u8, 255, 42];
        let frame = encode_frame(opcode, &payload).unwrap();
        let (got_opcode, got_payload, consumed) = decode_frame(&frame).unwrap();
        assert_eq!(got_opcode, opcode);
        assert_eq!(got_payload, payload);
        assert_eq!(consumed, frame.len());
    }
}

#[test]
fn decode_consumes_exactly_declared_length() {
    let payload = b"abc".to_vec();
    let mut bytes = encode_frame(2, &payload).unwrap();
    bytes.extend_from_slice(b"TRAILING JUNK");
    let (opcode, decoded, consumed) = decode_frame(&bytes).unwrap();
    assert_eq!(opcode, 2);
    assert_eq!(decoded, b"abc".to_vec());
    assert_eq!(consumed, 8 + 3);
}

#[test]
fn decode_fails_on_short_header() {
    let bytes = vec![1, 0, 0, 0, 5, 0, 0];
    assert_eq!(decode_frame(&bytes).unwrap_err(), Error::Io);
}

#[test]
fn decode_fails_on_truncated_payload() {
    let mut bytes = encode_frame(1, &b"hello".to_vec()).unwrap();
    bytes.pop();
    assert_eq!(decode_frame(&bytes).unwrap_err(), Error::Io);
}

#[test]
fn header_fields_are_little_endian() {
    let header = vec![0x01, 0x02, 0x00, 0x00, 0x10, 0x00, 0x00, 0x00];
    let (opcode, len) = decode_header(&header);
    assert_eq!(opcode, 0x0201);
    assert_eq!(len, 16);
}
