use skynet::codec::{
    decode_header, encode_message, frame_packet, EncodeError, FramingError, HEADER_BYTES,
    MAX_PACKET_BYTES,
};

/// Framing round trip: the header of a framed packet decodes back to the
/// identifier and the payload that went in.
#[test]
fn frame_then_decode_header_round_trips() {
    let id: u64 = 0x0123_4567_89ab_cdef;
    let payload = vec![9u8, 8, 7, 6, 5];
    let packet = frame_packet(id, payload.clone()).unwrap();
    assert_eq!(packet.len(), HEADER_BYTES + payload.len());
    let (got_id, rest) = decode_header(&packet).unwrap();
    assert_eq!(got_id, id);
    assert_eq!(rest, &payload[..]);
}

#[test]
fn header_is_the_little_endian_identifier() {
    let id: u64 = 0x0102_0304_0506_0708;
    let packet = frame_packet(id, Vec::new()).unwrap();
    assert_eq!(packet, id.to_le_bytes().to_vec());
}

/// Every byte sequence shorter than the header fails with `Truncated`.
#[test]
fn short_packets_are_truncated() {
    for n in 0..HEADER_BYTES {
        let bytes = vec![0xaau8; n];
        assert_eq!(decode_header(&bytes), Err(FramingError::Truncated));
    }
    let exact = vec![0u8; HEADER_BYTES];
    assert!(decode_header(&exact).is_ok(), "an empty payload is legal");
}

#[test]
fn oversized_payload_is_rejected_not_truncated() {
    let payload = vec![0u8; MAX_PACKET_BYTES - HEADER_BYTES];
    assert!(frame_packet(1, payload).is_ok());
    let too_big = vec![0u8; MAX_PACKET_BYTES - HEADER_BYTES + 1];
    assert_eq!(frame_packet(1, too_big), Err(EncodeError::TooLarge));
}

/// Serialization round trip: an encoded message's payload decodes, with the
/// serialization library itself, to the value that went in.
#[test]
fn encode_message_payload_round_trips_through_cbor() {
    let id: u64 = 42;
    let value: (u32, String) = (7, "hello".to_string());
    let packet = encode_message(id, &value).unwrap();
    let (got_id, rest) = decode_header(&packet).unwrap();
    assert_eq!(got_id, id);
    let back: (u32, String) = ciborium::de::from_reader(std::io::Cursor::new(rest)).unwrap();
    assert_eq!(back, value);
}

struct Unserializable;

impl serde::Serialize for Unserializable {
    fn serialize<S: serde::Serializer>(&self, _serializer: S) -> Result<S::Ok, S::Error> {
        Err(serde::ser::Error::custom("this payload never serializes"))
    }
}

#[test]
fn failing_serialization_is_reported() {
    assert_eq!(
        encode_message(1, &Unserializable),
        Err(EncodeError::SerializationFailed)
    );
}
