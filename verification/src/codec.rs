//! Packet framing and payload serialization.
//!
//! A wire packet is an 8-byte little-endian message identifier followed by the
//! serialized payload.  The identifier tells the registry which kind the
//! payload belongs to; the payload bytes are opaque at this layer.  A packet
//! with fewer than 8 bytes is malformed; an empty payload is legal.
//!
//! Payloads are serialized as CBOR.  Encoded packets above the transport's
//! size ceiling are rejected at encode time, never truncated.

use vstd::bytes::{spec_u64_from_le_bytes, spec_u64_to_le_bytes};
use vstd::prelude::*;

verus! {

/// The transport's maximum packet size in bytes, header included.
pub const MAX_PACKET_BYTES: usize = 1200;

/// The length of the message-identifier header.
pub const HEADER_BYTES: usize = 8;

/// Why a packet's header could not be read.
#[derive(Clone, Copy, PartialEq, Eq, Structural, Debug)]
pub enum FramingError {
    /// Fewer than `HEADER_BYTES` bytes were present.
    Truncated,
}

/// Why a payload could not be turned into a packet.
#[derive(Clone, Copy, PartialEq, Eq, Structural, Debug)]
pub enum EncodeError {
    /// The framed packet would exceed `MAX_PACKET_BYTES`.
    TooLarge,
    /// The payload could not be serialized.
    SerializationFailed,
}

/// The bytes of a packet carrying `id` and `payload`.
pub open spec fn framed(id: u64, payload: Seq<u8>) -> Seq<u8> {
    spec_u64_to_le_bytes(id) + payload
}

/// Frame a serialized payload behind its message identifier.
///
/// Fails with `TooLarge` exactly when the framed packet would exceed
/// `MAX_PACKET_BYTES`.
pub fn frame_packet(id: u64, payload: Vec<u8>) -> (r: Result<Vec<u8>, EncodeError>)
    ensures
        r is Err <==> payload@.len() + HEADER_BYTES > MAX_PACKET_BYTES,
        r is Err ==> r == Err::<Vec<u8>, EncodeError>(EncodeError::TooLarge),
        r matches Ok(b) ==> b@ == framed(id, payload@),
{
    if payload.len() > MAX_PACKET_BYTES - HEADER_BYTES {
        return Err(EncodeError::TooLarge);
    }
    proof {
        vstd::bytes::lemma_auto_spec_u64_to_from_le_bytes();
    }
    let mut out = vstd::bytes::u64_to_le_bytes(id);
    let mut rest = payload;
    out.append(&mut rest);
    Ok(out)
}

/// Split a raw packet into its message identifier and its payload.
///
/// Fails with `Truncated` exactly when fewer than `HEADER_BYTES` bytes are
/// present; such a packet never reaches the registry.  Only the input slice is
/// consulted, nothing is copied.
pub fn decode_header<'a>(packet: &'a [u8]) -> (r: Result<(u64, &'a [u8]), FramingError>)
    ensures
        r is Err <==> packet@.len() < HEADER_BYTES,
        r is Err ==> r == Err::<(u64, &'a [u8]), FramingError>(FramingError::Truncated),
        r matches Ok(p) ==> p.0 == spec_u64_from_le_bytes(packet@.subrange(0, HEADER_BYTES as int))
            && p.1@ == packet@.skip(HEADER_BYTES as int),
{
    if packet.len() < HEADER_BYTES {
        return Err(FramingError::Truncated);
    }
    let header = vstd::slice::slice_subrange(packet, 0, HEADER_BYTES);
    let id = vstd::bytes::u64_from_le_bytes(header);
    let payload = vstd::slice::slice_subrange(packet, HEADER_BYTES, packet.len());
    Ok((id, payload))
}

/// Framing round trip: reading the header of a freshly framed packet yields
/// the identifier and the payload that went in, for every identifier and every
/// payload.
pub proof fn lemma_frame_round_trip(id: u64, payload: Seq<u8>)
    ensures
        framed(id, payload).len() == HEADER_BYTES + payload.len(),
        spec_u64_from_le_bytes(framed(id, payload).subrange(0, HEADER_BYTES as int)) == id,
        framed(id, payload).skip(HEADER_BYTES as int) == payload,
{
    vstd::bytes::lemma_auto_spec_u64_to_from_le_bytes();
    assert(framed(id, payload).subrange(0, HEADER_BYTES as int) =~= spec_u64_to_le_bytes(id));
    assert(framed(id, payload).skip(HEADER_BYTES as int) =~= payload);
}

/// Relies on ciborium::ser::into_writer: serializes `value` as one CBOR item
/// into a byte vector.
#[verifier::external_body]
pub(crate) fn cbor_to_vec<T: serde::Serialize>(value: &T) -> (r: Result<Vec<u8>, ()>) {
    let mut out: Vec<u8> = Vec::new();
    match ciborium::ser::into_writer(value, &mut out) {
        Ok(()) => Ok(out),
        Err(_) => Err(()),
    }
}

/// Relies on ciborium::de::from_reader: deserializes one CBOR item from the
/// bytes.
#[verifier::external_body]
pub(crate) fn cbor_from_slice<T: serde::de::DeserializeOwned>(bytes: &[u8]) -> (r: Result<T, ()>) {
    match ciborium::de::from_reader(std::io::Cursor::new(bytes)) {
        Ok(v) => Ok(v),
        Err(_) => Err(()),
    }
}

/// Serialize a payload and frame it behind its message identifier.
///
/// Fails with `SerializationFailed` when the payload cannot be serialized and
/// with `TooLarge` when the framed packet would exceed `MAX_PACKET_BYTES`.
pub fn encode_message<T: serde::Serialize>(id: u64, payload: &T) -> (r: Result<
    Vec<u8>,
    EncodeError,
>)
    ensures
        r matches Ok(b) ==> {
            &&& HEADER_BYTES <= b@.len() <= MAX_PACKET_BYTES
            &&& b@.subrange(0, HEADER_BYTES as int) == spec_u64_to_le_bytes(id)
        },
{
    match cbor_to_vec(payload) {
        Err(()) => Err(EncodeError::SerializationFailed),
        Ok(bytes) => {
            let ghost payload_bytes = bytes@;
            let r = frame_packet(id, bytes);
            proof {
                if r is Ok {
                    lemma_frame_round_trip(id, payload_bytes);
                    assert(framed(id, payload_bytes).subrange(0, HEADER_BYTES as int)
                        =~= spec_u64_to_le_bytes(id));
                }
            }
            r
        },
    }
}

} // verus!
