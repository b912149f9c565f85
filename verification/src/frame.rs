//! The wire frame codec.
//!
//! One frame is the opcode and the payload length, each as a 4-byte
//! little-endian unsigned integer, followed by the raw payload bytes. The
//! codec is pure: it turns a frame into bytes and bytes back into a frame,
//! and never touches a transport.

use vstd::prelude::*;
use vstd::bytes::{
    lemma_auto_spec_u32_to_from_le_bytes, spec_u32_from_le_bytes, spec_u32_to_le_bytes,
    u32_from_le_bytes, u32_to_le_bytes,
};
use vstd::slice::{slice_subrange, slice_to_vec};
use crate::error::Error;

verus! {

/// The opcode that opens a session.
pub const OP_HANDSHAKE: u32 = 0;

/// The opcode that carries a command while the session is ready.
pub const OP_MESSAGE: u32 = 1;

/// The opcode that ends a session.
pub const OP_CLOSE: u32 = 2;

/// The bytes of one frame on the wire.
pub open spec fn frame_bytes(opcode: u32, payload: Seq<u8>) -> Seq<u8> {
    spec_u32_to_le_bytes(opcode) + spec_u32_to_le_bytes(payload.len() as u32) + payload
}

/// What decoding a byte sequence yields: the opcode and the payload, or
/// `None` when the sequence ends before the 8-byte header or before the
/// declared payload length is reached. Bytes past the declared length are
/// left untouched.
pub open spec fn decoded_frame(b: Seq<u8>) -> Option<(u32, Seq<u8>)> {
    if b.len() < 8 {
        None
    } else {
        let len = spec_u32_from_le_bytes(b.subrange(4, 8)) as int;
        if b.len() < 8 + len {
            None
        } else {
            Some((spec_u32_from_le_bytes(b.subrange(0, 4)), b.subrange(8, 8 + len)))
        }
    }
}

/// Encodes one frame. Fails, rather than truncating, when the payload is too
/// long for the 32-bit length field.
pub fn encode_frame(opcode: u32, payload: &Vec<u8>) -> (r: Result<Vec<u8>, Error>)
    ensures
        payload@.len() <= u32::MAX ==> (r matches Ok(f) && f@ == frame_bytes(
            opcode,
            payload@,
        )),
        payload@.len() > u32::MAX ==> r == Err::<Vec<u8>, Error>(Error::Serialization),
{
    if payload.len() > u32::MAX as usize {
        return Err(Error::Serialization);
    }
    let mut out = u32_to_le_bytes(opcode);
    let mut len_bytes = u32_to_le_bytes(payload.len() as u32);
    out.append(&mut len_bytes);
    let mut body = slice_to_vec(payload.as_slice());
    out.append(&mut body);
    Ok(out)
}

/// Decodes one frame from the front of a buffer and reports how many bytes
/// it consumed: exactly 8 plus the declared payload length. Fails with an
/// I/O error when the buffer ends before that boundary.
pub fn decode_frame(buf: &Vec<u8>) -> (r: Result<(u32, Vec<u8>, usize), Error>)
    ensures
        match r {
            Ok((opcode, payload, consumed)) => {
                &&& decoded_frame(buf@) == Some((opcode, payload@))
                &&& consumed == 8 + payload@.len()
                &&& consumed <= buf@.len()
            },
            Err(e) => e == Error::Io && decoded_frame(buf@) is None,
        },
{
    if buf.len() < 8 {
        return Err(Error::Io);
    }
    let opcode = u32_from_le_bytes(slice_subrange(buf.as_slice(), 0, 4));
    let declared = u32_from_le_bytes(slice_subrange(buf.as_slice(), 4, 8));
    let len = declared as usize;
    if buf.len() - 8 < len {
        return Err(Error::Io);
    }
    let payload = slice_to_vec(slice_subrange(buf.as_slice(), 8, 8 + len));
    Ok((opcode, payload, 8 + len))
}

/// Reads the opcode and the declared payload length out of an 8-byte frame
/// header; the caller then knows exactly how many payload bytes follow.
pub fn decode_header(header: &Vec<u8>) -> (r: (u32, u32))
    requires
        header@.len() == 8,
    ensures
        r.0 == spec_u32_from_le_bytes(header@.subrange(0, 4)),
        r.1 == spec_u32_from_le_bytes(header@.subrange(4, 8)),
{
    let opcode = u32_from_le_bytes(slice_subrange(header.as_slice(), 0, 4));
    let declared = u32_from_le_bytes(slice_subrange(header.as_slice(), 4, 8));
    (opcode, declared)
}

/// Round trip: decoding an encoded frame yields the original opcode and the
/// original payload, for every opcode and every payload that fits the length
/// field, the empty payload included.
pub proof fn lemma_frame_round_trip(opcode: u32, payload: Seq<u8>)
    requires
        payload.len() <= u32::MAX,
    ensures
        decoded_frame(frame_bytes(opcode, payload)) == Some((opcode, payload)),
{
    lemma_decode_ignores_trailing(opcode, payload, Seq::<u8>::empty());
    assert(frame_bytes(opcode, payload) + Seq::<u8>::empty() =~= frame_bytes(
        opcode,
        payload,
    ));
}

/// Length exactness: a frame declaring payload length `L` decodes from the
/// first `8 + L` bytes alone; whatever follows that boundary is ignored.
pub proof fn lemma_decode_ignores_trailing(opcode: u32, payload: Seq<u8>, extra: Seq<u8>)
    requires
        payload.len() <= u32::MAX,
    ensures
        decoded_frame(frame_bytes(opcode, payload) + extra) == Some((opcode, payload)),
{
    lemma_auto_spec_u32_to_from_le_bytes();
    let b = frame_bytes(opcode, payload) + extra;
    assert(b.subrange(0, 4) =~= spec_u32_to_le_bytes(opcode));
    assert(b.subrange(4, 8) =~= spec_u32_to_le_bytes(payload.len() as u32));
    assert(spec_u32_from_le_bytes(b.subrange(4, 8)) == payload.len() as u32);
    assert(b.subrange(8, 8 + payload.len() as int) =~= payload);
}

} // verus!
