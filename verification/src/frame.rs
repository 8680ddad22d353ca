//! Length-prefixed framing of wire messages.
//!
//! A frame is a 4-byte big-endian payload length followed by the payload.
//! A response frame whose declared length exceeds [`MAX_FRAME_PAYLOAD`] is
//! rejected before its payload is read.

use vstd::prelude::*;

verus! {

/// Largest payload the bridge accepts in a response frame.
pub const MAX_FRAME_PAYLOAD: u32 = 4096;

/// Big-endian bytes of a 32-bit length.
pub open spec fn spec_u32_to_be_bytes(x: u32) -> Seq<u8> {
    seq![
        ((x >> 24) & 0xff) as u8,
        ((x >> 16) & 0xff) as u8,
        ((x >> 8) & 0xff) as u8,
        (x & 0xff) as u8,
    ]
}

/// The 32-bit length read back from big-endian bytes.
pub open spec fn spec_u32_from_be_bytes(s: Seq<u8>) -> u32
    recommends
        s.len() == 4,
{
    (s[0] as u32) << 24 | (s[1] as u32) << 16 | (s[2] as u32) << 8 | (s[3] as u32)
}

/// The big-endian length prefix decodes back to the length it was built from.
pub proof fn lemma_u32_be_round_trip(x: u32)
    ensures
        spec_u32_to_be_bytes(x).len() == 4,
        spec_u32_from_be_bytes(spec_u32_to_be_bytes(x)) == x,
{
    assert({
        &&& (x >> 24) & 0xff < 256
        &&& (x >> 16) & 0xff < 256
        &&& (x >> 8) & 0xff < 256
        &&& x & 0xff < 256
    }) by (bit_vector);
    assert(x == ((x >> 24) & 0xff) << 24 | ((x >> 16) & 0xff) << 16 | ((x >> 8) & 0xff) << 8 | (
    x & 0xff)) by (bit_vector);
}

/// Writes a 32-bit length as big-endian bytes.
pub fn u32_to_be(x: u32) -> (r: Vec<u8>)
    ensures
        r@ == spec_u32_to_be_bytes(x),
{
    proof {
        assert({
            &&& (x >> 24) & 0xff < 256
            &&& (x >> 16) & 0xff < 256
            &&& (x >> 8) & 0xff < 256
            &&& x & 0xff < 256
        }) by (bit_vector);
    }
    let mut r: Vec<u8> = Vec::new();
    r.push(((x >> 24) & 0xff) as u8);
    r.push(((x >> 16) & 0xff) as u8);
    r.push(((x >> 8) & 0xff) as u8);
    r.push((x & 0xff) as u8);
    assert(r@ =~= spec_u32_to_be_bytes(x));
    r
}

/// Reads a 32-bit length from big-endian bytes.
pub fn u32_from_be(b: &[u8]) -> (x: u32)
    requires
        b@.len() == 4,
    ensures
        x == spec_u32_from_be_bytes(b@),
{
    let b0 = *vstd::slice::slice_index_get(b, 0);
    let b1 = *vstd::slice::slice_index_get(b, 1);
    let b2 = *vstd::slice::slice_index_get(b, 2);
    let b3 = *vstd::slice::slice_index_get(b, 3);
    (b0 as u32) << 24u32 | (b1 as u32) << 16u32 | (b2 as u32) << 8u32 | (b3 as u32)
}

/// A framed payload: its big-endian length, then its bytes.
pub open spec fn spec_frame(payload: Seq<u8>) -> Seq<u8> {
    spec_u32_to_be_bytes(payload.len() as u32) + payload
}

/// Frames a payload for the wire.
pub fn frame_payload(payload: &Vec<u8>) -> (r: Vec<u8>)
    requires
        payload@.len() <= u32::MAX,
    ensures
        r@ == spec_frame(payload@),
{
    let mut out = u32_to_be(payload.len() as u32);
    out.extend_from_slice(payload.as_slice());
    assert(out@ =~= spec_frame(payload@));
    out
}

/// The length prefix of a frame declares exactly the payload's length.
pub proof fn lemma_frame_len(payload: Seq<u8>)
    requires
        payload.len() <= u32::MAX,
    ensures
        spec_frame(payload).len() == 4 + payload.len(),
        spec_frame(payload).subrange(0, 4) =~= spec_u32_to_be_bytes(payload.len() as u32),
        spec_u32_from_be_bytes(spec_frame(payload).subrange(0, 4)) == payload.len(),
        spec_frame(payload).skip(4) =~= payload,
{
    lemma_u32_be_round_trip(payload.len() as u32);
    assert(spec_frame(payload).subrange(0, 4) =~= spec_u32_to_be_bytes(payload.len() as u32));
}

} // verus!
