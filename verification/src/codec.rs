use vstd::prelude::*;

use vstd::bytes::{
    lemma_auto_spec_u32_to_from_le_bytes, spec_u32_from_le_bytes, spec_u32_to_le_bytes,
    u32_from_le_bytes, u32_to_le_bytes,
};
use vstd::slice::{slice_subrange, slice_to_vec};
use vstd::string::StringSliceAdditionalSpecFns;
use vstd::utf8::{
    decode_utf8, decode_utf8_encode_utf8, encode_utf8, encode_utf8_decode_utf8,
    encode_utf8_valid_utf8, valid_utf8,
};

use crate::deframer::wire_frame_of;
use crate::frame::{Frame, FrameView, Tagged, TaggedView};

verus! {

/// The number of header bytes of an envelope: tag, delay, and content length,
/// four little-endian bytes each.
pub const HEADER_LEN: usize = 12;

/// The byte layout of a tagged envelope: tag, then delay (two's complement),
/// then the byte length of the content, four little-endian bytes each,
/// then the content in UTF-8. The enclosing stream frame adds a length
/// prefix over exactly these bytes.
pub open spec fn spec_encode(e: TaggedView<FrameView>) -> Seq<u8> {
    spec_u32_to_le_bytes(e.tag) + spec_u32_to_le_bytes(e.v.delay as u32) + spec_u32_to_le_bytes(
        encode_utf8(e.v.content).len() as u32,
    ) + encode_utf8(e.v.content)
}

/// A payload fits the wire layout when its content's UTF-8 byte length keeps
/// the whole envelope — and so the stream frame's length prefix — within the
/// 32-bit length fields; the tag never matters.
pub open spec fn payload_encodable(f: FrameView) -> bool {
    encode_utf8(f.content).len() + HEADER_LEN <= u32::MAX
}

/// An envelope is encodable when its payload is.
pub open spec fn encodable(e: TaggedView<FrameView>) -> bool {
    payload_encodable(e.v)
}

/// The inverse reading of [`spec_encode`]: `None` on a short header, a
/// content length that disagrees with the bytes present, or content that is
/// not UTF-8.
pub open spec fn spec_decode(b: Seq<u8>) -> Option<TaggedView<FrameView>> {
    if b.len() < HEADER_LEN {
        None
    } else {
        let tag = spec_u32_from_le_bytes(b.subrange(0, 4));
        let delay = spec_u32_from_le_bytes(b.subrange(4, 8)) as i32;
        let clen = spec_u32_from_le_bytes(b.subrange(8, 12));
        let body = b.skip(12);
        if body.len() == clen && clen + HEADER_LEN <= u32::MAX && valid_utf8(body) {
            Some(TaggedView { tag, v: FrameView { delay, content: decode_utf8(body) } })
        } else {
            None
        }
    }
}

/// Decoding inverts encoding: every encodable envelope is recovered exactly
/// from its own bytes.
pub proof fn lemma_decode_encode(e: TaggedView<FrameView>)
    requires
        encodable(e),
    ensures
        spec_decode(spec_encode(e)) == Some(e),
{
    lemma_auto_spec_u32_to_from_le_bytes();
    broadcast use encode_utf8_valid_utf8, encode_utf8_decode_utf8;

    let b = spec_encode(e);
    let content = encode_utf8(e.v.content);
    assert(b.subrange(0, 4) =~= spec_u32_to_le_bytes(e.tag));
    assert(b.subrange(4, 8) =~= spec_u32_to_le_bytes(e.v.delay as u32));
    assert(b.subrange(8, 12) =~= spec_u32_to_le_bytes(content.len() as u32));
    assert(b.skip(12) =~= content);
    let d = e.v.delay;
    assert(((d as u32) as i32) == d) by (bit_vector);
    assert(spec_decode(b)->0 =~= e);
}

/// Encoding inverts decoding: any byte string that decodes at all is exactly
/// the encoding of what it decodes to.
pub proof fn lemma_encode_decode(b: Seq<u8>)
    requires
        spec_decode(b) is Some,
    ensures
        encodable(spec_decode(b)->0),
        spec_encode(spec_decode(b)->0) == b,
{
    lemma_auto_spec_u32_to_from_le_bytes();
    broadcast use decode_utf8_encode_utf8;

    let e = spec_decode(b)->0;
    let body = b.skip(12);
    let du = spec_u32_from_le_bytes(b.subrange(4, 8));
    assert(((du as i32) as u32) == du) by (bit_vector);
    assert(encode_utf8(e.v.content) == body);
    assert(spec_encode(e) =~= b);
}

/// Framing round trip: the stream frame written for any envelope is well
/// shaped, and cutting it back out of the stream yields exactly the envelope
/// bytes behind the prefix.
pub proof fn lemma_frame_round_trip(envelope: Seq<u8>)
    requires
        envelope.len() <= u32::MAX,
    ensures
        wire_frame_of(spec_u32_to_le_bytes(envelope.len() as u32) + envelope),
        (spec_u32_to_le_bytes(envelope.len() as u32) + envelope).skip(4) == envelope,
{
    lemma_auto_spec_u32_to_from_le_bytes();
    let w = spec_u32_to_le_bytes(envelope.len() as u32) + envelope;
    assert(w.subrange(0, 4) =~= spec_u32_to_le_bytes(envelope.len() as u32));
    assert(w.skip(4) =~= envelope);
}

/// Relies on core::str::from_utf8: it accepts exactly the valid UTF-8 byte
/// strings and decodes those bytes to their characters.
#[verifier::external_body]
fn bytes_to_string(v: &[u8]) -> (r: Option<String>)
    ensures
        r is Some <==> valid_utf8(v@),
        r is Some ==> r->0@ == decode_utf8(v@),
{
    match core::str::from_utf8(v) {
        Ok(s) => Some(s.to_owned()),
        Err(_) => None,
    }
}

/// Serializes an envelope; refuses — leaving nothing written — exactly the
/// envelopes whose content overflows the 32-bit length field.
pub fn encode_envelope(env: &Tagged<Frame>) -> (out: Option<Vec<u8>>)
    ensures
        match out {
            Some(bytes) => encodable(env@) && bytes@ == spec_encode(env@),
            None => !encodable(env@),
        },
{
    let content = env.v.content.as_str().as_bytes();
    if content.len() > (u32::MAX as usize) - HEADER_LEN {
        return None;
    }
    let mut bytes = u32_to_le_bytes(env.tag);
    let mut delay = u32_to_le_bytes(#[verifier::truncate] (env.v.delay as u32));
    let mut clen = u32_to_le_bytes(content.len() as u32);
    let mut body = slice_to_vec(content);
    bytes.append(&mut delay);
    bytes.append(&mut clen);
    bytes.append(&mut body);
    proof {
        assert(bytes@ =~= spec_encode(env@));
    }
    Some(bytes)
}

/// Wraps envelope bytes in a stream frame: a four-byte little-endian length
/// prefix recording exactly how many envelope bytes follow, so frame
/// boundaries are unambiguous over a byte stream. Refused only when the
/// length overflows the prefix.
pub fn frame_wire(envelope: &[u8]) -> (out: Option<Vec<u8>>)
    ensures
        match out {
            Some(w) => envelope@.len() <= u32::MAX && w@ == spec_u32_to_le_bytes(
                envelope@.len() as u32,
            ) + envelope@,
            None => envelope@.len() > u32::MAX,
        },
{
    if envelope.len() > u32::MAX as usize {
        return None;
    }
    let mut w = u32_to_le_bytes(envelope.len() as u32);
    let mut body = slice_to_vec(envelope);
    w.append(&mut body);
    proof {
        assert(w@ =~= spec_u32_to_le_bytes(envelope@.len() as u32) + envelope@);
    }
    Some(w)
}

/// Parses an envelope, accepting exactly what [`spec_decode`] accepts and
/// recovering exactly the envelope it names.
pub fn decode_envelope(bytes: &[u8]) -> (out: Option<Tagged<Frame>>)
    ensures
        match out {
            Some(env) => spec_decode(bytes@) == Some(env@),
            None => spec_decode(bytes@) is None,
        },
{
    if bytes.len() < HEADER_LEN {
        return None;
    }
    let tag = u32_from_le_bytes(slice_subrange(bytes, 0, 4));
    let delay_bits = u32_from_le_bytes(slice_subrange(bytes, 4, 8));
    let clen = u32_from_le_bytes(slice_subrange(bytes, 8, 12));
    let body = slice_subrange(bytes, HEADER_LEN, bytes.len());
    if body.len() as u64 != clen as u64 || clen > u32::MAX - (HEADER_LEN as u32) {
        return None;
    }
    match bytes_to_string(body) {
        Some(content) => {
            let delay = #[verifier::truncate] (delay_bits as i32);
            let env = Tagged { tag, v: Frame { delay, content } };
            proof {
                assert(bytes@.skip(12) =~= body@);
            }
            Some(env)
        },
        None => {
            proof {
                assert(bytes@.skip(12) =~= body@);
            }
            None
        },
    }
}

} // verus!
