//! Framing codec: a message crosses the wire as a fixed eight-byte header
//! (message type, then payload length, each a 32-bit little-endian word)
//! immediately followed by exactly `length` raw payload bytes. Encoding and
//! decoding are pure; no I/O happens here.

use vstd::prelude::*;

verus! {

use crate::MAX_PACKAGE_SIZE;
use vstd::utf8::{decode_utf8, encode_utf8, valid_utf8};

/// Number of bytes in a frame header: two 32-bit fields, no padding.
pub const HEADER_SIZE: usize = 8;

/// The little-endian bytes of a 32-bit word.
pub open spec fn u32_le_bytes(x: u32) -> Seq<u8> {
    seq![
        (x & 0xff) as u8,
        ((x >> 8) & 0xff) as u8,
        ((x >> 16) & 0xff) as u8,
        ((x >> 24) & 0xff) as u8,
    ]
}

/// The 32-bit word read from four little-endian bytes.
pub open spec fn u32_from_le(b0: u8, b1: u8, b2: u8, b3: u8) -> u32 {
    (b0 as u32) | ((b1 as u32) << 8) | ((b2 as u32) << 16) | ((b3 as u32) << 24)
}

/// The eight header bytes of a frame: message type, then payload length.
pub open spec fn spec_header_bytes(msg_type: u32, length: u32) -> Seq<u8> {
    u32_le_bytes(msg_type) + u32_le_bytes(length)
}

/// The full wire form of a frame: header, then payload.
pub open spec fn spec_frame_bytes(msg_type: u32, payload: Seq<u8>) -> Seq<u8> {
    spec_header_bytes(msg_type, payload.len() as u32) + payload
}

/// The message type field of a raw header.
pub open spec fn spec_header_msg_type(h: Seq<u8>) -> u32 {
    u32_from_le(h[0], h[1], h[2], h[3])
}

/// The declared payload length field of a raw header.
pub open spec fn spec_header_length(h: Seq<u8>) -> u32 {
    u32_from_le(h[4], h[5], h[6], h[7])
}

/// The characters that lossy UTF-8 decoding reads from a byte sequence:
/// invalid sequences are replaced, never rejected. Where the bytes are valid
/// UTF-8 this agrees with `decode_utf8`; on other inputs it is pinned down
/// only by the decoder itself.
pub uninterp spec fn lossy_utf8(bytes: Seq<u8>) -> Seq<char>;

/// Relies on `String::from_utf8_lossy`: its result depends on the bytes
/// alone, and on valid UTF-8 input it is exactly the decoded text.
#[verifier::external_body]
fn from_utf8_lossy_owned(bytes: &[u8]) -> (r: String)
    ensures
        r@ == lossy_utf8(bytes@),
        valid_utf8(bytes@) ==> r@ == decode_utf8(bytes@),
{
    String::from_utf8_lossy(bytes).into_owned()
}

/// A decoded frame header.
#[derive(Clone, Copy, Debug, PartialEq, Eq, Structural)]
pub struct MessageHeader {
    pub msg_type: u32,
    pub length: u32,
}

fn push_u32_le(v: &mut Vec<u8>, x: u32)
    ensures
        final(v)@ == old(v)@ + u32_le_bytes(x),
{
    proof {
        assert(x & 0xff < 256 && (x >> 8) & 0xff < 256 && (x >> 16) & 0xff < 256 && (x >> 24)
            & 0xff < 256) by (bit_vector);
    }
    v.push((x & 0xff) as u8);
    v.push(((x >> 8) & 0xff) as u8);
    v.push(((x >> 16) & 0xff) as u8);
    v.push(((x >> 24) & 0xff) as u8);
    proof {
        assert(v@ =~= old(v)@ + u32_le_bytes(x));
    }
}

/// Encodes a frame header.
pub fn encode_header(msg_type: u32, length: u32) -> (r: Vec<u8>)
    ensures
        r@ == spec_header_bytes(msg_type, length),
        r@.len() == HEADER_SIZE,
{
    let mut v: Vec<u8> = Vec::new();
    push_u32_le(&mut v, msg_type);
    push_u32_le(&mut v, length);
    proof {
        assert(v@ =~= spec_header_bytes(msg_type, length));
    }
    v
}

/// Encodes a full frame: the header declaring the payload's length, then the
/// payload itself.
pub fn encode_frame(msg_type: u32, payload: &[u8]) -> (r: Vec<u8>)
    requires
        payload@.len() <= u32::MAX,
    ensures
        r@ == spec_frame_bytes(msg_type, payload@),
{
    let mut r = encode_header(msg_type, payload.len() as u32);
    r.extend_from_slice(payload);
    r
}

proof fn lemma_le_bytes_of_word(b0: u8, b1: u8, b2: u8, b3: u8)
    ensures
        (u32_from_le(b0, b1, b2, b3) & 0xff) as u8 == b0,
        ((u32_from_le(b0, b1, b2, b3) >> 8) & 0xff) as u8 == b1,
        ((u32_from_le(b0, b1, b2, b3) >> 16) & 0xff) as u8 == b2,
        ((u32_from_le(b0, b1, b2, b3) >> 24) & 0xff) as u8 == b3,
{
    assert(((((b0 as u32) | ((b1 as u32) << 8) | ((b2 as u32) << 16) | ((b3 as u32) << 24))
        & 0xff) as u8) == b0) by (bit_vector);
    assert((((((b0 as u32) | ((b1 as u32) << 8) | ((b2 as u32) << 16) | ((b3 as u32) << 24))
        >> 8) & 0xff) as u8) == b1) by (bit_vector);
    assert((((((b0 as u32) | ((b1 as u32) << 8) | ((b2 as u32) << 16) | ((b3 as u32) << 24))
        >> 16) & 0xff) as u8) == b2) by (bit_vector);
    assert((((((b0 as u32) | ((b1 as u32) << 8) | ((b2 as u32) << 16) | ((b3 as u32) << 24))
        >> 24) & 0xff) as u8) == b3) by (bit_vector);
}

proof fn lemma_word_of_le_bytes(x: u32)
    ensures
        u32_from_le(
            (x & 0xff) as u8,
            ((x >> 8) & 0xff) as u8,
            ((x >> 16) & 0xff) as u8,
            ((x >> 24) & 0xff) as u8,
        ) == x,
{
    assert((((x & 0xff) as u8) as u32) | ((((x >> 8) & 0xff) as u8) as u32) << 8 | ((((x >> 16)
        & 0xff) as u8) as u32) << 16 | ((((x >> 24) & 0xff) as u8) as u32) << 24 == x)
        by (bit_vector);
}

fn u32_le_from_bytes(b0: u8, b1: u8, b2: u8, b3: u8) -> (x: u32)
    ensures
        x == u32_from_le(b0, b1, b2, b3),
{
    (b0 as u32) | ((b1 as u32) << 8) | ((b2 as u32) << 16) | ((b3 as u32) << 24)
}

/// Decodes a raw header into its message type and declared payload length.
/// The decoding loses nothing: the header is exactly the encoding of the two
/// fields read from it.
pub fn decode_header(raw: &[u8]) -> (h: MessageHeader)
    requires
        raw@.len() == HEADER_SIZE,
    ensures
        h.msg_type == spec_header_msg_type(raw@),
        h.length == spec_header_length(raw@),
        spec_header_bytes(h.msg_type, h.length) == raw@,
{
    let msg_type = u32_le_from_bytes(raw[0], raw[1], raw[2], raw[3]);
    let length = u32_le_from_bytes(raw[4], raw[5], raw[6], raw[7]);
    proof {
        lemma_le_bytes_of_word(raw@[0], raw@[1], raw@[2], raw@[3]);
        lemma_le_bytes_of_word(raw@[4], raw@[5], raw@[6], raw@[7]);
        assert(spec_header_bytes(msg_type, length) =~= raw@);
    }
    MessageHeader { msg_type, length }
}

/// Reads a payload as text, by lossy UTF-8 decoding: invalid byte sequences
/// are replaced, never rejected.
pub fn decode_payload(payload: &[u8]) -> (r: String)
    ensures
        r@ == lossy_utf8(payload@),
        valid_utf8(payload@) ==> r@ == decode_utf8(payload@),
{
    from_utf8_lossy_owned(payload)
}

/// Round-trip law for headers: the eight bytes built from a message type and
/// a length decode back to exactly those two fields.
pub proof fn lemma_header_round_trip(msg_type: u32, length: u32)
    ensures
        spec_header_msg_type(spec_header_bytes(msg_type, length)) == msg_type,
        spec_header_length(spec_header_bytes(msg_type, length)) == length,
{
    lemma_word_of_le_bytes(msg_type);
    lemma_word_of_le_bytes(length);
}

/// Round-trip law: a frame built from a message type and a payload of at most
/// `MAX_PACKAGE_SIZE` bytes declares exactly that type and length in its
/// header, and carries exactly that payload after it; decoding loses nothing.
pub proof fn lemma_frame_round_trip(msg_type: u32, payload: Seq<u8>)
    requires
        payload.len() <= MAX_PACKAGE_SIZE,
    ensures
        spec_frame_bytes(msg_type, payload).len() == HEADER_SIZE + payload.len(),
        spec_header_msg_type(spec_frame_bytes(msg_type, payload).take(HEADER_SIZE as int))
            == msg_type,
        spec_header_length(spec_frame_bytes(msg_type, payload).take(HEADER_SIZE as int))
            == payload.len(),
        spec_frame_bytes(msg_type, payload).skip(HEADER_SIZE as int) == payload,
{
    let f = spec_frame_bytes(msg_type, payload);
    let h = f.take(HEADER_SIZE as int);
    assert(h =~= spec_header_bytes(msg_type, payload.len() as u32));
    lemma_header_round_trip(msg_type, payload.len() as u32);
    assert(f.skip(HEADER_SIZE as int) =~= payload);
}

/// Wire round trip for text: the UTF-8 bytes of a character sequence are
/// valid UTF-8 and decode back to exactly that sequence — so a reply's
/// contents survive the peer's decoding unchanged, and lossy decoding can
/// replace characters only where the payload was not valid UTF-8 to begin
/// with.
pub proof fn lemma_text_payload_round_trip(contents: Seq<char>)
    ensures
        valid_utf8(encode_utf8(contents)),
        decode_utf8(encode_utf8(contents)) == contents,
{
    vstd::utf8::encode_utf8_valid_utf8(contents);
    vstd::utf8::encode_utf8_decode_utf8(contents);
}

} // verus!
