use appload_client::codec::{
    decode_header, decode_payload, encode_frame, encode_header, HEADER_SIZE,
};
use appload_client::MAX_PACKAGE_SIZE;

#[test]
fn header_layout_is_little_endian() {
    let h = encode_header(5, 260);
    assert_eq!(h, vec![5, 0, 0, 0, 4, 1, 0, 0]);
}

#[test]
fn header_layout_extremes() {
    let h = encode_header(0xFFFFFFFF, 0);
    assert_eq!(h, vec![0xFF, 0xFF, 0xFF, 0xFF, 0, 0, 0, 0]);
}

#[test]
fn header_round_trip() {
    let h = encode_header(0xDEADBEEF, 10485760);
    let parsed = decode_header(&h);
    assert_eq!(parsed.msg_type, 0xDEADBEEF);
    assert_eq!(parsed.length, 10485760);
}

#[test]
fn frame_round_trip() {
    let frame = encode_frame(7, b"hello");
    assert_eq!(frame.len(), HEADER_SIZE + 5);
    let parsed = decode_header(&frame[..HEADER_SIZE]);
    assert_eq!(parsed.msg_type, 7);
    assert_eq!(parsed.length, 5);
    let text = decode_payload(&frame[HEADER_SIZE..]);
    assert_eq!(text, "hello");
}

#[test]
fn frame_round_trip_empty_payload() {
    let frame = encode_frame(3, b"");
    assert_eq!(frame.len(), HEADER_SIZE);
    let parsed = decode_header(&frame);
    assert_eq!(parsed.msg_type, 3);
    assert_eq!(parsed.length, 0);
    assert_eq!(decode_payload(b""), "");
}

#[test]
fn lossy_decode_replaces_invalid_sequences() {
    let text = decode_payload(&[0xFF, b'a', 0xC0, b'b']);
    assert_eq!(text, "\u{FFFD}a\u{FFFD}b");
}

#[test]
fn lossy_decode_keeps_multibyte_text() {
    let original = "héllo wörld — ☃";
    let frame = encode_frame(1, original.as_bytes());
    let parsed = decode_header(&frame[..HEADER_SIZE]);
    assert_eq!(parsed.length as usize, original.len());
    assert_eq!(decode_payload(&frame[HEADER_SIZE..]), original);
}

#[test]
fn oversize_length_is_representable_in_header() {
    let h = encode_header(1, (MAX_PACKAGE_SIZE + 1) as u32);
    let parsed = decode_header(&h);
    assert_eq!(parsed.length as usize, MAX_PACKAGE_SIZE + 1);
}
