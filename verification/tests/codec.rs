use sruc::codec::{decode_response, encode_payload, open_envelope};
use sruc::error::CodecError;
use sruc::wire::{parse_envelope, push_varint, read_varint, Envelope};

fn adler32(data: &[u8]) -> u32 {
    let mut a: u32 = 1;
    let mut b: u32 = 0;
    for &byte in data {
        a = (a + byte as u32) % 65521;
        b = (b + a) % 65521;
    }
    (b << 16) | a
}

/// A zlib stream holding one stored (uncompressed) deflate block.
fn zlib_stored(data: &[u8]) -> Vec<u8> {
    let mut v = vec![0x78u8, 0x01u8];
    v.push(0x01);
    let len = data.len() as u16;
    v.push((len & 0xff) as u8);
    v.push((len >> 8) as u8);
    let nlen = !len;
    v.push((nlen & 0xff) as u8);
    v.push((nlen >> 8) as u8);
    v.extend_from_slice(data);
    let sum = adler32(data);
    v.extend_from_slice(&sum.to_be_bytes());
    v
}

#[test]
fn varint_round_trip() {
    for n in [0u64, 1, 127, 128, 300, 16383, 16384, u64::MAX] {
        let mut out: Vec<u8> = Vec::new();
        push_varint(&mut out, n);
        let (v, p) = read_varint(&out, 0).expect("varint should read back");
        assert_eq!(v, n);
        assert_eq!(p, out.len());
    }
}

#[test]
fn varint_known_bytes() {
    let mut out: Vec<u8> = Vec::new();
    push_varint(&mut out, 300);
    assert_eq!(out, vec![0xAC, 0x02]);
}

#[test]
fn varint_rejects_truncation() {
    assert!(read_varint(&vec![0x80u8], 0).is_none());
    assert!(read_varint(&vec![], 0).is_none());
}

#[test]
fn varint_rejects_overlong_encoding() {
    // 0x80 0x00 would denote 0 in two groups; only the one-byte form is
    // accepted.
    assert!(read_varint(&vec![0x80u8, 0x00u8], 0).is_none());
}

#[test]
fn envelope_canonical_bytes() {
    let env = Envelope { compressed: false, message: vec![7, 8] };
    assert_eq!(env.encode(), vec![0x0A, 0x02, 0x07, 0x08, 0x10, 0x00]);
    let flagged = Envelope { compressed: true, message: vec![] };
    assert_eq!(flagged.encode(), vec![0x0A, 0x00, 0x10, 0x01]);
}

#[test]
fn envelope_round_trip_uncompressed() {
    let env = Envelope { compressed: false, message: vec![1, 2, 3, 250] };
    let bytes = env.encode();
    let back = parse_envelope(&bytes).expect("canonical envelope should parse");
    assert!(!back.compressed);
    assert_eq!(back.message, vec![1, 2, 3, 250]);
    let opened = open_envelope(&back).expect("uncompressed envelope opens");
    assert_eq!(opened, vec![1, 2, 3, 250]);
}

#[test]
fn envelope_round_trip_compressed() {
    let env = Envelope { compressed: true, message: zlib_stored(b"hello") };
    let bytes = env.encode();
    let back = parse_envelope(&bytes).expect("canonical envelope should parse");
    assert!(back.compressed);
    let opened = open_envelope(&back).expect("stored zlib block inflates");
    assert_eq!(opened, b"hello".to_vec());
}

#[test]
fn envelope_fields_any_order() {
    // compressed flag first, then the message.
    let bytes = vec![0x10, 0x00, 0x0A, 0x02, 0x07, 0x08];
    let env = parse_envelope(&bytes).expect("reordered fields still parse");
    assert!(!env.compressed);
    assert_eq!(env.message, vec![0x07, 0x08]);
}

#[test]
fn envelope_skips_unknown_fields() {
    // field 3 varint, field 4 length-delimited, then the real fields.
    let bytes = vec![0x18, 0x2A, 0x22, 0x01, 0xFF, 0x0A, 0x01, 0x09, 0x10, 0x01];
    let env = parse_envelope(&bytes).expect("unknown fields are skipped");
    assert!(env.compressed);
    assert_eq!(env.message, vec![0x09]);
}

#[test]
fn codec_round_trip_without_envelope() {
    let payload = vec![0u8, 1, 2, 3, 255, 128];
    let text = encode_payload(&payload);
    let decoded = decode_response(&text, false).expect("own encoding must decode");
    assert_eq!(decoded, payload);
}

#[test]
fn codec_full_stack_with_envelope() {
    let env = Envelope { compressed: true, message: zlib_stored(b"domain response") };
    let text = encode_payload(&env.encode());
    let decoded = decode_response(&text, true).expect("full stack should decode");
    assert_eq!(decoded, b"domain response".to_vec());
}

#[test]
fn codec_reports_encoding_error() {
    assert_eq!(decode_response("!!!not base64!!!", false), Err(CodecError::EncodingError));
}

#[test]
fn codec_reports_envelope_error() {
    // 0xFF opens a varint that never ends.
    let text = encode_payload(&vec![0xFFu8]);
    assert_eq!(decode_response(&text, true), Err(CodecError::EnvelopeError));
}

#[test]
fn codec_reports_compression_error() {
    let env = Envelope { compressed: true, message: vec![1, 2, 3] };
    let text = encode_payload(&env.encode());
    assert_eq!(decode_response(&text, true), Err(CodecError::CompressionError));
}
