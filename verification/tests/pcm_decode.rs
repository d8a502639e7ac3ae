//! Tests of the little-endian PCM byte decoding at the foreign boundary.

use livekit_bridge::decode_pcm_le;

#[test]
fn decodes_little_endian_pairs() {
    let samples = decode_pcm_le(&[0x34, 0x12, 0xff, 0xff, 0x00, 0x80]);
    assert_eq!(samples, vec![0x1234, -1, -32768]);
}

#[test]
fn zero_bytes_give_zero_samples() {
    assert_eq!(decode_pcm_le(&[0, 0, 0, 0]), vec![0i16, 0]);
}

#[test]
fn empty_buffer_gives_no_samples() {
    assert!(decode_pcm_le(&[]).is_empty());
}

#[test]
fn trailing_odd_byte_is_dropped() {
    assert_eq!(decode_pcm_le(&[0x01, 0x00, 0x7f]), vec![1i16]);
}
