//! The WAV container: framing a capture and reading it back.

use whisp::wav::{encode_wav, parse_wav, SampleFormat, WavSpec};

fn float_spec() -> WavSpec {
    WavSpec {
        channels: 1,
        sample_rate: 16000,
        bits_per_sample: 32,
        sample_format: SampleFormat::Float,
    }
}

#[test]
fn encode_then_parse_round_trip() {
    let spec = float_spec();
    let samples: Vec<u8> = vec![7u8; 64];
    let bytes = encode_wav(&spec, &samples);
    assert_eq!(bytes.len(), 108);
    let (parsed, off, len) = parse_wav(&bytes).unwrap();
    assert_eq!(parsed, spec);
    assert_eq!(off, 44);
    assert_eq!(len, 64);
    assert_eq!(&bytes[off..off + len], samples.as_slice());
}

#[test]
fn header_fields_are_canonical() {
    let spec = WavSpec {
        channels: 2,
        sample_rate: 44100,
        bits_per_sample: 16,
        sample_format: SampleFormat::Int,
    };
    let bytes = encode_wav(&spec, &vec![0u8; 4]);
    assert_eq!(&bytes[0..4], b"RIFF");
    assert_eq!(&bytes[8..12], b"WAVE");
    assert_eq!(&bytes[12..16], b"fmt ");
    assert_eq!(&bytes[36..40], b"data");
    // format tag 1, two channels
    assert_eq!(&bytes[20..24], &[1, 0, 2, 0]);
    // block align 4, bits 16
    assert_eq!(&bytes[32..36], &[4, 0, 16, 0]);
}

#[test]
fn parse_rejects_malformed_input() {
    assert!(parse_wav(&b"junk".to_vec()).is_none());
    assert!(parse_wav(&Vec::new()).is_none());
    let mut bytes = encode_wav(&float_spec(), &vec![0u8; 8]);
    bytes[0] = b'X';
    assert!(parse_wav(&bytes).is_none());
    // a truncated container
    let good = encode_wav(&float_spec(), &vec![0u8; 8]);
    assert!(parse_wav(&good[..40].to_vec()).is_none());
}

#[test]
fn parse_rejects_bad_format_fields() {
    let mut bytes = encode_wav(&float_spec(), &vec![0u8; 8]);
    // zero channels
    bytes[22] = 0;
    bytes[23] = 0;
    assert!(parse_wav(&bytes).is_none());
    let mut bytes2 = encode_wav(&float_spec(), &vec![0u8; 8]);
    // float at 16 bits is rejected
    bytes2[34] = 16;
    assert!(parse_wav(&bytes2).is_none());
}

#[test]
fn parse_skips_unknown_chunks() {
    let spec = float_spec();
    let inner = encode_wav(&spec, &vec![1u8; 4]);
    // rebuild with an extra chunk between fmt and data
    let mut bytes: Vec<u8> = Vec::new();
    bytes.extend_from_slice(&inner[0..36]);
    bytes.extend_from_slice(b"LIST");
    bytes.extend_from_slice(&3u32.to_le_bytes());
    bytes.extend_from_slice(&[9, 9, 9, 0]); // 3 bytes of body + 1 pad byte
    bytes.extend_from_slice(&inner[36..]);
    let (parsed, off, len) = parse_wav(&bytes).unwrap();
    assert_eq!(parsed, spec);
    assert_eq!(off, 56);
    assert_eq!(len, 4);
}
