//! The conversion geometry and the PCM sample readers.

use whisp::convert::{
    convert_layout, read_f32_bits, read_int_samples, resampled_len, source_position,
};
use whisp::transcribe::TranscribeError;
use whisp::wav::{encode_wav, SampleFormat, WavSpec};

#[test]
fn resampled_length_is_rounded_exactly() {
    // downsampling by three
    assert_eq!(resampled_len(48000, 48000, 16000), 16000);
    // equal rates are the identity
    assert_eq!(resampled_len(100, 16000, 16000), 100);
    // the non-integer case rounds to nearest
    assert_eq!(resampled_len(44100, 44100, 16000), 16000);
    assert_eq!(resampled_len(3, 44100, 16000), 1);
    assert_eq!(resampled_len(0, 8000, 16000), 0);
    // upsampling doubles
    assert_eq!(resampled_len(100, 8000, 16000), 200);
}

#[test]
fn source_positions_interpolate() {
    assert_eq!(source_position(0, 48000, 16000), (0, 0));
    assert_eq!(source_position(1, 48000, 16000), (3, 0));
    // 44100 / 16000 = 2.75625: floor 2, remainder 12100 over 16000
    assert_eq!(source_position(1, 44100, 16000), (2, 12100));
    // at equal rates every position is exact
    assert_eq!(source_position(7, 16000, 16000), (7, 0));
}

#[test]
fn layout_of_a_stereo_int_capture() {
    let spec = WavSpec {
        channels: 2,
        sample_rate: 48000,
        bits_per_sample: 16,
        sample_format: SampleFormat::Int,
    };
    // 1200 bytes: 600 samples, 300 frames
    let bytes = encode_wav(&spec, &vec![0u8; 1200]);
    let layout = convert_layout(&bytes).unwrap();
    assert_eq!(layout.spec, spec);
    assert_eq!(layout.data_off, 44);
    assert_eq!(layout.data_len, 1200);
    assert_eq!(layout.samples, 600);
    assert_eq!(layout.frames, 300);
    assert_eq!(layout.out_len, 100);
}

#[test]
fn malformed_container_is_a_format_error() {
    assert!(matches!(
        convert_layout(&b"garbage".to_vec()),
        Err(TranscribeError::InvalidAudioFormat(_))
    ));
}

#[test]
fn int_samples_decode_signed() {
    // 16-bit: 1 and -1
    let data = vec![0x01, 0x00, 0xff, 0xff];
    assert_eq!(read_int_samples(&data, 0, 4, 2), vec![1, -1]);
    // 8-bit offset binary: 0x80 is zero, 0x00 the negative limit
    let data = vec![0x80, 0x00, 0xff];
    assert_eq!(read_int_samples(&data, 0, 3, 1), vec![0, -128, 127]);
    // 24-bit: all ones is -1
    let data = vec![0xff, 0xff, 0xff];
    assert_eq!(read_int_samples(&data, 0, 3, 3), vec![-1]);
    // 32-bit: the sign bit alone is the negative limit
    let data = vec![0x00, 0x00, 0x00, 0x80];
    assert_eq!(read_int_samples(&data, 0, 4, 4), vec![i32::MIN]);
    // trailing bytes that fill no sample are ignored
    let data = vec![0x02, 0x00, 0x01];
    assert_eq!(read_int_samples(&data, 0, 3, 2), vec![2]);
}

#[test]
fn f32_bits_round_trip() {
    let mut data = Vec::new();
    data.extend_from_slice(&1.0f32.to_le_bytes());
    data.extend_from_slice(&(-0.5f32).to_le_bytes());
    let bits = read_f32_bits(&data, 0, 8);
    assert_eq!(bits.len(), 2);
    assert_eq!(f32::from_bits(bits[0]), 1.0);
    assert_eq!(f32::from_bits(bits[1]), -0.5);
}
