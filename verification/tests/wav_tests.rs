use wav_encoder::wav::encode_wav;

#[test]
fn empty_buffer_gives_header_only_file() {
    let samples: Vec<u8> = Vec::new();
    let out = encode_wav(&samples);
    assert_eq!(out.len(), 44);
    // RIFF chunk size is 36 when there is no data.
    assert_eq!(&out[4..8], &[36, 0, 0, 0]);
    // The data sub-chunk size is 0.
    assert_eq!(&out[40..44], &[0, 0, 0, 0]);
}

#[test]
fn four_sample_example() {
    let samples: Vec<u8> = vec![0x00, 0x7f, 0x80, 0xff];
    let out = encode_wav(&samples);
    assert_eq!(out.len(), 48);
    assert_eq!(&out[4..8], &[0x28, 0x00, 0x00, 0x00]);
    assert_eq!(&out[40..44], &[0x04, 0x00, 0x00, 0x00]);
    assert_eq!(&out[44..48], &[0x00, 0x7f, 0x80, 0xff]);
}

#[test]
fn tags_stand_at_their_offsets() {
    let samples: Vec<u8> = vec![1, 2, 3];
    let out = encode_wav(&samples);
    assert_eq!(&out[0..4], b"RIFF");
    assert_eq!(&out[8..12], b"WAVE");
    assert_eq!(&out[12..16], b"fmt ");
    assert_eq!(&out[36..40], b"data");
}

#[test]
fn fixed_format_fields() {
    let a = encode_wav(&Vec::new());
    let b = encode_wav(&vec![9, 8, 7, 6, 5]);
    for out in [&a, &b] {
        // fmt sub-chunk body size 16.
        assert_eq!(&out[16..20], &[16, 0, 0, 0]);
        // AudioFormat 1 (PCM).
        assert_eq!(&out[20..22], &[0x01, 0x00]);
        // NumChannels 1.
        assert_eq!(&out[22..24], &[0x01, 0x00]);
        // SampleRate 22050.
        assert_eq!(&out[24..28], &[0x22, 0x56, 0x00, 0x00]);
        assert_eq!(
            u32::from_le_bytes([out[24], out[25], out[26], out[27]]),
            22050
        );
        // ByteRate 22050.
        assert_eq!(&out[28..32], &[0x22, 0x56, 0x00, 0x00]);
        // BlockAlign 1.
        assert_eq!(&out[32..34], &[0x01, 0x00]);
        // BitsPerSample 8.
        assert_eq!(&out[34..36], &[0x08, 0x00]);
    }
}

#[test]
fn total_size_is_header_plus_data() {
    let samples: Vec<u8> = (0..300u32).map(|i| (i % 251) as u8).collect();
    let out = encode_wav(&samples);
    assert_eq!(out.len(), 44 + 300);
}

#[test]
fn size_fields_for_a_larger_buffer() {
    let samples: Vec<u8> = vec![0xaa; 300];
    let out = encode_wav(&samples);
    // 300 + 36 = 336 = 0x0150, little-endian.
    assert_eq!(&out[4..8], &[0x50, 0x01, 0x00, 0x00]);
    // 300 = 0x012c, little-endian.
    assert_eq!(&out[40..44], &[0x2c, 0x01, 0x00, 0x00]);
}

#[test]
fn data_round_trips_unmodified() {
    let samples: Vec<u8> = (0..=255u8).rev().collect();
    let out = encode_wav(&samples);
    assert_eq!(&out[44..], &samples[..]);
}
