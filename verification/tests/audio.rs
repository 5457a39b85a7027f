use beme_lib::capture::audio::{
    epoch_days_to_ymd, interpolation_point, now_iso8601, pcm_i16_to_bytes, resampled_len,
    sum_of_squares, AudioCapture,
};
use beme_lib::clock::{format_iso_millis, format_iso_seconds};

/// The level of a chunk: root mean square of the samples, as a part of
/// full scale.
fn rms(samples: &[i16]) -> f32 {
    if samples.is_empty() {
        return 0.0;
    }
    let sum = sum_of_squares(samples) as f64;
    (sum / samples.len() as f64).sqrt() as f32 / i16::MAX as f32
}

#[test]
fn rms_of_silence_is_zero() {
    let silence = vec![0i16; 1000];
    assert_eq!(sum_of_squares(&silence), 0);
    assert_eq!(rms(&silence), 0.0);
}

#[test]
fn rms_of_max_volume_is_close_to_one() {
    let loud = vec![i16::MAX; 1000];
    assert_eq!(sum_of_squares(&loud), 1000 * 32767 * 32767);
    let level = rms(&loud);
    assert!((level - 1.0).abs() < 0.001, "Expected RMS ≈ 1.0, got {level}");
}

#[test]
fn rms_of_known_signal() {
    let amplitude: i16 = 16384;
    let signal: Vec<i16> =
        (0..1000).map(|i| if i % 2 == 0 { amplitude } else { -amplitude }).collect();
    assert_eq!(sum_of_squares(&signal), 1000 * 16384 * 16384);
    let level = rms(&signal);
    let expected = amplitude as f32 / i16::MAX as f32;
    assert!((level - expected).abs() < 0.001, "Expected RMS ≈ {expected}, got {level}");
}

#[test]
fn rms_of_empty_is_zero() {
    assert_eq!(sum_of_squares(&[]), 0);
    assert_eq!(rms(&[]), 0.0);
}

#[test]
fn energy_of_extreme_samples() {
    assert_eq!(sum_of_squares(&[i16::MIN]), 32768 * 32768);
    assert_eq!(sum_of_squares(&[3, -4]), 25);
}

#[test]
fn resample_halves_length_when_doubling_ratio() {
    let len = resampled_len(480, 48000, 24000);
    assert!((len as i32 - 240).abs() <= 1, "Expected ~240 samples, got {}", len);
    assert_eq!(len, 240);
}

#[test]
fn resampled_length_rounds_up() {
    assert_eq!(resampled_len(4, 48000, 48000), 4);
    assert_eq!(resampled_len(0, 48000, 24000), 0);
    assert_eq!(resampled_len(481, 48000, 24000), 241);
    assert_eq!(resampled_len(441, 44100, 24000), 240);
    assert_eq!(resampled_len(442, 44100, 24000), 241);
    assert_eq!(resampled_len(100, 24000, 48000), 200);
    assert_eq!(resampled_len(100, 48000, 0), 0);
}

#[test]
fn interpolation_points_stay_inside_the_chunk() {
    assert_eq!(interpolation_point(0, 48000, 24000), (0, 0));
    assert_eq!(interpolation_point(3, 48000, 24000), (6, 0));
    assert_eq!(interpolation_point(1, 44100, 24000), (1, 20100));
    assert_eq!(interpolation_point(3, 24000, 48000), (1, 24000));
    let input_len = 441;
    let out_len = resampled_len(input_len, 44100, 24000);
    for i in 0..out_len {
        let (index, part) = interpolation_point(i, 44100, 24000);
        assert!(index < input_len);
        assert!(part < 24000);
    }
}

#[test]
fn pcm_bytes_roundtrip() {
    let samples: Vec<i16> = vec![0, 1, -1, i16::MAX, i16::MIN];
    let bytes = pcm_i16_to_bytes(&samples);
    assert_eq!(bytes.len(), samples.len() * 2);

    let decoded: Vec<i16> =
        bytes.chunks_exact(2).map(|c| i16::from_le_bytes([c[0], c[1]])).collect();
    assert_eq!(samples, decoded);
}

#[test]
fn pcm_bytes_are_little_endian() {
    assert_eq!(pcm_i16_to_bytes(&[0x1234]), vec![0x34, 0x12]);
    assert_eq!(pcm_i16_to_bytes(&[-2]), vec![0xFE, 0xFF]);
    assert_eq!(pcm_i16_to_bytes(&[i16::MIN, i16::MAX]), vec![0x00, 0x80, 0xFF, 0x7F]);
    assert!(pcm_i16_to_bytes(&[]).is_empty());
    for s in [-32768i16, -12345, -256, -1, 0, 1, 255, 256, 32767] {
        assert_eq!(pcm_i16_to_bytes(&[s]), s.to_le_bytes().to_vec());
    }
}

#[test]
fn iso8601_format_looks_valid() {
    let ts = now_iso8601();
    assert!(ts.ends_with('Z'), "Timestamp should end with Z: {ts}");
    assert_eq!(ts.len(), 24, "Expected 24 chars, got {}: {ts}", ts.len());
    assert_eq!(&ts[4..5], "-");
    assert_eq!(&ts[7..8], "-");
    assert_eq!(&ts[10..11], "T");
}

#[test]
fn timestamps_are_written_digit_by_digit() {
    assert_eq!(format_iso_millis(0, 0), "1970-01-01T00:00:00.000Z");
    assert_eq!(format_iso_millis(1_709_210_096, 7), "2024-02-29T12:34:56.007Z");
    assert_eq!(format_iso_seconds(1_709_210_096), "2024-02-29T12:34:56Z");
    assert_eq!(format_iso_seconds(951_782_399), "2000-02-28T23:59:59Z");
    assert_eq!(format_iso_seconds(253_402_300_799), "9999-12-31T23:59:59Z");
    assert_eq!(format_iso_seconds(253_402_300_800), "10000-01-01T00:00:00Z");
    assert_eq!(format_iso_millis(86_399, 999), "1970-01-01T23:59:59.999Z");
}

#[test]
fn unsigned_epoch_days_convert_to_calendar_dates() {
    assert_eq!(epoch_days_to_ymd(0), (1970, 1, 1));
    assert_eq!(epoch_days_to_ymd(19_782), (2024, 2, 29));
    assert_eq!(epoch_days_to_ymd(365), (1971, 1, 1));
}

#[test]
fn audio_capture_toggles_and_builds_chunks() {
    let mut capture = AudioCapture::new(24000, 250);
    assert!(!capture.is_capturing());
    assert!(capture.toggle());
    assert!(capture.is_capturing());
    assert!(!capture.toggle());
    assert_eq!((capture.sample_rate(), capture.chunk_ms()), (24000, 250));

    let payload = capture.chunk_payload(&[0, 1, -1], "2024-01-01T00:00:00.000Z");
    assert_eq!(payload.data, "AAABAP//");
    assert_eq!(payload.timestamp, "2024-01-01T00:00:00.000Z");
    assert_eq!(payload.sample_rate, 24000);
    assert_eq!(payload.duration_ms, 250);
}
