use base64::Engine as _;
use beme_lib::capture::screen::{
    average_hash, chrono_now_iso, compute_average_hash, epoch_days_to_ymd, hamming_distance,
    pick_monitor, process_frame, scale_height, CaptureFrame, CaptureStep, ScreenCapture,
};

/// A solid-colour RGBA frame.
fn solid_image(r: u8, g: u8, b: u8, w: u32, h: u32) -> CaptureFrame {
    let mut pixels = Vec::with_capacity((w * h * 4) as usize);
    for _ in 0..(w * h) {
        pixels.extend_from_slice(&[r, g, b, 255]);
    }
    CaptureFrame::new(pixels, w, h, String::from("t")).unwrap()
}

/// A half-and-half frame: left black, right white.
fn split_image(w: u32, h: u32) -> CaptureFrame {
    let mut pixels = Vec::with_capacity((w * h * 4) as usize);
    for _y in 0..h {
        for x in 0..w {
            if x < w / 2 {
                pixels.extend_from_slice(&[0, 0, 0, 255]);
            } else {
                pixels.extend_from_slice(&[255, 255, 255, 255]);
            }
        }
    }
    CaptureFrame::new(pixels, w, h, String::from("t")).unwrap()
}

/// An 8 by 8 frame whose first `bright` cells are white and the rest black.
fn cells_image(bright: usize, timestamp: &str) -> CaptureFrame {
    let mut pixels = Vec::with_capacity(256);
    for i in 0..64 {
        let v = if i < bright { 255 } else { 0 };
        pixels.extend_from_slice(&[v, v, v, 255]);
    }
    CaptureFrame::new(pixels, 8, 8, String::from(timestamp)).unwrap()
}

#[test]
fn hash_is_consistent_for_same_image() {
    let img = solid_image(100, 150, 200, 64, 64);
    let h1 = compute_average_hash(&img);
    let h2 = compute_average_hash(&img);
    assert_eq!(h1, h2, "same image must produce the same hash");
}

#[test]
fn different_images_produce_different_hashes() {
    let white = solid_image(255, 255, 255, 64, 64);
    let black = solid_image(0, 0, 0, 64, 64);
    let split = split_image(64, 64);

    let h_white = compute_average_hash(&white);
    let h_black = compute_average_hash(&black);
    let h_split = compute_average_hash(&split);

    assert_ne!(h_split, h_white, "split vs white should differ");
    assert_ne!(h_split, h_black, "split vs black should differ");
}

#[test]
fn frame_diff_identifies_similar_frames() {
    let img_a = solid_image(128, 128, 128, 64, 64);
    let img_b = solid_image(130, 130, 130, 64, 64);

    let h_a = compute_average_hash(&img_a);
    let h_b = compute_average_hash(&img_b);

    let dist = hamming_distance(h_a, h_b);
    assert!(dist < 5, "similar images should have hamming distance < 5 (got {})", dist);
}

#[test]
fn frame_diff_detects_large_changes() {
    let white = solid_image(255, 255, 255, 64, 64);
    let split = split_image(64, 64);

    let h_w = compute_average_hash(&white);
    let h_s = compute_average_hash(&split);

    let dist = hamming_distance(h_w, h_s);
    assert!(
        dist >= 5,
        "visually different images should have hamming distance >= 5 (got {})",
        dist
    );
}

#[test]
fn hamming_distance_basics() {
    assert_eq!(hamming_distance(0, 0), 0);
    assert_eq!(hamming_distance(0xFF, 0x00), 8);
    assert_eq!(hamming_distance(u64::MAX, 0), 64);
}

#[test]
fn hamming_distance_of_a_hash_to_itself_is_zero() {
    for x in [0u64, 1, 0xDEAD_BEEF, u64::MAX, 1 << 63] {
        assert_eq!(hamming_distance(x, x), 0);
    }
    assert_eq!(hamming_distance(0b1010, 0b0110), 2);
    assert_eq!(hamming_distance(1 << 63, 0), 1);
}

#[test]
fn average_hash_sets_one_bit_per_bright_cell() {
    let mut luma = [0u8; 64];
    luma[0] = 255;
    luma[63] = 255;
    // mean is 510 / 64 = 7: only the two bright cells lie above it
    assert_eq!(average_hash(&luma), 1 | (1 << 63));
    // a flat thumbnail has no cell above its mean
    assert_eq!(average_hash(&[200u8; 64]), 0);
    // raster order: cell i is bit i
    let mut ramp = [0u8; 64];
    for (i, cell) in ramp.iter_mut().enumerate() {
        *cell = i as u8;
    }
    // sum is 2016, mean 31: cells 32..64 are brighter
    assert_eq!(average_hash(&ramp), 0xFFFF_FFFF_0000_0000);
}

#[test]
fn uniform_and_split_images_hash_apart() {
    let white = compute_average_hash(&solid_image(255, 255, 255, 64, 64));
    let black = compute_average_hash(&solid_image(0, 0, 0, 64, 64));
    let split = compute_average_hash(&split_image(64, 64));
    assert_eq!(white, 0);
    assert_eq!(black, 0);
    assert_eq!(hamming_distance(split, white), 32);
}

#[test]
fn frame_with_wrong_buffer_length_is_refused() {
    assert!(CaptureFrame::new(vec![0u8; 15], 2, 2, String::new()).is_none());
    assert!(CaptureFrame::new(vec![0u8; 17], 2, 2, String::new()).is_none());
    let frame = CaptureFrame::new(vec![0u8; 16], 2, 2, String::new()).unwrap();
    assert_eq!((frame.width(), frame.height()), (2, 2));
    assert!(CaptureFrame::new(Vec::new(), 0, 0, String::new()).is_some());
}

#[test]
fn scaled_height_rounds_to_nearest() {
    assert_eq!(scale_height(1920, 1080, 1024), 576);
    assert_eq!(scale_height(3, 1, 2), 1); // 0.67 rounds up
    assert_eq!(scale_height(4, 1, 1), 0); // 0.25 rounds down
    assert_eq!(scale_height(4, 2, 1), 1); // 0.5 rounds up
    assert_eq!(scale_height(2560, 1440, 1024), 576);
    assert_eq!(scale_height(u32::MAX, u32::MAX, u32::MAX - 1), u32::MAX - 1);
}

#[test]
fn similar_frame_is_skipped_and_hash_still_stored() {
    let first = cells_image(32, "t1");
    let mut last_hash = 0u64;
    let sent = process_frame(&first, 1024, 75, 5, &mut last_hash).unwrap();
    assert!(sent.is_some());
    assert_eq!(last_hash, 0x0000_0000_FFFF_FFFF);

    let second = cells_image(33, "t2");
    let skipped = process_frame(&second, 1024, 75, 5, &mut last_hash).unwrap();
    assert!(skipped.is_none());
    // the stored hash is that of the frame evaluated last, sent or not
    assert_eq!(last_hash, 0x0000_0001_FFFF_FFFF);
}

#[test]
fn emitted_frame_carries_jpeg_size_and_distance() {
    let frame = cells_image(40, "2024-01-01T00:00:00.000Z");
    let mut last_hash = 0u64;
    let encoded = process_frame(&frame, 1024, 75, 5, &mut last_hash).unwrap().unwrap();
    assert_eq!(encoded.width, 8);
    assert_eq!(encoded.height, 8);
    assert_eq!(encoded.distance, 40);
    assert_eq!(encoded.diff_pct_e4(), 625_000);
    assert_eq!(encoded.timestamp, "2024-01-01T00:00:00.000Z");
    let jpeg = base64::engine::general_purpose::STANDARD.decode(&encoded.data).unwrap();
    assert_eq!(&jpeg[..2], &[0xFF, 0xD8]);
    assert_eq!(&jpeg[jpeg.len() - 2..], &[0xFF, 0xD9]);
    let decoded = image::load_from_memory(&jpeg).unwrap();
    assert_eq!((decoded.width(), decoded.height()), (8, 8));
}

#[test]
fn wide_frame_is_scaled_down_to_max_width() {
    let frame = split_image(64, 32);
    let mut last_hash = 0u64;
    let encoded = process_frame(&frame, 16, 75, 5, &mut last_hash).unwrap().unwrap();
    assert_eq!((encoded.width, encoded.height), (16, 8));
    let jpeg = base64::engine::general_purpose::STANDARD.decode(&encoded.data).unwrap();
    let decoded = image::load_from_memory(&jpeg).unwrap();
    assert_eq!((decoded.width(), decoded.height()), (16, 8));
}

#[test]
fn frame_that_jpeg_cannot_hold_is_refused() {
    // scaled to width 0, which no JPEG can have
    let frame = split_image(64, 32);
    let mut last_hash = 0u64;
    let error = process_frame(&frame, 0, 75, 5, &mut last_hash).unwrap_err();
    assert!(error.starts_with("jpeg encode: "), "{error}");
    assert_ne!(last_hash, 0);
}

#[test]
fn threshold_zero_sends_every_frame() {
    let frame = solid_image(10, 10, 10, 8, 8);
    let mut last_hash = 0u64;
    assert!(process_frame(&frame, 1024, 75, 0, &mut last_hash).unwrap().is_some());
    assert!(process_frame(&frame, 1024, 75, 0, &mut last_hash).unwrap().is_some());
    assert!(process_frame(&frame, 1024, 75, 1, &mut last_hash).unwrap().is_none());
}

#[test]
fn screen_capture_toggles_and_keeps_its_settings() {
    let mut capture = ScreenCapture::new(2000, 1024, 75);
    assert!(!capture.is_capturing());
    assert!(capture.toggle());
    assert!(capture.is_capturing());
    assert!(!capture.toggle());
    assert!(!capture.is_capturing());
    assert_eq!(capture.interval_ms(), 2000);
    assert_eq!(capture.last_hash(), 0);
}

#[test]
fn capture_loop_step_follows_the_frame_difference() {
    let mut capture = ScreenCapture::new(2000, 1024, 75);
    // two bright cells: two bits from the stored hash 0, below the threshold
    assert_eq!(capture.on_capture(Ok(cells_image(2, "a"))), CaptureStep::Skipped);
    assert_eq!(capture.last_hash(), 0b11);
    // a failed capture is reported and does not touch the hash
    assert_eq!(
        capture.on_capture(Err(String::from("no monitors found"))),
        CaptureStep::Failed(String::from("no monitors found"))
    );
    assert_eq!(capture.last_hash(), 0b11);
    match capture.on_capture(Ok(cells_image(42, "b"))) {
        CaptureStep::Emit(encoded) => {
            assert_eq!(encoded.distance, 40);
            assert_eq!(encoded.timestamp, "b");
        }
        other => panic!("expected a frame, got {other:?}"),
    }
    capture.set_diff_threshold(64);
    assert_eq!(capture.on_capture(Ok(cells_image(2, "c"))), CaptureStep::Skipped);
}

#[test]
fn epoch_days_convert_to_calendar_dates() {
    assert_eq!(epoch_days_to_ymd(0), (1970, 1, 1));
    assert_eq!(epoch_days_to_ymd(-1), (1969, 12, 31));
    assert_eq!(epoch_days_to_ymd(59), (1970, 3, 1));
    assert_eq!(epoch_days_to_ymd(11_016), (2000, 2, 29));
    assert_eq!(epoch_days_to_ymd(11_017), (2000, 3, 1));
    assert_eq!(epoch_days_to_ymd(19_723), (2024, 1, 1));
    assert_eq!(epoch_days_to_ymd(19_782), (2024, 2, 29));
    assert_eq!(epoch_days_to_ymd(47_540), (2100, 2, 28));
    assert_eq!(epoch_days_to_ymd(47_541), (2100, 3, 1));
    assert_eq!(epoch_days_to_ymd(-719_468), (0, 3, 1));
    assert_eq!(epoch_days_to_ymd(-719_528), (0, 1, 1));
    assert_eq!(epoch_days_to_ymd(-719_529), (-1, 12, 31));
}

#[test]
fn chrono_timestamp_has_milliseconds() {
    let ts = chrono_now_iso();
    assert_eq!(ts.len(), 24, "{ts}");
    assert!(ts.ends_with('Z'));
    assert_eq!(&ts[10..11], "T");
    assert_eq!(&ts[19..20], ".");
}

#[test]
fn primary_monitor_is_preferred() {
    assert_eq!(pick_monitor(&[]), None);
    assert_eq!(pick_monitor(&[false]), Some(0));
    assert_eq!(pick_monitor(&[false, true, true]), Some(1));
    assert_eq!(pick_monitor(&[false, false, false]), Some(0));
    assert_eq!(pick_monitor(&[true, false]), Some(0));
}
