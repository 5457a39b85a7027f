//! Frame differencing for screen capture: a 64-bit average hash per frame and
//! the Hamming distance between consecutive hashes.

use vstd::prelude::*;
use crate::capture::imaging::{
    image_error_text, jpeg_bytes, jpeg_encode, jpeg_size_ok, luma8, luma_of_rgba, resize_fits,
    resize_rgba, rgb_of_rgba, triangle_resized, without_alpha,
};
use crate::calendar::{civil_from_days, date_of_days, days_from_civil, is_date};
use crate::clock::{format_iso_millis, unix_time_now};
use crate::encoding::{base64_encode, base64_fits, base64_text, fits_base64};

verus! {

/// Bit `i` of `x`, counted from the least significant bit.
pub open spec fn bit_at(x: u64, i: nat) -> bool {
    (x >> (i as u64)) & 1 == 1
}

/// Number of positions below `n` at which `a` and `b` hold different bits.
pub open spec fn differing_bits(a: u64, b: u64, n: nat) -> nat
    decreases n,
{
    if n == 0 {
        0
    } else {
        differing_bits(a, b, (n - 1) as nat) + if bit_at(a, (n - 1) as nat) != bit_at(
            b,
            (n - 1) as nat,
        ) {
            1nat
        } else {
            0nat
        }
    }
}

/// The Hamming distance of two 64-bit hashes: how many of the 64 bits differ.
pub open spec fn hamming_spec(a: u64, b: u64) -> nat {
    differing_bits(a, b, 64)
}

proof fn lemma_differing_bits_self(x: u64, n: nat)
    ensures
        differing_bits(x, x, n) == 0,
    decreases n,
{
    if n > 0 {
        lemma_differing_bits_self(x, (n - 1) as nat);
    }
}

proof fn lemma_differing_bits_symmetric(a: u64, b: u64, n: nat)
    ensures
        differing_bits(a, b, n) == differing_bits(b, a, n),
        differing_bits(a, b, n) <= n,
    decreases n,
{
    if n > 0 {
        lemma_differing_bits_symmetric(a, b, (n - 1) as nat);
    }
}

/// A hash is at distance 0 from itself.
pub proof fn lemma_hamming_self(x: u64)
    ensures
        hamming_spec(x, x) == 0,
{
    lemma_differing_bits_self(x, 64);
}

/// The distance does not depend on the order of the two hashes, and is at
/// most 64.
pub proof fn lemma_hamming_symmetric(a: u64, b: u64)
    ensures
        hamming_spec(a, b) == hamming_spec(b, a),
        hamming_spec(a, b) <= 64,
{
    lemma_differing_bits_symmetric(a, b, 64);
}

proof fn lemma_xor_bit(a: u64, b: u64, i: u64)
    requires
        i < 64,
    ensures
        (((a ^ b) >> i) & 1 == 1) == (((a >> i) & 1 == 1) != ((b >> i) & 1 == 1)),
        ((a ^ b) >> i) & 1 <= 1,
{
    assert((((a ^ b) >> i) & 1 == 1) == (((a >> i) & 1 == 1) != ((b >> i) & 1 == 1)))
        by (bit_vector)
        requires
            i < 64,
    ;
    assert(((a ^ b) >> i) & 1 <= 1) by (bit_vector);
}

/// Counts how many bits differ between two hashes.
pub fn hamming_distance(a: u64, b: u64) -> (d: u32)
    ensures
        d == hamming_spec(a, b),
        d <= 64,
{
    let x: u64 = a ^ b;
    let mut d: u32 = 0;
    let mut i: u32 = 0;
    while i < 64
        invariant
            i <= 64,
            x == a ^ b,
            d == differing_bits(a, b, i as nat),
            d <= i,
        decreases 64 - i,
    {
        proof {
            lemma_xor_bit(a, b, i as u64);
        }
        let low: u64 = (x >> (i as u64)) & 1;
        if low == 1 {
            d = d + 1;
        }
        i = i + 1;
    }
    d
}

/// Converts days since the Unix epoch, 1 January 1970, into year, month and
/// day of the Gregorian calendar.
pub fn epoch_days_to_ymd(days: i64) -> (date: (i64, u32, u32))
    requires
        days <= i64::MAX - 719_468,
    ensures
        is_date(date.0 as int, date.1 as int, date.2 as int),
        days_from_civil(date.0 as int, date.1 as int, date.2 as int) == days,
        (date.0 as int, date.1 as int, date.2 as int) == date_of_days(days as int),
{
    civil_from_days(days)
}

/// Side of the thumbnail that a hash is made of.
pub const HASH_SIDE: u32 = 8;

/// Number of differing bits below which a frame counts as unchanged.
pub const DEFAULT_DIFF_THRESHOLD: u32 = 5;

/// The sum of the first `n` luminance values.
pub open spec fn luma_sum(luma: Seq<u8>, n: nat) -> nat
    decreases n,
{
    if n == 0 {
        0
    } else {
        luma_sum(luma, (n - 1) as nat) + luma[n - 1] as nat
    }
}

/// The mean of 64 luminance values, rounded down.
pub open spec fn luma_mean(luma: Seq<u8>) -> nat {
    luma_sum(luma, 64) / 64
}

/// The average hash of the first `n` cells: bit `i` is set if and only if
/// cell `i` is brighter than the mean of all 64 cells.
pub open spec fn hash_of_cells(luma: Seq<u8>, n: nat) -> u64
    decreases n,
{
    if n == 0 {
        0
    } else {
        let below = hash_of_cells(luma, (n - 1) as nat);
        if luma[n - 1] as nat > luma_mean(luma) {
            below | (1u64 << ((n - 1) as u64))
        } else {
            below
        }
    }
}

/// The average hash of 64 luminance values in raster order.
pub open spec fn average_hash_spec(luma: Seq<u8>) -> u64 {
    hash_of_cells(luma, 64)
}

proof fn lemma_set_bit(h: u64, i: u64, j: u64)
    requires
        i < 64,
        j < 64,
    ensures
        (((h | (1u64 << i)) >> j) & 1 == 1) == (((h >> j) & 1 == 1) || i == j),
{
    assert((((h | (1u64 << i)) >> j) & 1 == 1) == (((h >> j) & 1 == 1) || i == j))
        by (bit_vector)
        requires
            i < 64,
            j < 64,
    ;
}

proof fn lemma_zero_bits(j: u64)
    requires
        j < 64,
    ensures
        (0u64 >> j) & 1 == 0,
{
    assert((0u64 >> j) & 1 == 0) by (bit_vector);
}

/// Bit `i` of the hash of the first `n` cells says whether cell `i` is
/// brighter than the mean, for `i` below `n`; the bits from `n` on are
/// clear.
pub proof fn lemma_hash_bits(luma: Seq<u8>, n: nat, i: nat)
    requires
        n <= 64,
        i < 64,
    ensures
        bit_at(hash_of_cells(luma, n), i) == (i < n && luma[i as int] as nat > luma_mean(luma)),
    decreases n,
{
    if n == 0 {
        lemma_zero_bits(i as u64);
    } else {
        lemma_hash_bits(luma, (n - 1) as nat, i);
        lemma_set_bit(hash_of_cells(luma, (n - 1) as nat), (n - 1) as u64, i as u64);
    }
}

/// Every bit of an average hash says whether its cell is brighter than
/// the mean of the 64 cells.
pub proof fn lemma_average_hash_bits(luma: Seq<u8>)
    ensures
        forall|i: nat|
            i < 64 ==> #[trigger] bit_at(average_hash_spec(luma), i) == (luma[i as int] as nat
                > luma_mean(luma)),
{
    assert forall|i: nat| i < 64 implies #[trigger] bit_at(average_hash_spec(luma), i) == (luma[i as int] as nat
        > luma_mean(luma)) by {
        lemma_hash_bits(luma, 64, i);
    }
}

/// Computes the average hash of 64 luminance values: each cell is compared
/// with the mean of all cells, one bit per cell in raster order.
pub fn average_hash(luma: &[u8]) -> (hash: u64)
    requires
        luma@.len() == 64,
    ensures
        hash == average_hash_spec(luma@),
        forall|i: nat|
            i < 64 ==> #[trigger] bit_at(hash, i) == (luma@[i as int] as nat > luma_mean(luma@)),
{
    let mut sum: u64 = 0;
    let mut i: usize = 0;
    while i < 64
        invariant
            i <= 64,
            luma@.len() == 64,
            sum == luma_sum(luma@, i as nat),
            sum <= 255 * i,
        decreases 64 - i,
    {
        sum = sum + luma[i] as u64;
        i = i + 1;
    }
    let mean: u64 = sum / 64;
    let mut hash: u64 = 0;
    let mut k: usize = 0;
    while k < 64
        invariant
            k <= 64,
            luma@.len() == 64,
            mean == luma_mean(luma@),
            hash == hash_of_cells(luma@, k as nat),
        decreases 64 - k,
    {
        if luma[k] as u64 > mean {
            hash = hash | (1u64 << (k as u64));
        }
        k = k + 1;
    }
    proof {
        lemma_average_hash_bits(luma@);
    }
    hash
}

/// One captured frame: RGBA pixels row by row, with the time of capture.
#[derive(Debug)]
pub struct CaptureFrame {
    pixels: Vec<u8>,
    width: u32,
    height: u32,
    timestamp: String,
}

/// A frame as plain values.
pub struct CaptureFrameView {
    pub pixels: Seq<u8>,
    pub width: u32,
    pub height: u32,
    pub timestamp: Seq<char>,
}

impl View for CaptureFrame {
    type V = CaptureFrameView;

    closed spec fn view(&self) -> CaptureFrameView {
        CaptureFrameView {
            pixels: self.pixels@,
            width: self.width,
            height: self.height,
            timestamp: self.timestamp@,
        }
    }
}

/// Whether a frame of this size can be handled on this machine: four bytes
/// for each pixel, and room for the buffers of resampling.
pub open spec fn frame_fits(len: nat, width: u32, height: u32) -> bool {
    &&& len == 4 * width * height
    &&& 16 * width * height <= isize::MAX
    &&& 128 * width <= isize::MAX
}

impl CaptureFrameView {
    /// Whether the pixel buffer matches the dimensions, within what the
    /// machine can handle.
    pub open spec fn wf(self) -> bool {
        frame_fits(self.pixels.len(), self.width, self.height)
    }

    /// The luminance thumbnail of the frame: 8 by 8 cells.
    pub open spec fn thumbnail(self) -> Seq<u8> {
        luma8(triangle_resized(self.pixels, self.width, self.height, 8, 8), 8, 8)
    }

    /// The perceptual hash of the frame.
    pub open spec fn hash(self) -> u64 {
        average_hash_spec(self.thumbnail())
    }
}

/// Frames with the same pixels and dimensions have the same hash.
pub proof fn lemma_same_image_same_hash(a: CaptureFrameView, b: CaptureFrameView)
    requires
        a.pixels == b.pixels,
        a.width == b.width,
        a.height == b.height,
    ensures
        a.hash() == b.hash(),
{
}

impl CaptureFrame {
    #[verifier::type_invariant]
    spec fn fits(self) -> bool {
        frame_fits(self.pixels@.len(), self.width, self.height)
    }

    /// A frame of `width` by `height` RGBA pixels. `None` where the buffer
    /// does not hold exactly four bytes for each pixel, or the frame is too
    /// large for this machine.
    pub fn new(pixels: Vec<u8>, width: u32, height: u32, timestamp: String) -> (frame: Option<
        CaptureFrame,
    >)
        ensures
            match frame {
                Some(f) => f@ == (CaptureFrameView {
                    pixels: pixels@,
                    width,
                    height,
                    timestamp: timestamp@,
                }) && f@.wf(),
                None => !frame_fits(pixels@.len(), width, height),
            },
    {
        assert(width * height <= 0xffff_ffff * 0xffff_ffff) by (nonlinear_arith)
            requires
                width <= 0xffff_ffff,
                height <= 0xffff_ffff,
        ;
        let area: u64 = width as u64 * height as u64;
        let limit: u64 = (isize::MAX as u64) / 16;
        assert(4 * width * height == 4 * area && 16 * width * height == 16 * area)
            by (nonlinear_arith)
            requires
                area == width * height,
        ;
        if area > limit || width as u64 > (isize::MAX as u64) / 128 {
            return None;
        }
        if pixels.len() as u64 != 4 * area {
            return None;
        }
        Some(CaptureFrame { pixels, width, height, timestamp })
    }

    /// Width in pixels. Every frame matches its dimensions, within what
    /// the machine can handle.
    pub fn width(&self) -> (width: u32)
        ensures
            width == self@.width,
            self@.wf(),
    {
        proof {
            use_type_invariant(self);
        }
        self.width
    }

    /// Height in pixels.
    pub fn height(&self) -> (height: u32)
        ensures
            height == self@.height,
    {
        self.height
    }
}

/// Computes the 64-bit average hash of a frame: the frame is resampled to
/// 8 by 8 cells of luminance, and each cell is compared with the mean.
pub fn compute_average_hash(frame: &CaptureFrame) -> (hash: u64)
    ensures
        hash == frame@.hash(),
{
    proof {
        use_type_invariant(frame);
    }
    let small = resize_rgba(&frame.pixels, frame.width, frame.height, HASH_SIDE, HASH_SIDE);
    let luma = luma_of_rgba(&small, HASH_SIDE, HASH_SIDE);
    average_hash(luma.as_slice())
}

/// `height * new_width / width`, rounded to the nearest whole number, half
/// up.
pub open spec fn scaled_height(width: u32, height: u32, new_width: u32) -> int {
    (2 * height * new_width + width) / (2 * width)
}

/// The size at which a frame is sent: frames wider than `max_width` are
/// scaled down to that width, keeping their proportions; others stay as
/// they are.
pub open spec fn sent_size(width: u32, height: u32, max_width: u32) -> (int, int) {
    if width > max_width {
        (max_width as int, scaled_height(width, height, max_width))
    } else {
        (width as int, height as int)
    }
}

/// The height of a frame scaled to `new_width`, which is narrower than the
/// frame; never more than the height of the frame.
pub fn scale_height(width: u32, height: u32, new_width: u32) -> (scaled: u32)
    requires
        new_width < width,
    ensures
        scaled == scaled_height(width, height, new_width),
        scaled <= height,
{
    assert(height * new_width <= 0xffff_ffff * 0xffff_ffff) by (nonlinear_arith)
        requires
            height <= 0xffff_ffff,
            new_width <= 0xffff_ffff,
    ;
    let product: u64 = height as u64 * new_width as u64;
    let whole: u64 = product / width as u64;
    let rest: u64 = product % width as u64;
    let up: u64 = if 2 * rest >= width as u64 {
        1
    } else {
        0
    };
    proof {
        let p = product as int;
        let w = width as int;
        assert(p == height * new_width);
        assert(2 * height * new_width == 2 * p) by (nonlinear_arith)
            requires
                p == height * new_width,
        ;
        assert(p <= height * (w - 1)) by (nonlinear_arith)
            requires
                p == height * new_width,
                new_width <= w - 1,
        ;
        assert(p == whole * w + rest) by (nonlinear_arith)
            requires
                whole == p / w,
                rest == p % w,
                w > 0,
        ;
        assert((2 * p + w) / (2 * w) == whole + up) by (nonlinear_arith)
            requires
                p == whole * w + rest,
                0 <= rest < w,
                w > 0,
                up == (if 2 * rest >= w {
                    1int
                } else {
                    0int
                }),
        ;
        assert(whole + up <= height) by (nonlinear_arith)
            requires
                p == whole * w + rest,
                p <= height * (w - 1),
                0 <= rest < w,
                w > 0,
                0 <= up <= 1,
                up == 1 ==> 2 * rest >= w,
                whole >= 0,
                height >= 0,
        ;
    }
    (whole + up) as u32
}

/// A frame that is worth sending, encoded.
#[derive(Debug, Clone, PartialEq)]
pub struct EncodedFrame {
    /// The JPEG file as base64.
    pub data: String,
    /// When the frame was captured.
    pub timestamp: String,
    /// Width of the image as sent.
    pub width: u32,
    /// Height of the image as sent.
    pub height: u32,
    /// Hamming distance to the hash of the frame before, out of 64 bits.
    pub distance: u32,
}

/// An encoded frame as plain values.
pub struct EncodedFrameView {
    pub data: Seq<char>,
    pub timestamp: Seq<char>,
    pub width: u32,
    pub height: u32,
    pub distance: u32,
}

impl View for EncodedFrame {
    type V = EncodedFrameView;

    open spec fn view(&self) -> EncodedFrameView {
        EncodedFrameView {
            data: self.data@,
            timestamp: self.timestamp@,
            width: self.width,
            height: self.height,
            distance: self.distance,
        }
    }
}

impl EncodedFrame {
    /// The distance as a percentage of the 64 bits of a hash, in
    /// ten-thousandths of a percent: no bit differing is 0, all bits
    /// differing is 1 000 000.
    pub fn diff_pct_e4(&self) -> (scaled: u64)
        ensures
            scaled == self.distance * 15_625,
            scaled * 64 == self.distance * 1_000_000,
    {
        self.distance as u64 * 15_625
    }
}

impl CaptureFrameView {
    /// The RGBA pixels of the frame as sent: resampled if the frame is
    /// wider than `max_width`.
    pub open spec fn sent_pixels(self, max_width: u32) -> Seq<u8> {
        if self.width > max_width {
            triangle_resized(
                self.pixels,
                self.width,
                self.height,
                max_width,
                scaled_height(self.width, self.height, max_width) as u32,
            )
        } else {
            self.pixels
        }
    }

    /// The JPEG file of the frame as sent.
    pub open spec fn sent_jpeg(self, max_width: u32, quality: u8) -> Seq<u8> {
        let size = sent_size(self.width, self.height, max_width);
        jpeg_bytes(without_alpha(self.sent_pixels(max_width)), size.0 as u32, size.1 as u32, quality)
    }

    /// Whether the frame can be encoded: its size as sent is one that JPEG
    /// can hold, and the base64 text of the file fits in memory.
    pub open spec fn encodable(self, max_width: u32, quality: u8) -> bool {
        let size = sent_size(self.width, self.height, max_width);
        jpeg_size_ok(size.0 as u32, size.1 as u32) && base64_fits(
            self.sent_jpeg(max_width, quality).len(),
        )
    }

    /// The frame, encoded for sending, `distance` bits away from the frame
    /// before.
    pub open spec fn encoded(self, max_width: u32, quality: u8, distance: u32) -> EncodedFrameView {
        let size = sent_size(self.width, self.height, max_width);
        EncodedFrameView {
            data: base64_text(self.sent_jpeg(max_width, quality)),
            timestamp: self.timestamp,
            width: size.0 as u32,
            height: size.1 as u32,
            distance,
        }
    }
}

/// Whether `result` is what evaluating `frame` gives, `distance` bits away
/// from the frame before. A frame closer than `threshold` is skipped. Any
/// other frame is encoded, or refused with a message that begins with
/// `jpeg encode: ` if it cannot be.
pub open spec fn frame_result_ok(
    frame: CaptureFrameView,
    max_width: u32,
    quality: u8,
    threshold: u32,
    distance: u32,
    result: Result<Option<EncodedFrame>, String>,
) -> bool {
    if distance < threshold {
        result matches Ok(None)
    } else if frame.encodable(max_width, quality) {
        match result {
            Ok(Some(encoded)) => encoded@ == frame.encoded(max_width, quality, distance),
            _ => false,
        }
    } else {
        match result {
            Err(message) => "jpeg encode: "@.is_prefix_of(message@),
            _ => false,
        }
    }
}

fn encode_frame(frame: &CaptureFrame, max_width: u32, quality: u8, distance: u32) -> (result:
    Result<Option<EncodedFrame>, String>)
    ensures
        frame@.encodable(max_width, quality) ==> (match result {
            Ok(Some(encoded)) => encoded@ == frame@.encoded(max_width, quality, distance),
            _ => false,
        }),
        !frame@.encodable(max_width, quality) ==> (match result {
            Err(message) => "jpeg encode: "@.is_prefix_of(message@),
            _ => false,
        }),
{
    proof {
        use_type_invariant(frame);
    }
    let (width, height, rgb) = if frame.width > max_width {
        let height = scale_height(frame.width, frame.height, max_width);
        assert(resize_fits(frame.width, max_width, height)) by (nonlinear_arith)
            requires
                16 * frame.width * frame.height <= isize::MAX,
                height <= frame.height,
                max_width < frame.width,
        ;
        let scaled = resize_rgba(&frame.pixels, frame.width, frame.height, max_width, height);
        (max_width, height, rgb_of_rgba(&scaled, max_width, height))
    } else {
        (frame.width, frame.height, rgb_of_rgba(&frame.pixels, frame.width, frame.height))
    };
    assert(rgb@.len() == 3 * width * height) by {
        let pixels = frame@.sent_pixels(max_width);
        assert(pixels.len() == 4 * width * height);
        assert((4 * (width * height)) / 4 == width * height);
        assert(4 * width * height == 4 * (width * height)) by (nonlinear_arith);
        assert(3 * width * height == (width * height) * 3) by (nonlinear_arith);
    }
    match jpeg_encode(&rgb, width, height, quality) {
        Ok(file) => {
            if !fits_base64(file.len()) {
                proof {
                    reveal_strlit("jpeg encode: image too large");
                    reveal_strlit("jpeg encode: ");
                    assert("jpeg encode: image too large"@.subrange(0, 13) =~= "jpeg encode: "@);
                }
                return Err(String::from_str("jpeg encode: image too large"));
            }
            Ok(
                Some(
                    EncodedFrame {
                        data: base64_encode(file.as_slice()),
                        timestamp: frame.timestamp.clone(),
                        width,
                        height,
                        distance,
                    },
                ),
            )
        },
        Err(error) => {
            let detail = image_error_text(&error);
            Err(String::from_str("jpeg encode: ").concat(detail.as_str()))
        },
    }
}

/// Evaluates one captured frame against the hash of the frame before.
/// The stored hash is always replaced by the hash of this frame, so that
/// the next frame is compared with this one whether or not it was sent.
/// A frame fewer than `threshold` bits away is skipped; any other is scaled
/// down to `max_width` if it is wider, encoded as JPEG at `jpeg_quality`
/// and returned as base64 with its size and distance.
pub fn process_frame(
    frame: &CaptureFrame,
    max_width: u32,
    jpeg_quality: u8,
    threshold: u32,
    last_hash: &mut u64,
) -> (result: Result<Option<EncodedFrame>, String>)
    ensures
        *final(last_hash) == frame@.hash(),
        frame_result_ok(
            frame@,
            max_width,
            jpeg_quality,
            threshold,
            hamming_spec(frame@.hash(), *old(last_hash)) as u32,
            result,
        ),
{
    let current = compute_average_hash(frame);
    let distance = hamming_distance(current, *last_hash);
    *last_hash = current;
    if distance < threshold {
        return Ok(None);
    }
    encode_frame(frame, max_width, jpeg_quality, distance)
}

/// Configuration and state of screen capture.
#[derive(Debug, Clone)]
pub struct ScreenCapture {
    is_capturing: bool,
    interval_ms: u64,
    max_width: u32,
    jpeg_quality: u8,
    last_hash: u64,
    diff_threshold: u32,
}

/// Screen capture as plain values.
pub struct ScreenCaptureView {
    /// Whether the capture loop is running.
    pub is_capturing: bool,
    /// Milliseconds between successive captures.
    pub interval_ms: u64,
    /// Frames wider than this are scaled down.
    pub max_width: u32,
    /// JPEG quality, 1 to 100.
    pub jpeg_quality: u8,
    /// Hash of the frame evaluated last.
    pub last_hash: u64,
    /// Number of differing bits below which a frame is skipped.
    pub diff_threshold: u32,
}

impl View for ScreenCapture {
    type V = ScreenCaptureView;

    closed spec fn view(&self) -> ScreenCaptureView {
        ScreenCaptureView {
            is_capturing: self.is_capturing,
            interval_ms: self.interval_ms,
            max_width: self.max_width,
            jpeg_quality: self.jpeg_quality,
            last_hash: self.last_hash,
            diff_threshold: self.diff_threshold,
        }
    }
}

/// What one turn of the capture loop gives.
#[derive(Debug, Clone, PartialEq)]
pub enum CaptureStep {
    /// A frame to emit and to analyse.
    Emit(EncodedFrame),
    /// The frame was too similar to the one before.
    Skipped,
    /// Capturing or encoding failed, with the reason.
    Failed(String),
}

/// The result of a frame evaluation as a step of the capture loop.
pub open spec fn step_of(result: Result<Option<EncodedFrame>, String>, step: CaptureStep) -> bool {
    match result {
        Ok(Some(encoded)) => step == CaptureStep::Emit(encoded),
        Ok(None) => step == CaptureStep::Skipped,
        Err(message) => step == CaptureStep::Failed(message),
    }
}

/// Turns the result of a frame evaluation into a step of the capture loop.
pub fn step_for(result: Result<Option<EncodedFrame>, String>) -> (step: CaptureStep)
    ensures
        step_of(result, step),
{
    match result {
        Ok(Some(encoded)) => CaptureStep::Emit(encoded),
        Ok(None) => CaptureStep::Skipped,
        Err(message) => CaptureStep::Failed(message),
    }
}

impl ScreenCapture {
    /// Screen capture with the given settings, not running, with hash 0
    /// stored and the default threshold of 5 bits.
    pub fn new(interval_ms: u64, max_width: u32, jpeg_quality: u8) -> (capture: ScreenCapture)
        ensures
            capture@ == (ScreenCaptureView {
                is_capturing: false,
                interval_ms,
                max_width,
                jpeg_quality,
                last_hash: 0,
                diff_threshold: DEFAULT_DIFF_THRESHOLD,
            }),
    {
        ScreenCapture {
            is_capturing: false,
            interval_ms,
            max_width,
            jpeg_quality,
            last_hash: 0,
            diff_threshold: DEFAULT_DIFF_THRESHOLD,
        }
    }

    /// Flips the capturing flag. Returns the new state.
    pub fn toggle(&mut self) -> (now_capturing: bool)
        ensures
            now_capturing == !old(self)@.is_capturing,
            final(self)@ == (ScreenCaptureView { is_capturing: now_capturing, ..old(self)@ }),
    {
        self.is_capturing = !self.is_capturing;
        self.is_capturing
    }

    /// Whether the capture loop is active.
    pub fn is_capturing(&self) -> (capturing: bool)
        ensures
            capturing == self@.is_capturing,
    {
        self.is_capturing
    }

    /// Milliseconds to wait between captures.
    pub fn interval_ms(&self) -> (interval_ms: u64)
        ensures
            interval_ms == self@.interval_ms,
    {
        self.interval_ms
    }

    /// Hash of the frame evaluated last.
    pub fn last_hash(&self) -> (hash: u64)
        ensures
            hash == self@.last_hash,
    {
        self.last_hash
    }

    /// Sets the number of differing bits below which a frame is skipped.
    pub fn set_diff_threshold(&mut self, threshold: u32)
        ensures
            final(self)@ == (ScreenCaptureView { diff_threshold: threshold, ..old(self)@ }),
    {
        self.diff_threshold = threshold;
    }

    /// One turn of the capture loop, for what the capture device gave. A
    /// failed capture is reported and leaves the stored hash alone, as no
    /// frame was seen. A captured frame is evaluated under this capture's
    /// settings, and its hash is stored whether or not it is emitted.
    pub fn on_capture(&mut self, captured: Result<CaptureFrame, String>) -> (step: CaptureStep)
        ensures
            match captured {
                Ok(frame) => final(self)@ == (ScreenCaptureView {
                    last_hash: frame@.hash(),
                    ..old(self)@
                }) && exists|result: Result<Option<EncodedFrame>, String>|
                    #[trigger] step_of(result, step) && frame_result_ok(
                        frame@,
                        old(self)@.max_width,
                        old(self)@.jpeg_quality,
                        old(self)@.diff_threshold,
                        hamming_spec(frame@.hash(), old(self)@.last_hash) as u32,
                        result,
                    ),
                Err(message) => final(self)@ == old(self)@ && step == CaptureStep::Failed(message),
            },
    {
        match captured {
            Ok(frame) => {
                let mut hash = self.last_hash;
                let result = process_frame(
                    &frame,
                    self.max_width,
                    self.jpeg_quality,
                    self.diff_threshold,
                    &mut hash,
                );
                self.last_hash = hash;
                let ghost evaluated = result;
                let step = step_for(result);
                assert(step_of(evaluated, step));
                step
            },
            Err(message) => CaptureStep::Failed(message),
        }
    }
}

/// The current time in UTC as `YYYY-MM-DDTHH:MM:SS.mmmZ`. The text is that
/// of some moment at or after the Unix epoch; which one, the clock decides.
pub fn chrono_now_iso() -> (text: String)
    ensures
        exists|secs: nat, millis: nat|
            millis < 1000 && text@ == #[trigger] crate::clock::iso_millis(secs, millis),
{
    let (secs, millis) = unix_time_now();
    format_iso_millis(secs, millis)
}

/// Picks the monitor to capture: the first primary one, or the first one
/// if none is primary. `primary` says of each monitor, in the order in
/// which the system lists them, whether it is the primary one.
pub fn pick_monitor(primary: &[bool]) -> (picked: Option<usize>)
    ensures
        match picked {
            Some(i) => i < primary@.len() && (primary@[i as int] && (forall|j: int|
                0 <= j < i ==> !primary@[j]) || i == 0 && forall|j: int|
                0 <= j < primary@.len() ==> !primary@[j]),
            None => primary@.len() == 0,
        },
{
    let mut i: usize = 0;
    while i < primary.len()
        invariant
            i <= primary.len(),
            forall|j: int| 0 <= j < i ==> !primary@[j],
        decreases primary.len() - i,
    {
        if primary[i] {
            return Some(i);
        }
        i = i + 1;
    }
    if primary.len() > 0 {
        Some(0)
    } else {
        None
    }
}

} // verus!
