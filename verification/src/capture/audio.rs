//! Audio chunk preparation: PCM bytes, resampling geometry, signal energy
//! and the chunk event. Sample arithmetic in floating point stays with the
//! caller; what is decided in whole numbers is decided here.

use vstd::prelude::*;
use crate::calendar::{
    civil_from_days, date_of_days, days_from_civil, is_date, lemma_year_since_epoch,
};
use crate::clock::{format_iso_millis, unix_time_now};
use crate::encoding::{base64_encode, base64_fits, base64_text};

verus! {

/// Payload of the `capture:audio-chunk` event: PCM for the model.
#[derive(Debug, Clone, PartialEq)]
pub struct AudioChunkPayload {
    /// Base64 of the 16-bit little-endian samples.
    pub data: String,
    /// When the chunk was captured.
    pub timestamp: String,
    /// Sample rate of the PCM data.
    pub sample_rate: u32,
    /// Duration of the chunk in milliseconds.
    pub duration_ms: u32,
}

/// An audio chunk payload as plain values.
pub struct AudioChunkPayloadView {
    pub data: Seq<char>,
    pub timestamp: Seq<char>,
    pub sample_rate: u32,
    pub duration_ms: u32,
}

impl View for AudioChunkPayload {
    type V = AudioChunkPayloadView;

    open spec fn view(&self) -> AudioChunkPayloadView {
        AudioChunkPayloadView {
            data: self.data@,
            timestamp: self.timestamp@,
            sample_rate: self.sample_rate,
            duration_ms: self.duration_ms,
        }
    }
}

/// Configuration and state of audio capture.
#[derive(Debug, Clone)]
pub struct AudioCapture {
    is_capturing: bool,
    sample_rate: u32,
    chunk_ms: u32,
}

/// Audio capture as plain values.
pub struct AudioCaptureView {
    /// Whether the capture loop is running.
    pub is_capturing: bool,
    /// Sample rate of the chunks that go out.
    pub sample_rate: u32,
    /// Milliseconds of audio in each chunk.
    pub chunk_ms: u32,
}

impl View for AudioCapture {
    type V = AudioCaptureView;

    closed spec fn view(&self) -> AudioCaptureView {
        AudioCaptureView {
            is_capturing: self.is_capturing,
            sample_rate: self.sample_rate,
            chunk_ms: self.chunk_ms,
        }
    }
}

impl AudioCapture {
    /// Audio capture that is not running, for chunks of `chunk_ms`
    /// milliseconds at `sample_rate`.
    pub fn new(sample_rate: u32, chunk_ms: u32) -> (capture: AudioCapture)
        ensures
            capture@ == (AudioCaptureView { is_capturing: false, sample_rate, chunk_ms }),
    {
        AudioCapture { is_capturing: false, sample_rate, chunk_ms }
    }

    /// Flips the capturing flag. Returns `true` if capturing is now on.
    pub fn toggle(&mut self) -> (now_capturing: bool)
        ensures
            now_capturing == !old(self)@.is_capturing,
            final(self)@ == (AudioCaptureView { is_capturing: now_capturing, ..old(self)@ }),
    {
        self.is_capturing = !self.is_capturing;
        self.is_capturing
    }

    /// Whether audio capture is active.
    pub fn is_capturing(&self) -> (capturing: bool)
        ensures
            capturing == self@.is_capturing,
    {
        self.is_capturing
    }

    /// Sample rate of the chunks that go out.
    pub fn sample_rate(&self) -> (sample_rate: u32)
        ensures
            sample_rate == self@.sample_rate,
    {
        self.sample_rate
    }

    /// Milliseconds of audio in each chunk.
    pub fn chunk_ms(&self) -> (chunk_ms: u32)
        ensures
            chunk_ms == self@.chunk_ms,
    {
        self.chunk_ms
    }

    /// The event for one chunk of samples captured at `timestamp`: the
    /// samples as little-endian bytes in base64, with this capture's rate
    /// and chunk length.
    pub fn chunk_payload(&self, samples: &[i16], timestamp: &str) -> (payload: AudioChunkPayload)
        requires
            base64_fits(2 * samples@.len()),
        ensures
            payload@ == (AudioChunkPayloadView {
                data: base64_text(le_bytes(samples@)),
                timestamp: timestamp@,
                sample_rate: self@.sample_rate,
                duration_ms: self@.chunk_ms,
            }),
    {
        let bytes = pcm_i16_to_bytes(samples);
        AudioChunkPayload {
            data: base64_encode(bytes.as_slice()),
            timestamp: String::from_str(timestamp),
            sample_rate: self.sample_rate,
            duration_ms: self.chunk_ms,
        }
    }
}

/// The 16 bits of a sample as a number from 0 to 65535: negative samples
/// in two's complement.
pub open spec fn sample_bits(sample: i16) -> int {
    if sample >= 0 {
        sample as int
    } else {
        sample + 65_536
    }
}

/// The sample that 16 bits stand for.
pub open spec fn sample_of_bits(bits: int) -> i16 {
    if bits >= 32_768 {
        (bits - 65_536) as i16
    } else {
        bits as i16
    }
}

/// The samples as bytes, two for each sample, low byte first.
pub open spec fn le_bytes(samples: Seq<i16>) -> Seq<u8> {
    Seq::new(
        2 * samples.len(),
        |i: int|
            if i % 2 == 0 {
                (sample_bits(samples[i / 2]) % 256) as u8
            } else {
                (sample_bits(samples[i / 2]) / 256) as u8
            },
    )
}

/// The samples that little-endian bytes stand for, two bytes for each; a
/// byte left over at the end is ignored.
pub open spec fn samples_of_le_bytes(bytes: Seq<u8>) -> Seq<i16> {
    Seq::new(
        bytes.len() / 2,
        |i: int| sample_of_bits(bytes[2 * i] as int + 256 * (bytes[2 * i + 1] as int)),
    )
}

/// Decoding the bytes of samples gives the samples back, whatever their
/// values.
pub proof fn lemma_pcm_round_trip(samples: Seq<i16>)
    ensures
        le_bytes(samples).len() == 2 * samples.len(),
        samples_of_le_bytes(le_bytes(samples)) == samples,
{
    let bytes = le_bytes(samples);
    assert(bytes.len() / 2 == samples.len());
    assert forall|i: int| 0 <= i < samples.len() implies #[trigger] samples_of_le_bytes(bytes)[i]
        == samples[i] by {
        let bits = sample_bits(samples[i]);
        assert((2 * i) % 2 == 0 && (2 * i) / 2 == i);
        assert((2 * i + 1) % 2 == 1 && (2 * i + 1) / 2 == i);
        assert(bytes[2 * i] == (bits % 256) as u8);
        assert(bytes[2 * i + 1] == (bits / 256) as u8);
        assert(bits == bits % 256 + 256 * (bits / 256));
    }
    assert(samples_of_le_bytes(bytes) =~= samples);
}

/// Converts 16-bit samples to raw little-endian bytes.
pub fn pcm_i16_to_bytes(samples: &[i16]) -> (bytes: Vec<u8>)
    ensures
        bytes@ == le_bytes(samples@),
        bytes@.len() == 2 * samples@.len(),
{
    let mut bytes: Vec<u8> = Vec::new();
    let mut i: usize = 0;
    while i < samples.len()
        invariant
            i <= samples.len(),
            bytes@.len() == 2 * i,
            forall|k: int| 0 <= k < 2 * i ==> bytes@[k] == le_bytes(samples@)[k],
        decreases samples.len() - i,
    {
        let sample = samples[i];
        let bits: u32 = if sample >= 0 {
            sample as u32
        } else {
            (sample as i32 + 65_536) as u32
        };
        assert((2 * i) % 2 == 0 && (2 * i) / 2 == i);
        assert((2 * i + 1) % 2 == 1 && (2 * i + 1) / 2 == i);
        bytes.push((bits % 256) as u8);
        bytes.push((bits / 256) as u8);
        i = i + 1;
    }
    assert(bytes@ =~= le_bytes(samples@));
    bytes
}

/// The sum of the squares of the first `n` samples.
pub open spec fn square_sum(samples: Seq<i16>, n: nat) -> nat
    decreases n,
{
    if n == 0 {
        0
    } else {
        square_sum(samples, (n - 1) as nat) + (samples[n - 1] as int * samples[n - 1] as int) as nat
    }
}

/// Silence has no energy.
pub proof fn lemma_silence_has_no_energy(samples: Seq<i16>, n: nat)
    requires
        n <= samples.len(),
        forall|i: int| 0 <= i < n ==> samples[i] == 0,
    ensures
        square_sum(samples, n) == 0,
    decreases n,
{
    if n > 0 {
        lemma_silence_has_no_energy(samples, (n - 1) as nat);
    }
}

/// Samples of one magnitude have that magnitude, squared, as their mean
/// square: a square wave of amplitude `a` has the energy of `a` throughout.
pub proof fn lemma_constant_magnitude_energy(samples: Seq<i16>, n: nat, a: int)
    requires
        n <= samples.len(),
        forall|i: int| 0 <= i < n ==> samples[i] == a || samples[i] == -a,
    ensures
        square_sum(samples, n) == n * (a * a),
    decreases n,
{
    if n > 0 {
        lemma_constant_magnitude_energy(samples, (n - 1) as nat, a);
        let s = samples[n - 1] as int;
        assert(s * s == a * a) by (nonlinear_arith)
            requires
                s == a || s == -a,
        ;
        assert(n * (a * a) == (n - 1) * (a * a) + a * a) by (nonlinear_arith);
        assert(a * a >= 0) by (nonlinear_arith);
    } else {
        assert(n * (a * a) == 0) by (nonlinear_arith)
            requires
                n == 0,
        ;
    }
}

/// The sum of the squares of the samples: the energy that the level meter
/// takes the root mean square of.
pub fn sum_of_squares(samples: &[i16]) -> (sum: u128)
    ensures
        sum == square_sum(samples@, samples@.len()),
{
    let mut sum: u128 = 0;
    let mut i: usize = 0;
    while i < samples.len()
        invariant
            i <= samples.len(),
            sum == square_sum(samples@, i as nat),
            sum <= i * 0x4000_0000,
        decreases samples.len() - i,
    {
        let s: i32 = samples[i] as i32;
        assert(0 <= s * s <= 0x4000_0000) by (nonlinear_arith)
            requires
                -32_768 <= s <= 32_767,
        ;
        let square: i32 = s * s;
        sum = sum + square as u128;
        i = i + 1;
    }
    sum
}

/// The number of samples that `input_len` samples at `from_rate` become at
/// `to_rate`: `input_len * to_rate / from_rate`, rounded up.
pub open spec fn resampled_len_spec(input_len: nat, from_rate: u32, to_rate: u32) -> nat {
    if from_rate == to_rate {
        input_len
    } else {
        ((input_len * to_rate + from_rate - 1) / (from_rate as int)) as nat
    }
}

/// Resampling to the same rate keeps the number of samples, and halving
/// the rate halves it, rounding up.
pub proof fn lemma_resampled_len(input_len: nat, rate: u32)
    requires
        rate > 0,
    ensures
        resampled_len_spec(input_len, rate, rate) == input_len,
        2 * rate <= u32::MAX ==> resampled_len_spec(input_len, (2 * rate) as u32, rate) == (
        input_len + 1) / 2,
{
    if 2 * rate <= u32::MAX {
        let from = 2 * rate;
        assert((input_len * rate + from - 1) / from == (input_len + 1) / 2) by (nonlinear_arith)
            requires
                from == 2 * rate,
                rate > 0,
        ;
    }
}

/// How many samples a chunk has after resampling from `from_rate` to
/// `to_rate`.
pub fn resampled_len(input_len: usize, from_rate: u32, to_rate: u32) -> (len: usize)
    requires
        from_rate > 0,
        resampled_len_spec(input_len as nat, from_rate, to_rate) <= usize::MAX,
    ensures
        len == resampled_len_spec(input_len as nat, from_rate, to_rate),
{
    if from_rate == to_rate {
        return input_len;
    }
    assert(input_len * to_rate <= 0xffff_ffff_ffff_ffff * 0xffff_ffff) by (nonlinear_arith)
        requires
            input_len <= 0xffff_ffff_ffff_ffff,
            to_rate <= 0xffff_ffff,
    ;
    let scaled: u128 = input_len as u128 * to_rate as u128;
    let len: u128 = (scaled + from_rate as u128 - 1) / from_rate as u128;
    len as usize
}

/// Where output sample `index` falls among the input samples: the input
/// sample at or before it, and how far it lies towards the next one, in
/// parts of `to_rate`.
pub open spec fn source_point(index: nat, from_rate: u32, to_rate: u32) -> (nat, nat) {
    (
        ((index * from_rate) / (to_rate as int)) as nat,
        ((index * from_rate) % (to_rate as int)) as nat,
    )
}

/// Every output sample of a resampled chunk falls on an input sample of
/// the chunk.
pub proof fn lemma_source_point_in_range(
    index: nat,
    input_len: nat,
    from_rate: u32,
    to_rate: u32,
)
    requires
        from_rate > 0,
        to_rate > 0,
        from_rate != to_rate,
        index < resampled_len_spec(input_len, from_rate, to_rate),
    ensures
        source_point(index, from_rate, to_rate).0 < input_len,
{
    let f = from_rate as int;
    let t = to_rate as int;
    let n = input_len as int;
    let i = index as int;
    assert(i * f < n * t) by (nonlinear_arith)
        requires
            i < (n * t + f - 1) / f,
            f > 0,
            t > 0,
            i >= 0,
            n >= 0,
    ;
    assert((i * f) / t < n) by (nonlinear_arith)
        requires
            i * f < n * t,
            t > 0,
            i * f >= 0,
    ;
}

/// Where output sample `index` falls among the input samples.
pub fn interpolation_point(index: usize, from_rate: u32, to_rate: u32) -> (point: (usize, u32))
    requires
        to_rate > 0,
        source_point(index as nat, from_rate, to_rate).0 <= usize::MAX,
    ensures
        point.0 == source_point(index as nat, from_rate, to_rate).0,
        point.1 == source_point(index as nat, from_rate, to_rate).1,
        point.1 < to_rate,
{
    assert(index * from_rate <= 0xffff_ffff_ffff_ffff * 0xffff_ffff) by (nonlinear_arith)
        requires
            index <= 0xffff_ffff_ffff_ffff,
            from_rate <= 0xffff_ffff,
    ;
    let position: u128 = index as u128 * from_rate as u128;
    ((position / to_rate as u128) as usize, (position % to_rate as u128) as u32)
}

/// Converts days since the Unix epoch into year, month and day of the
/// Gregorian calendar.
pub fn epoch_days_to_ymd(days: u64) -> (date: (u64, u64, u64))
    requires
        days <= i64::MAX - 719_468,
    ensures
        is_date(date.0 as int, date.1 as int, date.2 as int),
        days_from_civil(date.0 as int, date.1 as int, date.2 as int)
            == days,
        (date.0 as int, date.1 as int, date.2 as int) == date_of_days(
            days as int,
        ),
{
    let (year, month, day) = civil_from_days(days as i64);
    proof {
        lemma_year_since_epoch(year as int, month as int, day as int);
    }
    (year as u64, month as u64, day as u64)
}

/// The current time in UTC as `YYYY-MM-DDTHH:MM:SS.mmmZ`. The text is that
/// of some moment at or after the Unix epoch; which one, the clock decides.
pub fn now_iso8601() -> (text: String)
    ensures
        exists|secs: nat, millis: nat|
            millis < 1000 && text@ == #[trigger] crate::clock::iso_millis(secs, millis),
{
    let (secs, millis) = unix_time_now();
    format_iso_millis(secs, millis)
}

} // verus!
