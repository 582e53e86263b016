//! Decoder for the Switch rumble stream.
//!
//! A rumble frame holds four bytes per motor. They update two running band
//! amplitudes, kept in 1/32 steps of a base-2 logarithm; the motor is driven
//! by the loudest level that the frame passes through.

use vstd::prelude::*;

use crate::levels;
use crate::levels::{hdr_level, HDR_AMP_MIN, RUMBLE_AMP_MAX};

verus! {

/// Running amplitudes of one motor's two bands, in 1/32 log2 units.
#[derive(Clone, Copy, Debug, PartialEq, Eq, Structural)]
pub struct HdrBands {
    /// Low-band amplitude.
    pub lo: i16,
    /// High-band amplitude.
    pub hi: i16,
}

impl HdrBands {
    /// Both amplitudes lie between silence and full level.
    pub open spec fn wf(self) -> bool {
        &&& HDR_AMP_MIN <= self.lo <= 0
        &&& HDR_AMP_MIN <= self.hi <= 0
    }
}

/// Both bands silent.
pub open spec fn silent_bands() -> HdrBands {
    HdrBands { lo: HDR_AMP_MIN, hi: HDR_AMP_MIN }
}

/// Rumble state of one slot: its left and its right motor.
#[derive(Clone, Copy, Debug, PartialEq, Eq, Structural)]
pub struct HdrState {
    pub left: HdrBands,
    pub right: HdrBands,
}

/// Both motors silent.
pub open spec fn silent() -> HdrState {
    HdrState { left: silent_bands(), right: silent_bands() }
}

impl HdrState {
    pub open spec fn wf(self) -> bool {
        self.left.wf() && self.right.wf()
    }

    /// A slot with both motors silent.
    pub fn new() -> (state: HdrState)
        ensures
            state == silent(),
    {
        let off = HdrBands { lo: HDR_AMP_MIN, hi: HDR_AMP_MIN };
        HdrState { left: off, right: off }
    }
}

/// Reset a slot's rumble state (on disconnect).
pub fn hdr_reset_slot(state: &mut HdrState)
    ensures
        *final(state) == silent(),
{
    *state = HdrState::new();
}

/// The amplitude that an absolute 7-bit code stands for.
pub open spec fn amp7(code: u8) -> i16 {
    if code == 0 {
        HDR_AMP_MIN
    } else if code <= 15 {
        (8 * code - 248) as i16
    } else if code <= 31 {
        (2 * code - 158) as i16
    } else {
        (code - 127) as i16
    }
}

/// Absolute 7-bit amplitude code to log2 units. Piecewise linear, with steps
/// of 1/4, 1/16 and 1/32 octave.
pub fn hdr_amp7(code: u8) -> (amp: i16)
    ensures
        amp == amp7(code),
{
    match code {
        0 => HDR_AMP_MIN,
        1..=15 => 8 * (code as i16) - 248,
        16..=31 => 2 * (code as i16) - 158,
        _ => code as i16 - 127,
    }
}

/// `amp` brought between silence and full level.
pub open spec fn clamped_amp(amp: int) -> i16 {
    if amp < HDR_AMP_MIN {
        HDR_AMP_MIN
    } else if amp > 0 {
        0
    } else {
        amp as i16
    }
}

/// The amplitude after a compact 5-bit command: silence, one of eleven
/// presets half an octave apart, a step up or down, or (for a command that
/// only changes the frequency) no change.
pub open spec fn amp5(code: u8, cur: i16) -> i16 {
    clamped_amp(
        if code == 0 {
            HDR_AMP_MIN as int
        } else if code <= 11 {
            -16 * (code - 1)
        } else if 17 <= code <= 19 {
            cur + 4
        } else if 20 <= code <= 22 {
            cur + 1
        } else if 26 <= code <= 28 {
            cur - 1
        } else if 29 <= code <= 31 {
            cur - 4
        } else {
            cur as int
        },
    )
}

/// Apply a compact 5-bit command to the running amplitude.
pub fn hdr_amp5(code: u8, cur: i16) -> (amp: i16)
    requires
        17 <= code <= 19 ==> cur <= i16::MAX - 4,
        20 <= code <= 22 ==> cur < i16::MAX,
        26 <= code <= 28 ==> cur > i16::MIN,
        29 <= code <= 31 ==> cur >= i16::MIN + 4,
    ensures
        amp == amp5(code, cur),
{
    let v: i16 = match code {
        0 => HDR_AMP_MIN,
        1..=11 => 16 * (1 - code as i16),
        17..=19 => cur + 4,
        20..=22 => cur + 1,
        26..=28 => cur - 1,
        29..=31 => cur - 4,
        _ => cur,
    };
    if v < HDR_AMP_MIN {
        HDR_AMP_MIN
    } else if v > 0 {
        0
    } else {
        v
    }
}

/// The `width` bits of `w` from bit `shift` up, as a byte.
#[verifier::opaque]
pub open spec fn field(w: u32, shift: u8, width: u8) -> u8 {
    (((w as nat / vstd::arithmetic::power2::pow2(shift as nat))
        % vstd::arithmetic::power2::pow2(width as nat)) % 256) as u8
}

/// Extract a bit-field from a 32-bit word.
pub fn hdr_field(w: u32, shift: u8, width: u8) -> (bits: u8)
    requires
        shift < 32,
        width < 32,
    ensures
        bits == field(w, shift, width),
{
    reveal(field);
    let shifted: u32 = w >> shift;
    let power: u32 = 1u32 << width;
    proof {
        vstd::bits::lemma_u32_pow2_no_overflow(width as nat);
        vstd::bits::lemma_u32_shr_is_div(w, shift as u32);
        vstd::bits::lemma_u32_shl_is_mul(1, width as u32);
        vstd::bits::lemma_u32_low_bits_mask_is_mod(shifted, width as nat);
        assert(power == vstd::arithmetic::power2::pow2(width as nat));
    }
    let masked: u32 = shifted & (power - 1);
    assert((masked as u8) as u32 == masked % 256) by (bit_vector);
    masked as u8
}

/// The word that four bytes hold, least significant byte first.
pub open spec fn word(bytes: Seq<u8>) -> u32 {
    (bytes[0] + 0x100 * bytes[1] + 0x10000 * bytes[2] + 0x1000000 * bytes[3]) as u32
}

/// `bands` after one 5-bit command for each band, at the given bits of `w`.
pub open spec fn step5(w: u32, bands: HdrBands, lo_shift: u8, hi_shift: u8) -> HdrBands {
    HdrBands {
        lo: amp5(field(w, lo_shift, 5), bands.lo),
        hi: amp5(field(w, hi_shift, 5), bands.hi),
    }
}

/// The amplitude of a 7-bit code at the given bits of `w`.
pub open spec fn code7(w: u32, shift: u8) -> i16 {
    amp7(field(w, shift, 7))
}

/// The band amplitudes that the frame `w` passes through, from `bands` on.
/// The two top bits tell the kind of frame: hold, one update, two or three.
pub open spec fn frame(w: u32, bands: HdrBands) -> Seq<HdrBands> {
    let kind = field(w, 30, 2);
    if kind == 0 {
        seq![bands]
    } else if kind == 1 && w % 0x100000 == 0 {
        seq![step5(w, bands, 25, 20)]
    } else if kind == 1 && w % 4 == 0 {
        seq![HdrBands { lo: code7(w, 23), hi: code7(w, 9) }]
    } else if kind == 1 {
        let first = if (w / 4) % 2 == 1 {
            bands
        } else if w % 2 == 1 {
            HdrBands { lo: bands.lo, hi: code7(w, 23) }
        } else {
            HdrBands { lo: code7(w, 23), hi: bands.hi }
        };
        let second = step5(w, first, 18, 13);
        seq![first, second, step5(w, second, 8, 3)]
    } else if kind == 2 && w % 0x400 == 0 {
        let first = step5(w, bands, 25, 20);
        seq![first, step5(w, first, 15, 10)]
    } else if kind == 2 {
        let first = if w % 2 == 1 {
            HdrBands { lo: amp5(field(w, 18, 5), bands.lo), hi: code7(w, 23) }
        } else {
            HdrBands { lo: code7(w, 23), hi: amp5(field(w, 18, 5), bands.hi) }
        };
        seq![first, step5(w, first, 13, 8)]
    } else {
        let first = step5(w, bands, 25, 20);
        let second = step5(w, first, 15, 10);
        seq![first, second, step5(w, second, 5, 0)]
    }
}

/// The louder of two levels.
pub open spec fn louder(a: u16, b: u16) -> u16 {
    if b > a {
        b
    } else {
        a
    }
}

/// The loudest level among the given band amplitudes, 0 when there are none.
pub open spec fn loudest(samples: Seq<HdrBands>) -> u16
    decreases samples.len(),
{
    if samples.len() == 0 {
        0
    } else {
        with_sample(loudest(samples.drop_last()), samples.last())
    }
}

/// Each band amplitude passed through counts toward the loudest level.
proof fn lemma_loudest_push(samples: Seq<HdrBands>, bands: HdrBands)
    ensures
        loudest(samples.push(bands)) == with_sample(loudest(samples), bands),
{
    assert(samples.push(bands).drop_last() =~= samples);
}

/// `peak`, or a level of `bands` if that is louder.
pub open spec fn with_sample(peak: u16, bands: HdrBands) -> u16 {
    louder(louder(peak, levels::level(bands.lo)), levels::level(bands.hi))
}

/// Raise `peak` to the levels of `bands`.
fn sample(peak: u16, bands: &HdrBands) -> (raised: u16)
    requires
        bands.wf(),
    ensures
        raised == with_sample(peak, *bands),
{
    let mut raised = peak;
    let lo = hdr_level(bands.lo);
    if lo > raised {
        raised = lo;
    }
    let hi = hdr_level(bands.hi);
    if hi > raised {
        raised = hi;
    }
    raised
}

/// Apply one 5-bit command to each band.
fn apply_step5(w: u32, bands: &HdrBands, lo_shift: u8, hi_shift: u8) -> (next: HdrBands)
    requires
        bands.wf(),
        lo_shift < 32,
        hi_shift < 32,
    ensures
        next == step5(w, *bands, lo_shift, hi_shift),
        next.wf(),
{
    HdrBands {
        lo: hdr_amp5(hdr_field(w, lo_shift, 5), bands.lo),
        hi: hdr_amp5(hdr_field(w, hi_shift, 5), bands.hi),
    }
}

/// The amplitude of the 7-bit code at the given bits.
fn read_code7(w: u32, shift: u8) -> (amp: i16)
    requires
        shift < 32,
    ensures
        amp == code7(w, shift),
        HDR_AMP_MIN <= amp <= 0,
{
    proof {
        lemma_field7(w, shift);
    }
    hdr_amp7(hdr_field(w, shift, 7))
}

/// A 7-bit field is below 128.
proof fn lemma_field7(w: u32, shift: u8)
    ensures
        field(w, shift, 7) < 128,
{
    reveal(field);
    vstd::arithmetic::power2::lemma2_to64();
}

/// The end state and the loudest level of a frame.
pub open spec fn ran(w: u32, bands: HdrBands, end: HdrBands, peak: u16) -> bool {
    &&& end == frame(w, bands).last()
    &&& peak == loudest(frame(w, bands))
    &&& end.wf()
}

/// The run of a frame that passes through one sample.
proof fn lemma_run_one(w: u32, bands: HdrBands, a: HdrBands)
    requires
        frame(w, bands) == seq![a],
        a.wf(),
    ensures
        ran(w, bands, a, with_sample(0, a)),
{
    let none = Seq::<HdrBands>::empty();
    lemma_loudest_push(none, a);
    assert(none.push(a) =~= seq![a]);
}

/// The run of a frame that passes through two samples.
proof fn lemma_run_two(w: u32, bands: HdrBands, a: HdrBands, b: HdrBands)
    requires
        frame(w, bands) == seq![a, b],
        b.wf(),
    ensures
        ran(w, bands, b, with_sample(with_sample(0, a), b)),
{
    let none = Seq::<HdrBands>::empty();
    lemma_loudest_push(none, a);
    lemma_loudest_push(none.push(a), b);
    assert(none.push(a).push(b) =~= seq![a, b]);
}

/// The run of a frame that passes through three samples.
proof fn lemma_run_three(w: u32, bands: HdrBands, a: HdrBands, b: HdrBands, c: HdrBands)
    requires
        frame(w, bands) == seq![a, b, c],
        c.wf(),
    ensures
        ran(w, bands, c, with_sample(with_sample(with_sample(0, a), b), c)),
{
    let none = Seq::<HdrBands>::empty();
    lemma_loudest_push(none, a);
    lemma_loudest_push(none.push(a), b);
    lemma_loudest_push(none.push(a).push(b), c);
    assert(none.push(a).push(b).push(c) =~= seq![a, b, c]);
}

/// A frame of one update, or of a 7-bit code and a burst of two.
fn run_single(w: u32, bands: HdrBands) -> (run: (HdrBands, u16))
    requires
        bands.wf(),
        field(w, 30, 2) == 1,
    ensures
        ran(w, bands, run.0, run.1),
{
    if w % 0x100000 == 0 {
        // A single 5-bit update for both bands.
        let first = apply_step5(w, &bands, 25, 20);
        proof {
            lemma_run_one(w, bands, first);
        }
        return (first, sample(0, &first));
    }
    if w % 4 == 0 {
        // A single 7-bit absolute code for both bands.
        let first = HdrBands { lo: read_code7(w, 23), hi: read_code7(w, 9) };
        proof {
            lemma_run_one(w, bands, first);
        }
        return (first, sample(0, &first));
    }
    // A 7-bit code for one band, then two 5-bit updates.
    let first = if (w / 4) % 2 == 1 {
        bands
    } else if w % 2 == 1 {
        HdrBands { lo: bands.lo, hi: read_code7(w, 23) }
    } else {
        HdrBands { lo: read_code7(w, 23), hi: bands.hi }
    };
    let second = apply_step5(w, &first, 18, 13);
    let third = apply_step5(w, &second, 8, 3);
    proof {
        lemma_run_three(w, bands, first, second, third);
    }
    (third, sample(sample(sample(0, &first), &second), &third))
}

/// A frame of two updates.
fn run_double(w: u32, bands: HdrBands) -> (run: (HdrBands, u16))
    requires
        bands.wf(),
        field(w, 30, 2) == 2,
    ensures
        ran(w, bands, run.0, run.1),
{
    if w % 0x400 == 0 {
        // Two 5-bit updates.
        let first = apply_step5(w, &bands, 25, 20);
        let second = apply_step5(w, &first, 15, 10);
        proof {
            lemma_run_two(w, bands, first, second);
        }
        return (second, sample(sample(0, &first), &second));
    }
    // A 7-bit code for one band and a 5-bit one for the other, then a 5-bit
    // update.
    let first = if w % 2 == 1 {
        HdrBands { lo: hdr_amp5(hdr_field(w, 18, 5), bands.lo), hi: read_code7(w, 23) }
    } else {
        HdrBands { lo: read_code7(w, 23), hi: hdr_amp5(hdr_field(w, 18, 5), bands.hi) }
    };
    let second = apply_step5(w, &first, 13, 8);
    proof {
        lemma_run_two(w, bands, first, second);
    }
    (second, sample(sample(0, &first), &second))
}

/// A frame of three updates.
fn run_triple(w: u32, bands: HdrBands) -> (run: (HdrBands, u16))
    requires
        bands.wf(),
        field(w, 30, 2) > 2,
    ensures
        ran(w, bands, run.0, run.1),
{
    let first = apply_step5(w, &bands, 25, 20);
    let second = apply_step5(w, &first, 15, 10);
    let third = apply_step5(w, &second, 5, 0);
    proof {
        lemma_run_three(w, bands, first, second, third);
    }
    (third, sample(sample(sample(0, &first), &second), &third))
}

/// Read four bytes as a word, least significant byte first.
fn read_word(bytes: &[u8; 4]) -> (w: u32)
    ensures
        w == word(bytes@),
{
    bytes[0] as u32 + 0x100 * (bytes[1] as u32) + 0x10000 * (bytes[2] as u32) + 0x1000000 * (
    bytes[3] as u32)
}

/// Decode one motor's 4 rumble bytes, advancing its state. Returns the peak
/// linear amplitude across all updates in this frame.
pub fn hdr_decode(state: &mut HdrBands, bytes: &[u8; 4]) -> (peak: u16)
    requires
        old(state).wf(),
    ensures
        ran(word(bytes@), *old(state), *final(state), peak),
{
    let w = read_word(bytes);
    let kind = hdr_field(w, 30, 2);
    let bands = *state;
    if kind == 0 {
        proof {
            lemma_run_one(w, bands, bands);
        }
        return sample(0, &bands);
    }
    let (end, peak) = if kind == 1 {
        run_single(w, bands)
    } else if kind == 2 {
        run_double(w, bands)
    } else {
        run_triple(w, bands)
    };
    *state = end;
    peak
}

/// The four bytes of `report` from `from` on, as a word.
pub open spec fn word_at(report: Seq<u8>, from: int) -> u32 {
    word(report.subrange(from, from + 4))
}

/// Decode the four bytes from `from` on for one motor.
fn decode_motor(state: &mut HdrBands, report: &[u8], from: usize) -> (peak: u16)
    requires
        old(state).wf(),
        from + 4 <= report@.len(),
    ensures
        ran(word_at(report@, from as int), *old(state), *final(state), peak),
        peak <= RUMBLE_AMP_MAX,
{
    let bytes: [u8; 4] = [report[from], report[from + 1], report[from + 2], report[from + 3]];
    assert(bytes@ =~= report@.subrange(from as int, from + 4));
    let ghost before = *state;
    let peak = hdr_decode(state, &bytes);
    proof {
        law_frame_wf(word(bytes@), before);
        lemma_loudest_bound(frame(word(bytes@), before));
    }
    peak
}

/// A linear level scaled to a byte.
pub open spec fn magnitude(peak: u16) -> u8 {
    (peak * 255 / RUMBLE_AMP_MAX as int) as u8
}

/// Scale a linear level to a byte.
fn scale(peak: u16) -> (mag: u8)
    requires
        peak <= RUMBLE_AMP_MAX,
    ensures
        mag == magnitude(peak),
{
    (peak as u32 * 255 / RUMBLE_AMP_MAX as u32) as u8
}

/// Whether `report` is a rumble report long enough to hold both motors.
pub open spec fn is_rumble(report: Seq<u8>) -> bool {
    report.len() >= 10 && report[0] == 0x10
}

/// The state after a rumble report.
pub open spec fn after_rumble(report: Seq<u8>, state: HdrState) -> HdrState {
    HdrState {
        left: frame(word_at(report, 2), state.left).last(),
        right: frame(word_at(report, 6), state.right).last(),
    }
}

/// Left and right magnitude of a rumble report: the loudest level that each
/// motor's frame passes through.
pub open spec fn rumble_magnitudes(report: Seq<u8>, state: HdrState) -> (u8, u8) {
    (
        magnitude(loudest(frame(word_at(report, 2), state.left))),
        magnitude(loudest(frame(word_at(report, 6), state.right))),
    )
}

/// Decode a `0x10` rumble report into the left and right motor magnitudes,
/// 0 to 255. Any other report leaves the state alone.
pub fn decode_rumble(report: &[u8], state: &mut HdrState) -> (mags: Option<(u8, u8)>)
    requires
        old(state).wf(),
    ensures
        final(state).wf(),
        !is_rumble(report@) ==> mags is None && *final(state) == *old(state),
        is_rumble(report@) ==> {
            &&& mags == Some(rumble_magnitudes(report@, *old(state)))
            &&& *final(state) == after_rumble(report@, *old(state))
        },
{
    if report.len() < 10 || report[0] != 0x10 {
        return None;
    }
    let mut left = state.left;
    let mut right = state.right;
    let left_peak = decode_motor(&mut left, report, 2);
    let right_peak = decode_motor(&mut right, report, 6);
    *state = HdrState { left, right };
    Some((scale(left_peak), scale(right_peak)))
}

/// A 7-bit code stands for an amplitude between silence and full level.
proof fn lemma_code7(w: u32, shift: u8)
    ensures
        HDR_AMP_MIN <= code7(w, shift) <= 0,
{
    lemma_field7(w, shift);
}

/// All samples lie between silence and full level.
pub open spec fn all_wf(samples: Seq<HdrBands>) -> bool {
    forall|i: int| 0 <= i < samples.len() ==> (#[trigger] samples[i]).wf()
}

/// Every amplitude that a frame passes through lies between silence and full
/// level, and there is at least one.
pub proof fn law_frame_wf(w: u32, bands: HdrBands)
    requires
        bands.wf(),
    ensures
        frame(w, bands).len() > 0,
        all_wf(frame(w, bands)),
{
    lemma_code7(w, 23);
    lemma_code7(w, 9);
}

/// No level that a frame passes through is above the full one.
proof fn lemma_loudest_bound(samples: Seq<HdrBands>)
    requires
        all_wf(samples),
    ensures
        loudest(samples) <= RUMBLE_AMP_MAX,
    decreases samples.len(),
{
    if samples.len() > 0 {
        lemma_loudest_bound(samples.drop_last());
        levels::lemma_level_bound(samples.last().lo);
        levels::lemma_level_bound(samples.last().hi);
    }
}

/// The loudest level is that of some sample, and none is louder.
pub proof fn law_loudest(samples: Seq<HdrBands>)
    requires
        samples.len() > 0,
    ensures
        forall|i: int|
            0 <= i < samples.len() ==> levels::level((#[trigger] samples[i]).lo) <= loudest(samples)
                && levels::level(samples[i].hi) <= loudest(samples),
        exists|i: int|
            0 <= i < samples.len() && (levels::level((#[trigger] samples[i]).lo) == loudest(samples)
                || levels::level(samples[i].hi) == loudest(samples)),
    decreases samples.len(),
{
    let rest = samples.drop_last();
    let top = loudest(samples);
    assert(samples[samples.len() - 1] == samples.last());
    if rest.len() > 0 {
        law_loudest(rest);
        let k = choose|i: int|
            0 <= i < rest.len() && (levels::level((#[trigger] rest[i]).lo) == loudest(rest)
                || levels::level(rest[i].hi) == loudest(rest));
        assert(samples[k] == rest[k]);
        assert forall|i: int| 0 <= i < samples.len() implies levels::level(
            (#[trigger] samples[i]).lo,
        ) <= top && levels::level(samples[i].hi) <= top by {
            if i < rest.len() {
                assert(samples[i] == rest[i]);
            }
        }
    } else {
        assert(loudest(rest) == 0);
    }
}

/// A slot at rest that is told to hold stays at rest and reports no rumble.
pub proof fn law_silence_holds(report: Seq<u8>)
    requires
        is_rumble(report),
        field(word_at(report, 2), 30, 2) == 0,
        field(word_at(report, 6), 30, 2) == 0,
    ensures
        after_rumble(report, silent()) == silent(),
        rumble_magnitudes(report, silent()) == (0u8, 0u8),
{
    let none = Seq::<HdrBands>::empty();
    lemma_loudest_push(none, silent_bands());
    assert(none.push(silent_bands()) =~= seq![silent_bands()]);
}

/// A hold frame keeps the motor's amplitudes, whatever they are, and its
/// magnitude is that of the louder band.
pub proof fn law_hold_keeps(w: u32, bands: HdrBands)
    requires
        field(w, 30, 2) == 0,
    ensures
        frame(w, bands).last() == bands,
        loudest(frame(w, bands)) == louder(levels::level(bands.lo), levels::level(bands.hi)),
{
    let none = Seq::<HdrBands>::empty();
    lemma_loudest_push(none, bands);
    assert(none.push(bands) =~= seq![bands]);
}

/// Exactly the full level gives the highest magnitude, and exactly the levels
/// up to 3 are too faint to give any.
pub proof fn law_magnitude_ends(peak: u16)
    requires
        peak <= RUMBLE_AMP_MAX,
    ensures
        magnitude(peak) == 255 <==> peak == RUMBLE_AMP_MAX,
        magnitude(peak) == 0 <==> peak <= 3,
{
}

/// A greater absolute code is always louder. Code 0 is silence and code 127, the
/// greatest of seven bits, is full level. From one code to the next the
/// amplitude rises by 8 from 1 to 15, by 2 from 15 to 31, and by 1 from there
/// on; code 1 is 16 above silence.
pub proof fn law_codes_rise(c: u8, d: u8)
    requires
        c < d,
    ensures
        amp7(c) < amp7(d),
        amp7(0) == -256,
        amp7(127) == 0,
        d < 128 ==> -256 <= amp7(c) < amp7(d) <= 0,
        d == c + 1 && 1 <= c && d <= 15 ==> amp7(d) == amp7(c) + 8,
        d == c + 1 && 16 <= c && d <= 31 ==> amp7(d) == amp7(c) + 2,
        d == c + 1 && 32 <= c ==> amp7(d) == amp7(c) + 1,
        c == 0 && d == 1 ==> amp7(d) == amp7(c) + 16,
        c == 15 && d == 16 ==> amp7(d) == amp7(c) + 2,
        c == 31 && d == 32 ==> amp7(d) == amp7(c) + 1,
{
}

/// What each compact command does to an amplitude: silence, a preset from full
/// level down by half octaves, four units or one unit up or down as far as the
/// range goes, or nothing.
pub proof fn law_commands(code: u8, cur: i16)
    ensures
        -256 <= amp5(code, cur) <= 0,
        code == 0 ==> amp5(code, cur) == -256,
        1 <= code <= 11 ==> amp5(code, cur) + 16 * (code - 1) == 0,
        17 <= code <= 19 && -260 <= cur <= -4 ==> amp5(code, cur) == cur + 4,
        20 <= code <= 22 && -257 <= cur <= -1 ==> amp5(code, cur) == cur + 1,
        26 <= code <= 28 && -255 <= cur <= 1 ==> amp5(code, cur) == cur - 1,
        29 <= code <= 31 && -252 <= cur <= 4 ==> amp5(code, cur) == cur - 4,
        17 <= code <= 19 && cur > -4 || 20 <= code <= 22 && cur > -1 ==> amp5(code, cur) == 0,
        26 <= code <= 28 && cur > 1 || 29 <= code <= 31 && cur > 4 ==> amp5(code, cur) == 0,
        17 <= code <= 19 && cur < -260 || 20 <= code <= 22 && cur < -257 ==> amp5(code, cur)
            == -256,
        26 <= code <= 28 && cur < -255 || 29 <= code <= 31 && cur < -252 ==> amp5(code, cur)
            == -256,
        12 <= code <= 16 || 23 <= code <= 25 || code >= 32 ==> amp5(code, cur) == if cur < -256 {
            -256
        } else if cur > 0 {
            0
        } else {
            cur as int
        },
{
}

/// A command never turns a louder amplitude into a fainter one, and a step up
/// is undone by the step down of the same size where neither meets the end of
/// the range.
pub proof fn law_commands_keep_order(code: u8, cur: i16, louder: i16)
    requires
        cur <= louder,
    ensures
        amp5(code, cur) <= amp5(code, louder),
        17 <= code <= 22 && -256 <= cur <= -4 ==> amp5((48 - code) as u8, amp5(code, cur)) == cur,
{
}

/// A bit-field is what stands in its place, whatever is below and above it.
pub proof fn law_field(w: u32, shift: u8, width: u8, low: nat, bits: nat, high: nat)
    requires
        width <= 8,
        low < vstd::arithmetic::power2::pow2(shift as nat),
        bits < vstd::arithmetic::power2::pow2(width as nat),
        w == low + vstd::arithmetic::power2::pow2(shift as nat) * (bits
            + vstd::arithmetic::power2::pow2(width as nat) * high),
    ensures
        field(w, shift, width) == bits,
{
    reveal(field);
    let p = vstd::arithmetic::power2::pow2(shift as nat);
    let q = vstd::arithmetic::power2::pow2(width as nat);
    vstd::arithmetic::power2::lemma_pow2_pos(shift as nat);
    vstd::arithmetic::power2::lemma_pow2_pos(width as nat);
    vstd::arithmetic::div_mod::lemma_fundamental_div_mod_converse(
        w as int,
        p as int,
        (bits + q * high) as int,
        low as int,
    );
    vstd::arithmetic::div_mod::lemma_fundamental_div_mod_converse(
        (bits + q * high) as int,
        q as int,
        high as int,
        bits as int,
    );
    if width < 8 {
        vstd::arithmetic::power2::lemma_pow2_strictly_increases(width as nat, 8);
    }
    vstd::arithmetic::power2::lemma2_to64();
    assert(q * high == high * q) by (nonlinear_arith);
    assert(p * (bits + q * high) == (bits + q * high) * p) by (nonlinear_arith);
}

/// Of a field that is wider than a byte the low byte is read.
pub proof fn law_wide_field(w: u32, shift: u8, width: u8)
    requires
        width >= 8,
    ensures
        field(w, shift, width) == field(w, shift, 8),
{
    reveal(field);
    let x = w as nat / vstd::arithmetic::power2::pow2(shift as nat);
    let rest = vstd::arithmetic::power2::pow2((width - 8) as nat);
    vstd::arithmetic::power2::lemma2_to64();
    vstd::arithmetic::power2::lemma_pow2_pos((width - 8) as nat);
    vstd::arithmetic::power2::lemma_pow2_adds(8, (width - 8) as nat);
    vstd::arithmetic::div_mod::lemma_mod_mod(x as int, 256, rest as int);
}

/// `law_field` with the powers of two given by their values.
proof fn lemma_part(w: u32, shift: u8, p: int, width: u8, q: int, low: int, bits: int, high: int)
    requires
        width <= 8,
        p == vstd::arithmetic::power2::pow2(shift as nat),
        q == vstd::arithmetic::power2::pow2(width as nat),
        0 <= low < p,
        0 <= bits < q,
        0 <= high,
        w == low + p * bits + (p * q) * high,
    ensures
        field(w, shift, width) == bits,
{
    assert(p * (bits + q * high) == p * bits + (p * q) * high) by (nonlinear_arith);
    law_field(w, shift, width, low as nat, bits as nat, high as nat);
}

/// A word that starts with two zero bits holds the amplitudes.
pub proof fn law_hold_word(w: u32, bands: HdrBands)
    requires
        w < 0x4000_0000,
    ensures
        frame(w, bands) == seq![bands],
{
    reveal(field);
    vstd::arithmetic::power2::lemma2_to64();
}

/// The low bits of a word that ends in three bits of its own.
proof fn lemma_tail(w: u32, rest: int, tail: u8)
    requires
        w == 8 * rest + tail,
        tail < 8,
        tail % 4 != 0,
    ensures
        w % 4 == tail % 4,
        w % 4 != 0,
        w % 2 == tail % 2,
        (w / 4) % 2 == tail / 4,
        w % 0x100000 != 0,
{
    assert(w % 4 == tail % 4);
}

/// `01`, a command for each band, and 20 zero bits: one update.
pub proof fn law_one_command_word(w: u32, bands: HdrBands, lo: u8, hi: u8)
    requires
        lo < 32,
        hi < 32,
        w == 0x4000_0000 + 0x200_0000 * lo + 0x10_0000 * hi,
    ensures
        frame(w, bands) == seq![HdrBands { lo: amp5(lo, bands.lo), hi: amp5(hi, bands.hi) }],
{
    assert(field(w, 30, 2) == 1) by {
        vstd::arithmetic::power2::lemma2_to64();
        lemma_part(w, 30, 0x40000000, 2, 4, (0x2000000 * lo + 0x100000 * hi) as int, 1, 0);
    }
    assert(field(w, 25, 5) == lo) by {
        vstd::arithmetic::power2::lemma2_to64();
        lemma_part(w, 25, 0x2000000, 5, 32, (0x100000 * hi) as int, lo as int, 1);
    }
    assert(field(w, 20, 5) == hi) by {
        vstd::arithmetic::power2::lemma2_to64();
        lemma_part(w, 20, 0x100000, 5, 32, 0, hi as int, (0x20 + lo) as int);
    }
}

/// `01`, a code, seven bits unused, a code, seven bits unused, `00`: both bands
/// are set, unless the low 20 bits are all zero.
pub proof fn law_two_codes_word(w: u32, bands: HdrBands, lo: u8, a: u8, hi: u8, b: u8)
    requires
        lo < 128,
        a < 128,
        hi < 128,
        b < 128,
        w == 0x4000_0000 + 0x80_0000 * lo + 0x1_0000 * a + 0x200 * hi + 4 * b,
        w % 0x10_0000 != 0,
    ensures
        frame(w, bands) == seq![HdrBands { lo: amp7(lo), hi: amp7(hi) }],
{
    assert(field(w, 30, 2) == 1) by {
        vstd::arithmetic::power2::lemma2_to64();
        lemma_part(
            w,
            30,
            0x40000000,
            2,
            4,
            (0x800000 * lo + 0x10000 * a + 0x200 * hi + 0x4 * b) as int,
            1,
            0,
        );
    }
    assert(field(w, 23, 7) == lo) by {
        vstd::arithmetic::power2::lemma2_to64();
        lemma_part(w, 23, 0x800000, 7, 128, (0x10000 * a + 0x200 * hi + 0x4 * b) as int, lo as int, 1);
    }
    assert(field(w, 9, 7) == hi) by {
        vstd::arithmetic::power2::lemma2_to64();
        lemma_part(w, 9, 0x200, 7, 128, (0x4 * b) as int, hi as int, (0x4000 + 0x80 * lo + a) as int);
    }
}

/// `01`, a code, two commands for each band, and three bits of which the low
/// two are not both zero. The code sets no band if the upper bit is set, the
/// high band if only the lowest is, and the low band otherwise; then each pair
/// of commands updates both bands.
pub proof fn law_code_and_burst_word(
    w: u32,
    bands: HdrBands,
    code: u8,
    lo1: u8,
    hi1: u8,
    lo2: u8,
    hi2: u8,
    tail: u8,
)
    requires
        code < 128,
        lo1 < 32,
        hi1 < 32,
        lo2 < 32,
        hi2 < 32,
        tail < 8,
        tail % 4 != 0,
        w == 0x4000_0000 + 0x80_0000 * code + 0x4_0000 * lo1 + 0x2000 * hi1 + 0x100 * lo2 + 8 * hi2
            + tail,
    ensures
        ({
            let first = HdrBands {
                lo: if tail == 2 { amp7(code) } else { bands.lo },
                hi: if tail == 1 || tail == 3 { amp7(code) } else { bands.hi },
            };
            let second = HdrBands { lo: amp5(lo1, first.lo), hi: amp5(hi1, first.hi) };
            let third = HdrBands { lo: amp5(lo2, second.lo), hi: amp5(hi2, second.hi) };
            frame(w, bands) == seq![first, second, third]
        }),
{
    lemma_tail(
        w,
        0x800_0000 + 0x10_0000 * code + 0x8000 * lo1 + 0x400 * hi1 + 0x20 * lo2 + hi2,
        tail,
    );
    assert(field(w, 30, 2) == 1) by {
        vstd::arithmetic::power2::lemma2_to64();
        lemma_part(
            w,
            30,
            0x40000000,
            2,
            4,
            (0x800000 * code + 0x40000 * lo1 + 0x2000 * hi1 + 0x100 * lo2 + 0x8 * hi2 + tail) as int,
            1,
            0,
        );
    }
    assert(field(w, 23, 7) == code) by {
        vstd::arithmetic::power2::lemma2_to64();
        lemma_part(
            w,
            23,
            0x800000,
            7,
            128,
            (0x40000 * lo1 + 0x2000 * hi1 + 0x100 * lo2 + 0x8 * hi2 + tail) as int,
            code as int,
            1,
        );
    }
    assert(field(w, 18, 5) == lo1) by {
        vstd::arithmetic::power2::lemma2_to64();
        lemma_part(
            w,
            18,
            0x40000,
            5,
            32,
            (0x2000 * hi1 + 0x100 * lo2 + 0x8 * hi2 + tail) as int,
            lo1 as int,
            (0x80 + code) as int,
        );
    }
    assert(field(w, 13, 5) == hi1) by {
        vstd::arithmetic::power2::lemma2_to64();
        lemma_part(
            w,
            13,
            0x2000,
            5,
            32,
            (0x100 * lo2 + 0x8 * hi2 + tail) as int,
            hi1 as int,
            (0x1000 + 0x20 * code + lo1) as int,
        );
    }
    assert(field(w, 8, 5) == lo2) by {
        vstd::arithmetic::power2::lemma2_to64();
        lemma_part(
            w,
            8,
            0x100,
            5,
            32,
            (0x8 * hi2 + tail) as int,
            lo2 as int,
            (0x20000 + 0x400 * code + 0x20 * lo1 + hi1) as int,
        );
    }
    assert(field(w, 3, 5) == hi2) by {
        vstd::arithmetic::power2::lemma2_to64();
        lemma_part(
            w,
            3,
            0x8,
            5,
            32,
            tail as int,
            hi2 as int,
            (0x400000 + 0x8000 * code + 0x400 * lo1 + 0x20 * hi1 + lo2) as int,
        );
    }
}

/// `10`, two commands for each band, and ten zero bits: two updates.
pub proof fn law_two_commands_word(
    w: u32,
    bands: HdrBands,
    lo1: u8,
    hi1: u8,
    lo2: u8,
    hi2: u8,
)
    requires
        lo1 < 32,
        hi1 < 32,
        lo2 < 32,
        hi2 < 32,
        w == 0x8000_0000 + 0x200_0000 * lo1 + 0x10_0000 * hi1 + 0x8000 * lo2 + 0x400 * hi2,
    ensures
        ({
            let first = HdrBands { lo: amp5(lo1, bands.lo), hi: amp5(hi1, bands.hi) };
            let second = HdrBands { lo: amp5(lo2, first.lo), hi: amp5(hi2, first.hi) };
            frame(w, bands) == seq![first, second]
        }),
{
    assert(field(w, 30, 2) == 2) by {
        vstd::arithmetic::power2::lemma2_to64();
        lemma_part(
            w,
            30,
            0x40000000,
            2,
            4,
            (0x2000000 * lo1 + 0x100000 * hi1 + 0x8000 * lo2 + 0x400 * hi2) as int,
            2,
            0,
        );
    }
    assert(field(w, 25, 5) == lo1) by {
        vstd::arithmetic::power2::lemma2_to64();
        lemma_part(
            w,
            25,
            0x2000000,
            5,
            32,
            (0x100000 * hi1 + 0x8000 * lo2 + 0x400 * hi2) as int,
            lo1 as int,
            2,
        );
    }
    assert(field(w, 20, 5) == hi1) by {
        vstd::arithmetic::power2::lemma2_to64();
        lemma_part(
            w,
            20,
            0x100000,
            5,
            32,
            (0x8000 * lo2 + 0x400 * hi2) as int,
            hi1 as int,
            (0x40 + lo1) as int,
        );
    }
    assert(field(w, 15, 5) == lo2) by {
        vstd::arithmetic::power2::lemma2_to64();
        lemma_part(
            w,
            15,
            0x8000,
            5,
            32,
            (0x400 * hi2) as int,
            lo2 as int,
            (0x800 + 0x20 * lo1 + hi1) as int,
        );
    }
    assert(field(w, 10, 5) == hi2) by {
        vstd::arithmetic::power2::lemma2_to64();
        lemma_part(
            w,
            10,
            0x400,
            5,
            32,
            0,
            hi2 as int,
            (0x10000 + 0x400 * lo1 + 0x20 * hi1 + lo2) as int,
        );
    }
}

/// `10`, a code for one band and a command for the other, a command for each
/// band, and eight bits: two updates, unless the low ten bits are all zero. The
/// code is for the high band if the word is odd and for the low one otherwise.
pub proof fn law_code_and_command_word(
    w: u32,
    bands: HdrBands,
    code: u8,
    other: u8,
    lo: u8,
    hi: u8,
    tail: u8,
)
    requires
        code < 128,
        other < 32,
        lo < 32,
        hi < 32,
        w == 0x8000_0000 + 0x80_0000 * code + 0x4_0000 * other + 0x2000 * lo + 0x100 * hi + tail,
        w % 0x400 != 0,
    ensures
        ({
            let first = if tail % 2 == 1 {
                HdrBands { lo: amp5(other, bands.lo), hi: amp7(code) }
            } else {
                HdrBands { lo: amp7(code), hi: amp5(other, bands.hi) }
            };
            let second = HdrBands { lo: amp5(lo, first.lo), hi: amp5(hi, first.hi) };
            frame(w, bands) == seq![first, second]
        }),
{
    assert(field(w, 30, 2) == 2) by {
        vstd::arithmetic::power2::lemma2_to64();
        lemma_part(
            w,
            30,
            0x40000000,
            2,
            4,
            (0x800000 * code + 0x40000 * other + 0x2000 * lo + 0x100 * hi + tail) as int,
            2,
            0,
        );
    }
    assert(field(w, 23, 7) == code) by {
        vstd::arithmetic::power2::lemma2_to64();
        lemma_part(
            w,
            23,
            0x800000,
            7,
            128,
            (0x40000 * other + 0x2000 * lo + 0x100 * hi + tail) as int,
            code as int,
            2,
        );
    }
    assert(field(w, 18, 5) == other) by {
        vstd::arithmetic::power2::lemma2_to64();
        lemma_part(
            w,
            18,
            0x40000,
            5,
            32,
            (0x2000 * lo + 0x100 * hi + tail) as int,
            other as int,
            (0x100 + code) as int,
        );
    }
    assert(field(w, 13, 5) == lo) by {
        vstd::arithmetic::power2::lemma2_to64();
        lemma_part(
            w,
            13,
            0x2000,
            5,
            32,
            (0x100 * hi + tail) as int,
            lo as int,
            (0x2000 + 0x20 * code + other) as int,
        );
    }
    assert(field(w, 8, 5) == hi) by {
        vstd::arithmetic::power2::lemma2_to64();
        lemma_part(
            w,
            8,
            0x100,
            5,
            32,
            tail as int,
            hi as int,
            (0x40000 + 0x400 * code + 0x20 * other + lo) as int,
        );
    }
}

/// `11` and three commands for each band: three updates.
pub proof fn law_three_commands_word(
    w: u32,
    bands: HdrBands,
    lo1: u8,
    hi1: u8,
    lo2: u8,
    hi2: u8,
    lo3: u8,
    hi3: u8,
)
    requires
        lo1 < 32,
        hi1 < 32,
        lo2 < 32,
        hi2 < 32,
        lo3 < 32,
        hi3 < 32,
        w == 0xc000_0000 + 0x200_0000 * lo1 + 0x10_0000 * hi1 + 0x8000 * lo2 + 0x400 * hi2 + 0x20
            * lo3 + hi3,
    ensures
        ({
            let first = HdrBands { lo: amp5(lo1, bands.lo), hi: amp5(hi1, bands.hi) };
            let second = HdrBands { lo: amp5(lo2, first.lo), hi: amp5(hi2, first.hi) };
            let third = HdrBands { lo: amp5(lo3, second.lo), hi: amp5(hi3, second.hi) };
            frame(w, bands) == seq![first, second, third]
        }),
{
    assert(field(w, 30, 2) == 3) by {
        vstd::arithmetic::power2::lemma2_to64();
        lemma_part(
            w,
            30,
            0x40000000,
            2,
            4,
            (0x2000000 * lo1 + 0x100000 * hi1 + 0x8000 * lo2 + 0x400 * hi2 + 0x20 * lo3 + hi3) as int,
            3,
            0,
        );
    }
    assert(field(w, 25, 5) == lo1) by {
        vstd::arithmetic::power2::lemma2_to64();
        lemma_part(
            w,
            25,
            0x2000000,
            5,
            32,
            (0x100000 * hi1 + 0x8000 * lo2 + 0x400 * hi2 + 0x20 * lo3 + hi3) as int,
            lo1 as int,
            3,
        );
    }
    assert(field(w, 20, 5) == hi1) by {
        vstd::arithmetic::power2::lemma2_to64();
        lemma_part(
            w,
            20,
            0x100000,
            5,
            32,
            (0x8000 * lo2 + 0x400 * hi2 + 0x20 * lo3 + hi3) as int,
            hi1 as int,
            (0x60 + lo1) as int,
        );
    }
    assert(field(w, 15, 5) == lo2) by {
        vstd::arithmetic::power2::lemma2_to64();
        lemma_part(
            w,
            15,
            0x8000,
            5,
            32,
            (0x400 * hi2 + 0x20 * lo3 + hi3) as int,
            lo2 as int,
            (0xc00 + 0x20 * lo1 + hi1) as int,
        );
    }
    assert(field(w, 10, 5) == hi2) by {
        vstd::arithmetic::power2::lemma2_to64();
        lemma_part(
            w,
            10,
            0x400,
            5,
            32,
            (0x20 * lo3 + hi3) as int,
            hi2 as int,
            (0x18000 + 0x400 * lo1 + 0x20 * hi1 + lo2) as int,
        );
    }
    assert(field(w, 5, 5) == lo3) by {
        vstd::arithmetic::power2::lemma2_to64();
        lemma_part(
            w,
            5,
            0x20,
            5,
            32,
            hi3 as int,
            lo3 as int,
            (0x300000 + 0x8000 * lo1 + 0x400 * hi1 + 0x20 * lo2 + hi2) as int,
        );
    }
    assert(field(w, 0, 5) == hi3) by {
        vstd::arithmetic::power2::lemma2_to64();
        lemma_part(
            w,
            0,
            0x1,
            5,
            32,
            0,
            hi3 as int,
            (0x6000000 + 0x100000 * lo1 + 0x8000 * hi1 + 0x400 * lo2 + 0x20 * hi2 + lo3) as int,
        );
    }
}

/// A motor's word is its four bytes, least significant first: the left motor's
/// are bytes 2 to 5 of the report, the right one's bytes 6 to 9.
pub proof fn law_report_words(report: Seq<u8>, left: u32, right: u32, state: HdrState)
    requires
        report.len() >= 10,
        left == report[2] + 0x100 * report[3] + 0x1_0000 * report[4] + 0x100_0000 * report[5],
        right == report[6] + 0x100 * report[7] + 0x1_0000 * report[8] + 0x100_0000 * report[9],
    ensures
        is_rumble(report) <==> report[0] == 0x10,
        after_rumble(report, state).left == frame(left, state.left).last(),
        after_rumble(report, state).right == frame(right, state.right).last(),
        rumble_magnitudes(report, state).0 == magnitude(loudest(frame(left, state.left))),
        rumble_magnitudes(report, state).1 == magnitude(loudest(frame(right, state.right))),
{
}

/// Nothing shorter than ten bytes is a rumble report.
pub proof fn law_short_report(report: Seq<u8>)
    requires
        report.len() < 10,
    ensures
        !is_rumble(report),
{
}

/// The magnitude is the level's share of full level in 255ths, rounded down.
pub proof fn law_magnitude_scales(peak: u16, louder: u16)
    requires
        peak <= louder <= 1003,
    ensures
        1003 * magnitude(peak) <= 255 * peak < 1003 * (magnitude(peak) + 1),
        magnitude(peak) <= magnitude(louder),
{
}

/// A reset slot is silent in every band of both motors.
pub proof fn law_silent()
    ensures
        silent().left.lo == -256 && silent().left.hi == -256,
        silent().right.lo == -256 && silent().right.hi == -256,
{
}

/// A word is its four bytes, least significant first, and every word is that of
/// some bytes.
pub proof fn law_word(bytes: Seq<u8>)
    ensures
        word(bytes) % 0x100 == bytes[0],
        (word(bytes) / 0x100) % 0x100 == bytes[1],
        (word(bytes) / 0x1_0000) % 0x100 == bytes[2],
        word(bytes) / 0x100_0000 == bytes[3],
{
}

/// A frame leaves the motor at the last amplitudes that it passes through, and
/// its peak is the loudest level on the way: none is louder, and some amplitude
/// has it.
pub proof fn law_run(w: u32, bands: HdrBands, end: HdrBands, peak: u16)
    requires
        bands.wf(),
        ran(w, bands, end, peak),
    ensures
        ({
            let samples = frame(w, bands);
            &&& end == samples[samples.len() - 1]
            &&& forall|i: int|
                0 <= i < samples.len() ==> levels::level((#[trigger] samples[i]).lo) <= peak
                    && levels::level(samples[i].hi) <= peak
            &&& exists|i: int|
                0 <= i < samples.len() && (levels::level((#[trigger] samples[i]).lo) == peak
                    || levels::level(samples[i].hi) == peak)
            &&& -256 <= end.lo <= 0 && -256 <= end.hi <= 0
        }),
{
    law_frame_wf(w, bands);
    law_loudest(frame(w, bands));
}

/// The amplitudes that a band can have.
pub proof fn law_bands_range(bands: HdrBands)
    ensures
        bands.wf() <==> -256 <= bands.lo <= 0 && -256 <= bands.hi <= 0,
{
}

} // verus!
