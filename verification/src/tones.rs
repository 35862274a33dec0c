//! Phase-accumulator oscillators and their mixing into stereo buffers.
//!
//! A tone is a 32-bit phase and a step. Each sample reads the phase and then
//! adds the step to it, wrapping round: one wrap is one period. A sine reads
//! the top eight bits of the phase as an index into a table of one period
//! and the next eight bits as the weight of the entry behind it; a square
//! reads the sign; a saw reads the top sixteen bits.
//!
//! Samples are mixed into a buffer by wrapping addition on both channels,
//! after a division that leaves headroom for other tones.

use vstd::prelude::*;
use vstd::wrapping::i16_specs;
use vstd::wrapping::i32_specs;
use crate::sample::StereoSample;

verus! {

/// One period of a sine in 256 steps, at full scale of a signed 16-bit word.
pub const SINE_TABLE: [i16; 256] = [
    0, 804, 1608, 2410, 3212, 4011, 4808, 5602,
    6393, 7179, 7962, 8739, 9512, 10278, 11039, 11793,
    12539, 13279, 14010, 14732, 15446, 16151, 16846, 17530,
    18204, 18868, 19519, 20159, 20787, 21403, 22005, 22594,
    23170, 23731, 24279, 24811, 25329, 25832, 26319, 26790,
    27245, 27683, 28105, 28510, 28898, 29268, 29621, 29956,
    30273, 30571, 30852, 31113, 31356, 31580, 31785, 31971,
    32137, 32285, 32412, 32521, 32609, 32678, 32728, 32757,
    32767, 32757, 32728, 32678, 32609, 32521, 32412, 32285,
    32137, 31971, 31785, 31580, 31356, 31113, 30852, 30571,
    30273, 29956, 29621, 29268, 28898, 28510, 28105, 27683,
    27245, 26790, 26319, 25832, 25329, 24811, 24279, 23731,
    23170, 22594, 22005, 21403, 20787, 20159, 19519, 18868,
    18204, 17530, 16846, 16151, 15446, 14732, 14010, 13279,
    12539, 11793, 11039, 10278, 9512, 8739, 7962, 7179,
    6393, 5602, 4808, 4011, 3212, 2410, 1608, 804,
    0, -804, -1608, -2410, -3212, -4011, -4808, -5602,
    -6393, -7179, -7962, -8739, -9512, -10278, -11039, -11793,
    -12539, -13279, -14010, -14732, -15446, -16151, -16846, -17530,
    -18204, -18868, -19519, -20159, -20787, -21403, -22005, -22594,
    -23170, -23731, -24279, -24811, -25329, -25832, -26319, -26790,
    -27245, -27683, -28105, -28510, -28898, -29268, -29621, -29956,
    -30273, -30571, -30852, -31113, -31356, -31580, -31785, -31971,
    -32137, -32285, -32412, -32521, -32609, -32678, -32728, -32757,
    -32767, -32757, -32728, -32678, -32609, -32521, -32412, -32285,
    -32137, -31971, -31785, -31580, -31356, -31113, -30852, -30571,
    -30273, -29956, -29621, -29268, -28898, -28510, -28105, -27683,
    -27245, -26790, -26319, -25832, -25329, -24811, -24279, -23731,
    -23170, -22594, -22005, -21403, -20787, -20159, -19519, -18868,
    -18204, -17530, -16846, -16151, -15446, -14732, -14010, -13279,
    -12539, -11793, -11039, -10278, -9512, -8739, -7962, -7179,
    -6393, -5602, -4808, -4011, -3212, -2410, -1608, -804,
];

/// The shape of a wave.
#[derive(Clone, Copy, Debug, PartialEq, Eq, Structural)]
pub enum ToneKind {
    Sine,
    Square,
    Saw,
}

/// An oscillator: a shape, a phase and the step by which the phase moves on
/// with each sample.
pub struct Tone {
    kind: ToneKind,
    cur_offset: i32,
    incr: i32,
}

/// The divisor that leaves headroom when several tones share a buffer.
#[derive(Clone, Copy, Debug, PartialEq, Eq, Structural)]
pub enum Mix {
    Div1,
    Div2,
    Div4,
    Div8,
}

/// What an operator does to the samples of a tone.
pub enum OperatorKind {
    /// Moves the volume between half and full by a slow tone.
    AmplitudeLfo(Tone),
    /// Would move the frequency by a slow tone. No function of this module
    /// takes an operator of this kind.
    FrequencyLfo(Tone),
    /// Leaves the samples as they are.
    Off,
}

/// A stage between a tone and the mix.
pub struct Operator {
    pub kind: OperatorKind,
}

/// The phase as an unsigned 32-bit number.
pub open spec fn phase_bits(phase: i32) -> int {
    if phase >= 0 {
        phase as int
    } else {
        phase + 0x1_0000_0000
    }
}

/// Two table entries weighted by `off` 256ths: the sample of a sine between
/// the entries.
pub open spec fn sine_blend(base: int, next: int, off: int) -> int {
    (base * (256 - off) + next * off) / 256
}

/// The sample of a sine at the given phase: the table entry that the top
/// eight bits select and the entry behind it, weighted by the next eight
/// bits.
pub open spec fn sine_sample(phase: i32) -> int {
    let p = phase_bits(phase);
    let idx = p / 0x100_0000;
    let off = (p / 0x1_0000) % 256;
    let base = SINE_TABLE[idx] as int;
    let next = SINE_TABLE[(idx + 1) % 256] as int;
    sine_blend(base, next, off)
}

/// The sample of a square at the given phase: high in the first half of the
/// period, low in the second.
pub open spec fn square_sample(phase: i32) -> int {
    if phase >= 0 {
        i16::MAX as int
    } else {
        i16::MIN as int
    }
}

/// The sample of a saw at the given phase: the top sixteen bits.
pub open spec fn saw_sample(phase: i32) -> int {
    phase / 0x1_0000
}

/// The sample of a wave of the given shape at the given phase.
pub open spec fn sample_of(kind: ToneKind, phase: i32) -> int {
    match kind {
        ToneKind::Sine => sine_sample(phase),
        ToneKind::Square => square_sample(phase),
        ToneKind::Saw => saw_sample(phase),
    }
}

/// The sample `samp` at a volume between half and full: `vol` at its lowest
/// gives a factor of 511/1024, at its highest one of 1023/1024.
pub open spec fn volume_shifted(samp: int, vol: int) -> int {
    (samp * ((vol + 32767) / 128 + 512)) / 1024
}

/// The phase step of a wave of `freq` millihertz at `rate` samples per
/// second: the 2^32 steps of a period, spread over the samples of a period
/// and rounded to the nearest whole step. A frequency from half the sample
/// rate upwards has the largest step; silence has none.
pub open spec fn phase_step(freq: int, rate: int) -> int {
    if freq == 0 {
        0
    } else if rate == 0 {
        i32::MAX as int
    } else {
        let step = (2 * (freq * 0x1_0000_0000) + rate * 1000) / (2 * (rate * 1000));
        if step > i32::MAX {
            i32::MAX as int
        } else {
            step
        }
    }
}

/// The number of the chunk that sample `k` of `len` falls into, where a
/// buffer is cut into chunks of a thirty-second of its length.
pub open spec fn fade_chunk(k: int, len: int) -> int {
    k / (len / 32)
}

/// A sample weighted by `weight` thirty-seconds, cut to sixteen bits.
pub open spec fn faded(samp: int, weight: int) -> i16 {
    i16_specs::signed_crop((samp * weight) / 32)
}

/// The sample that a tone contributes to a mix after `k` earlier samples:
/// what the operator makes of the tone's sample, divided for headroom.
pub open spec fn voice_sample(tone: Tone, op: OperatorKind, k: nat, mix: Mix) -> int {
    mix.divided(op.advanced(k).applied(tone.advanced(k).sample()))
}

/// The weight, in thirty-seconds, of sample `k` of `len` as a sound fades
/// in: one in the first chunk, one more in each chunk after it.
pub open spec fn fade_in_weight(k: int, len: int) -> int {
    fade_chunk(k, len) + 1
}

/// The weight, in thirty-seconds, of sample `k` of `len` as a sound fades
/// out: thirty-two in the first chunk, one less in each chunk after it.
pub open spec fn fade_out_weight(k: int, len: int) -> int {
    32 - fade_chunk(k, len)
}

/// The buffer `before` with the next samples of a tone mixed in at its
/// volume.
pub open spec fn mixed_plain(before: Seq<StereoSample>, tone: Tone, op: OperatorKind, mix: Mix) -> Seq<
    StereoSample,
> {
    Seq::new(
        before.len(),
        |k: int| before[k].mixed(voice_sample(tone, op, k as nat, mix) as i16),
    )
}

/// The buffer `before` with the next samples of a tone mixed in as the tone
/// fades in.
pub open spec fn mixed_fading_in(
    before: Seq<StereoSample>,
    tone: Tone,
    op: OperatorKind,
    mix: Mix,
) -> Seq<StereoSample> {
    Seq::new(
        before.len(),
        |k: int|
            before[k].mixed(
                faded(voice_sample(tone, op, k as nat, mix), fade_in_weight(k, before.len() as int)),
            ),
    )
}

/// The buffer `before` with the next samples of a tone mixed in as the tone
/// fades out.
pub open spec fn mixed_fading_out(
    before: Seq<StereoSample>,
    tone: Tone,
    op: OperatorKind,
    mix: Mix,
) -> Seq<StereoSample> {
    Seq::new(
        before.len(),
        |k: int|
            before[k].mixed(
                faded(voice_sample(tone, op, k as nat, mix), fade_out_weight(k, before.len() as int)),
            ),
    )
}

/// The phase `k` steps of `step` after `phase`, wrapping round the 32 bits.
pub open spec fn phase_after(phase: i32, step: i32, k: nat) -> i32 {
    i32_specs::signed_crop(phase + k * step)
}

/// Wrapping addition is addition cut to 32 bits.
proof fn lemma_wrapping_add_crops(x: i32, y: i32)
    ensures
        i32_specs::wrapping_add(x, y) == i32_specs::signed_crop(x + y),
{
}

/// Cutting a sum to 32 bits gives the same whether or not one part of it
/// was cut before.
proof fn lemma_crop_of_sum(a: int, b: int)
    ensures
        i32_specs::signed_crop(i32_specs::signed_crop(a) + b) == i32_specs::signed_crop(a + b),
{
}

/// The sample of a sine at a phase given by its parts: the table index in
/// the top eight bits, the weight in the next eight, and the sixteen bits
/// below that do not count.
pub proof fn lemma_sine_sample_parts(phase: i32, idx: int, off: int, low: int)
    requires
        phase_bits(phase) == idx * 0x100_0000 + off * 0x1_0000 + low,
        0 <= idx < 256,
        0 <= off < 256,
        0 <= low < 0x1_0000,
    ensures
        sine_sample(phase) == sine_blend(
            SINE_TABLE[idx] as int,
            SINE_TABLE[(idx + 1) % 256] as int,
            off,
        ),
{
    let p = phase_bits(phase);
    assert(p / 0x100_0000 == idx);
    assert(p / 0x1_0000 == idx * 256 + off);
    assert((p / 0x1_0000) % 256 == off);
}

/// Without an operator, the sample that a tone contributes after `k`
/// earlier samples is the sample of its shape at the phase `k` steps on,
/// divided for headroom.
pub proof fn lemma_voice_sample(tone: Tone, k: nat, mix: Mix)
    ensures
        voice_sample(tone, OperatorKind::Off, k, mix) == mix.divided(
            sample_of(tone.kind(), phase_after(tone.phase(), tone.step(), k)),
        ),
{
    tone.lemma_advanced(k);
}

/// The sample at a volume between half and full.
fn volume_shift(samp: i16, vol: i16) -> (r: i16)
    ensures
        r == volume_shifted(samp as int, vol as int),
{
    let samp: i32 = samp as i32;
    let vol: i32 = vol as i32;
    let vol: i32 = vol + 32767;
    let upper: i32 = vol >> 7;
    assert(upper == vol / 128 && -1 <= upper <= 511) by (bit_vector)
        requires
            upper == vol >> 7,
            -1 <= vol <= 65534,
    ;
    let gain: i32 = upper + 512;
    assert(-32768 * 1023 <= samp * gain <= 32768 * 1023) by (nonlinear_arith)
        requires
            -32768 <= samp <= 32767,
            511 <= gain <= 1023,
    ;
    let scaled: i32 = samp * gain;
    let out: i32 = scaled >> 10;
    assert(out == scaled / 1024 && -32768 <= out <= 32767) by (bit_vector)
        requires
            out == scaled >> 10,
            -32768 * 1023 <= scaled <= 32768 * 1023,
    ;
    out as i16
}

/// A weighted mean of two 16-bit samples lies between them.
proof fn lemma_between_entries(base: int, next: int, off: int)
    by (nonlinear_arith)
    requires
        -32768 <= base <= 32767,
        -32768 <= next <= 32767,
        0 <= off <= 255,
    ensures
        -32768 * 256 <= base * (256 - off) <= 32767 * 256,
        -32768 * 255 <= next * off <= 32767 * 255,
        -32768 * 256 <= base * (256 - off) + next * off <= 32767 * 256,
{
}

/// A buffer of at least thirty-two samples has at most sixty-four chunks.
proof fn lemma_fade_chunk(k: int, len: int)
    requires
        32 <= len,
        0 <= k < len,
    ensures
        0 <= fade_chunk(k, len) <= 63,
{
    let m = len / 32;
    assert(0 <= k / m < 64) by (nonlinear_arith)
        requires
            m >= 1,
            0 <= k < 64 * m,
    ;
}

/// A sample weighted by up to sixty-four thirty-seconds fits in 32 bits.
proof fn lemma_weighted_fits(samp: int, weight: int)
    by (nonlinear_arith)
    requires
        -32768 <= samp <= 32767,
        -64 <= weight <= 64,
    ensures
        -32768 * 64 <= samp * weight <= 32768 * 64,
{
}

impl Mix {
    /// The divisor.
    pub open spec fn divisor(self) -> int {
        match self {
            Mix::Div1 => 1,
            Mix::Div2 => 2,
            Mix::Div4 => 4,
            Mix::Div8 => 8,
        }
    }

    /// The sample divided by the divisor, rounded down.
    pub open spec fn divided(self, samp: int) -> int {
        samp / self.divisor()
    }

    /// The number of bits by which a sample is shifted right.
    fn to_shift(&self) -> (s: u32)
        ensures
            s == match *self {
                Mix::Div1 => 0u32,
                Mix::Div2 => 1u32,
                Mix::Div4 => 2u32,
                Mix::Div8 => 3u32,
            },
    {
        match self {
            Mix::Div1 => 0,
            Mix::Div2 => 1,
            Mix::Div4 => 2,
            Mix::Div8 => 3,
        }
    }

    /// Divides a sample by the divisor.
    fn apply(&self, samp: i16) -> (r: i16)
        ensures
            r == self.divided(samp as int),
    {
        let shift: u32 = self.to_shift();
        let r: i16 = samp >> shift;
        assert(shift == 0 ==> r == samp) by (bit_vector)
            requires
                r == samp >> shift,
        ;
        assert(shift == 1 ==> r == samp / 2) by (bit_vector)
            requires
                r == samp >> shift,
        ;
        assert(shift == 2 ==> r == samp / 4) by (bit_vector)
            requires
                r == samp >> shift,
        ;
        assert(shift == 3 ==> r == samp / 8) by (bit_vector)
            requires
                r == samp >> shift,
        ;
        r
    }
}

impl Tone {
    /// The shape of the wave.
    pub closed spec fn kind(self) -> ToneKind {
        self.kind
    }

    /// The phase at which the next sample is read.
    pub closed spec fn phase(self) -> i32 {
        self.cur_offset
    }

    /// The step by which the phase moves on with each sample.
    pub closed spec fn step(self) -> i32 {
        self.incr
    }

    /// The sample that the tone hands out next.
    pub open spec fn sample(self) -> int {
        sample_of(self.kind(), self.phase())
    }

    /// The tone after one sample: the phase has moved on by one step,
    /// wrapping round.
    pub closed spec fn stepped(self) -> Tone {
        Tone {
            kind: self.kind,
            cur_offset: i32_specs::wrapping_add(self.cur_offset, self.incr),
            incr: self.incr,
        }
    }

    /// The tone after `k` samples.
    pub open spec fn advanced(self, k: nat) -> Tone
        decreases k,
    {
        if k == 0 {
            self
        } else {
            self.advanced((k - 1) as nat).stepped()
        }
    }

    /// One step keeps the shape and the step of a tone and adds the step to
    /// its phase, wrapping round.
    pub proof fn lemma_stepped(self)
        ensures
            self.stepped().kind() == self.kind(),
            self.stepped().step() == self.step(),
            self.stepped().phase() == i32_specs::wrapping_add(self.phase(), self.step()),
            self.stepped().phase() == phase_after(self.phase(), self.step(), 1),
    {
        lemma_wrapping_add_crops(self.phase(), self.step());
    }

    /// After `k` samples a tone has its shape and its step, and its phase
    /// has moved on by `k` steps, wrapping round.
    pub proof fn lemma_advanced(self, k: nat)
        ensures
            self.advanced(k).kind() == self.kind(),
            self.advanced(k).step() == self.step(),
            self.advanced(k).phase() == phase_after(self.phase(), self.step(), k),
            self.advanced(k).sample() == sample_of(
                self.kind(),
                phase_after(self.phase(), self.step(), k),
            ),
        decreases k,
    {
        if k == 0 {
            assert(self.phase() + 0 * self.step() == self.phase()) by (nonlinear_arith);
        } else {
            let before = self.advanced((k - 1) as nat);
            self.lemma_advanced((k - 1) as nat);
            lemma_wrapping_add_crops(before.phase(), self.step());
            lemma_crop_of_sum(self.phase() + (k - 1) * self.step(), self.step() as int);
            assert(self.phase() + (k - 1) * self.step() + self.step() == self.phase() + k
                * self.step()) by (nonlinear_arith);
        }
    }

    /// Tones of the same shape, phase and step are the same tone.
    pub proof fn lemma_same_tone(self, other: Tone)
        requires
            self.kind() == other.kind(),
            self.phase() == other.phase(),
            self.step() == other.step(),
        ensures
            self == other,
    {
    }

    /// A tone of the given shape at the start of its period.
    fn with_step(kind: ToneKind, freq: u32, sample_rate: u32) -> (t: Tone)
        ensures
            t.kind() == kind,
            t.phase() == 0,
            t.step() == phase_step(freq as int, sample_rate as int),
    {
        if freq == 0 {
            return Tone { kind, cur_offset: 0, incr: 0 };
        }
        if sample_rate == 0 {
            return Tone { kind, cur_offset: 0, incr: i32::MAX };
        }
        let cycles: u128 = (freq as u128) * 0x1_0000_0000;
        let per: u128 = (sample_rate as u128) * 1000;
        let step: u128 = (2 * cycles + per) / (2 * per);
        let incr: i32 = if step > i32::MAX as u128 {
            i32::MAX
        } else {
            step as i32
        };
        Tone { kind, cur_offset: 0, incr }
    }

    /// A sine of `freq` millihertz at `sample_rate` samples per second.
    pub fn new_sine(freq: u32, sample_rate: u32) -> (t: Tone)
        ensures
            t.kind() == ToneKind::Sine,
            t.phase() == 0,
            t.step() == phase_step(freq as int, sample_rate as int),
    {
        Tone::with_step(ToneKind::Sine, freq, sample_rate)
    }

    /// A square of `freq` millihertz at `sample_rate` samples per second.
    pub fn new_square(freq: u32, sample_rate: u32) -> (t: Tone)
        ensures
            t.kind() == ToneKind::Square,
            t.phase() == 0,
            t.step() == phase_step(freq as int, sample_rate as int),
    {
        Tone::with_step(ToneKind::Square, freq, sample_rate)
    }

    /// A saw of `freq` millihertz at `sample_rate` samples per second.
    pub fn new_saw(freq: u32, sample_rate: u32) -> (t: Tone)
        ensures
            t.kind() == ToneKind::Saw,
            t.phase() == 0,
            t.step() == phase_step(freq as int, sample_rate as int),
    {
        Tone::with_step(ToneKind::Saw, freq, sample_rate)
    }

    /// Hands out the next sample and moves the phase on by one step.
    pub fn next_sample(&mut self) -> (s: i16)
        ensures
            s == old(self).sample(),
            *final(self) == old(self).stepped(),
            final(self).kind() == old(self).kind(),
            final(self).step() == old(self).step(),
            final(self).phase() == i32_specs::wrapping_add(old(self).phase(), old(self).step()),
    {
        match self.kind {
            ToneKind::Sine => self.next_sample_sine(),
            ToneKind::Square => self.next_sample_square(),
            ToneKind::Saw => self.next_sample_saw(),
        }
    }

    /// Hands out the next sample as that of a sine, whatever the shape of
    /// the tone, and moves the phase on by one step.
    pub fn next_sample_sine(&mut self) -> (s: i16)
        ensures
            s == sine_sample(old(self).phase()),
            *final(self) == old(self).stepped(),
            final(self).kind() == old(self).kind(),
            final(self).step() == old(self).step(),
            final(self).phase() == i32_specs::wrapping_add(old(self).phase(), old(self).step()),
    {
        let phase: i32 = self.cur_offset;
        let val: u32 = #[verifier::truncate] (phase as u32);
        assert(val == phase_bits(phase)) by (bit_vector)
            requires
                val == phase as u32,
        ;
        let idx_now: u8 = ((val >> 24) & 0xFF) as u8;
        assert(((val >> 24) & 0xFF) == val / 0x100_0000) by (bit_vector);
        let idx_nxt: u8 = if idx_now == 255 {
            0
        } else {
            idx_now + 1
        };
        let base_val: i32 = SINE_TABLE[idx_now as usize] as i32;
        let next_val: i32 = SINE_TABLE[idx_nxt as usize] as i32;
        let off: i32 = ((val >> 16) & 0xFF) as i32;
        assert(((val >> 16) & 0xFF) == (val / 0x1_0000) % 256) by (bit_vector);
        proof {
            lemma_between_entries(base_val as int, next_val as int, off as int);
        }
        let cur_weight: i32 = base_val * (256 - off);
        let nxt_weight: i32 = next_val * off;
        let ttl_weight: i32 = cur_weight + nxt_weight;
        let ttl_val: i32 = ttl_weight >> 8;
        assert(ttl_val == ttl_weight / 256 && -32768 <= ttl_val <= 32767) by (bit_vector)
            requires
                ttl_val == ttl_weight >> 8,
                -32768 * 256 <= ttl_weight <= 32767 * 256,
        ;
        self.cur_offset = self.cur_offset.wrapping_add(self.incr);
        ttl_val as i16
    }

    /// Hands out the next sample as that of a square, whatever the shape of
    /// the tone, and moves the phase on by one step.
    pub fn next_sample_square(&mut self) -> (s: i16)
        ensures
            s == square_sample(old(self).phase()),
            *final(self) == old(self).stepped(),
            final(self).kind() == old(self).kind(),
            final(self).step() == old(self).step(),
            final(self).phase() == i32_specs::wrapping_add(old(self).phase(), old(self).step()),
    {
        let ttl_val: i16 = if self.cur_offset >= 0 {
            i16::MAX
        } else {
            i16::MIN
        };
        self.cur_offset = self.cur_offset.wrapping_add(self.incr);
        ttl_val
    }

    /// Hands out the next sample as that of a saw, whatever the shape of the
    /// tone, and moves the phase on by one step.
    pub fn next_sample_saw(&mut self) -> (s: i16)
        ensures
            s == saw_sample(old(self).phase()),
            *final(self) == old(self).stepped(),
            final(self).kind() == old(self).kind(),
            final(self).step() == old(self).step(),
            final(self).phase() == i32_specs::wrapping_add(old(self).phase(), old(self).step()),
    {
        let phase: i32 = self.cur_offset;
        let top: i32 = phase >> 16;
        assert(top == phase / 0x1_0000 && -32768 <= top <= 32767) by (bit_vector)
            requires
                top == phase >> 16,
        ;
        self.cur_offset = self.cur_offset.wrapping_add(self.incr);
        top as i16
    }
}

impl OperatorKind {
    /// The operator after `k` samples: its slow tone has moved on.
    pub open spec fn advanced(self, k: nat) -> OperatorKind {
        match self {
            OperatorKind::AmplitudeLfo(t) => OperatorKind::AmplitudeLfo(t.advanced(k)),
            OperatorKind::FrequencyLfo(t) => OperatorKind::FrequencyLfo(t),
            OperatorKind::Off => OperatorKind::Off,
        }
    }

    /// The operator after one sample.
    pub open spec fn stepped(self) -> OperatorKind {
        match self {
            OperatorKind::AmplitudeLfo(t) => OperatorKind::AmplitudeLfo(t.stepped()),
            OperatorKind::FrequencyLfo(t) => OperatorKind::FrequencyLfo(t),
            OperatorKind::Off => OperatorKind::Off,
        }
    }

    /// What the operator makes of the sample `samp`.
    pub open spec fn applied(self, samp: int) -> int {
        match self {
            OperatorKind::AmplitudeLfo(t) => volume_shifted(samp, t.sample()),
            OperatorKind::FrequencyLfo(t) => samp,
            OperatorKind::Off => samp,
        }
    }
}

impl Operator {
    /// Passes one sample through the operator.
    pub fn operate(&mut self, samp: i16) -> (r: i16)
        requires
            !(old(self).kind is FrequencyLfo),
        ensures
            r == old(self).kind.applied(samp as int),
            final(self).kind == old(self).kind.stepped(),
    {
        match &mut self.kind {
            OperatorKind::AmplitudeLfo(op) => {
                let ops: i16 = op.next_sample();
                volume_shift(samp, ops)
            },
            OperatorKind::FrequencyLfo(_op) => samp,
            OperatorKind::Off => samp,
        }
    }
}

impl Tone {
    /// Hands out the next sample as it goes into a mix: through the
    /// operator, then divided for headroom.
    fn next_voice_sample(&mut self, mix: Mix, operator: &mut Operator) -> (s: i16)
        requires
            !(old(operator).kind is FrequencyLfo),
        ensures
            s == mix.divided(old(operator).kind.applied(old(self).sample())),
            *final(self) == old(self).stepped(),
            final(operator).kind == old(operator).kind.stepped(),
    {
        let raw: i16 = self.next_sample();
        let shaped: i16 = operator.operate(raw);
        mix.apply(shaped)
    }

    /// Mixes the tone into `samples` as it fades in. The buffer is cut into
    /// chunks of a thirty-second of its length; the first chunk is mixed at
    /// one thirty-second of the volume, and each chunk after it at one
    /// thirty-second more. The buffer must hold at least thirty-two samples.
    pub fn fill_first_stereo_samples(
        &mut self,
        samples: &mut [StereoSample],
        mix: Mix,
        operator: &mut Operator,
    )
        requires
            old(samples)@.len() >= 32,
            !(old(operator).kind is FrequencyLfo),
        ensures
            final(samples)@ == mixed_fading_in(old(samples)@, *old(self), old(operator).kind, mix),
            *final(self) == old(self).advanced(old(samples)@.len()),
            final(self).kind() == old(self).kind(),
            final(self).step() == old(self).step(),
            final(self).phase() == phase_after(
                old(self).phase(),
                old(self).step(),
                old(samples)@.len(),
            ),
            final(operator).kind == old(operator).kind.advanced(old(samples)@.len()),
    {
        let ghost tone0 = *self;
        let ghost op0 = operator.kind;
        let ghost before = samples@;
        let len: usize = samples.len();
        let chunk_len: usize = len / 32;
        let mut k: usize = 0;
        while k < len
            invariant
                32 <= len == before.len() == samples@.len(),
                chunk_len == len / 32,
                k <= len,
                *self == tone0.advanced(k as nat),
                operator.kind == op0.advanced(k as nat),
                !(op0 is FrequencyLfo),
                forall|j: int|
                    0 <= j < k ==> #[trigger] samples@[j] == before[j].mixed(
                        faded(voice_sample(tone0, op0, j as nat, mix), fade_in_weight(j, len as int)),
                    ),
                forall|j: int| k <= j < len ==> #[trigger] samples@[j] == before[j],
            decreases len - k,
        {
            proof {
                lemma_fade_chunk(k as int, len as int);
            }
            let ct: i32 = (k / chunk_len) as i32 + 1;
            let samp: i16 = self.next_voice_sample(mix, operator);
            let out: i16 = fade(samp, ct);
            let mut s: StereoSample = samples[k];
            s.mix(out);
            samples[k] = s;
            k += 1;
        }
        proof {
            tone0.lemma_advanced(len as nat);
        }
    }

    /// Mixes the tone into `samples` as it fades out. The buffer is cut into
    /// chunks of a thirty-second of its length; the first chunk is mixed at
    /// full volume, and each chunk after it at one thirty-second less. The
    /// buffer must hold at least thirty-two samples.
    pub fn fill_last_stereo_samples(
        &mut self,
        samples: &mut [StereoSample],
        mix: Mix,
        operator: &mut Operator,
    )
        requires
            old(samples)@.len() >= 32,
            !(old(operator).kind is FrequencyLfo),
        ensures
            final(samples)@ == mixed_fading_out(old(samples)@, *old(self), old(operator).kind, mix),
            *final(self) == old(self).advanced(old(samples)@.len()),
            final(self).kind() == old(self).kind(),
            final(self).step() == old(self).step(),
            final(self).phase() == phase_after(
                old(self).phase(),
                old(self).step(),
                old(samples)@.len(),
            ),
            final(operator).kind == old(operator).kind.advanced(old(samples)@.len()),
    {
        let ghost tone0 = *self;
        let ghost op0 = operator.kind;
        let ghost before = samples@;
        let len: usize = samples.len();
        let chunk_len: usize = len / 32;
        let mut k: usize = 0;
        while k < len
            invariant
                32 <= len == before.len() == samples@.len(),
                chunk_len == len / 32,
                k <= len,
                *self == tone0.advanced(k as nat),
                operator.kind == op0.advanced(k as nat),
                !(op0 is FrequencyLfo),
                forall|j: int|
                    0 <= j < k ==> #[trigger] samples@[j] == before[j].mixed(
                        faded(
                            voice_sample(tone0, op0, j as nat, mix),
                            fade_out_weight(j, len as int),
                        ),
                    ),
                forall|j: int| k <= j < len ==> #[trigger] samples@[j] == before[j],
            decreases len - k,
        {
            proof {
                lemma_fade_chunk(k as int, len as int);
            }
            let ct: i32 = 32 - (k / chunk_len) as i32;
            let samp: i16 = self.next_voice_sample(mix, operator);
            let out: i16 = fade(samp, ct);
            let mut s: StereoSample = samples[k];
            s.mix(out);
            samples[k] = s;
            k += 1;
        }
        proof {
            tone0.lemma_advanced(len as nat);
        }
    }

    /// Mixes the tone into `samples` at its volume, sample by sample.
    pub fn fill_stereo_samples(
        &mut self,
        samples: &mut [StereoSample],
        mix: Mix,
        operator: &mut Operator,
    )
        requires
            !(old(operator).kind is FrequencyLfo),
        ensures
            final(samples)@ == mixed_plain(old(samples)@, *old(self), old(operator).kind, mix),
            *final(self) == old(self).advanced(old(samples)@.len()),
            final(self).kind() == old(self).kind(),
            final(self).step() == old(self).step(),
            final(self).phase() == phase_after(
                old(self).phase(),
                old(self).step(),
                old(samples)@.len(),
            ),
            final(operator).kind == old(operator).kind.advanced(old(samples)@.len()),
    {
        let ghost tone0 = *self;
        let ghost op0 = operator.kind;
        let ghost before = samples@;
        let len: usize = samples.len();
        let mut k: usize = 0;
        while k < len
            invariant
                len == before.len() == samples@.len(),
                k <= len,
                *self == tone0.advanced(k as nat),
                operator.kind == op0.advanced(k as nat),
                !(op0 is FrequencyLfo),
                forall|j: int|
                    0 <= j < k ==> #[trigger] samples@[j] == before[j].mixed(
                        voice_sample(tone0, op0, j as nat, mix) as i16,
                    ),
                forall|j: int| k <= j < len ==> #[trigger] samples@[j] == before[j],
            decreases len - k,
        {
            let samp: i16 = self.next_voice_sample(mix, operator);
            let mut s: StereoSample = samples[k];
            s.mix(samp);
            samples[k] = s;
            k += 1;
        }
        proof {
            tone0.lemma_advanced(len as nat);
        }
    }
}

/// Weights a sample by `weight` thirty-seconds and cuts it to sixteen bits.
fn fade(samp: i16, weight: i32) -> (r: i16)
    requires
        -64 <= weight <= 64,
    ensures
        r == faded(samp as int, weight as int),
{
    proof {
        lemma_weighted_fits(samp as int, weight as int);
    }
    let rsamp: i32 = (samp as i32) * weight;
    let part: i32 = rsamp >> 5;
    assert(part == rsamp / 32) by (bit_vector)
        requires
            part == rsamp >> 5,
    ;
    let r: i16 = #[verifier::truncate] (part as i16);
    assert(r == i16_specs::signed_crop(part as int)) by (bit_vector)
        requires
            r == part as i16,
    ;
    r
}

} // verus!
