//! The three fields of an encoded note and the note itself.
//!
//! A note is a pitch, a start tick and a length in ticks. Each field has a
//! range of its own and travels as one [`KCInt`]: in one byte where its value
//! is a common one, in two bytes otherwise. On the wire the three values stand
//! back to back, so a note takes three to six bytes.

use vstd::prelude::*;
use vstd::std_specs::convert::FromSpecImpl;
use vstd::std_specs::convert::TryFromSpecImpl;
use crate::kcint::EncError;
use crate::kcint::KCInt;
use crate::ppqn::Length;
use crate::ppqn::PPQN_EIGHTH;
use crate::ppqn::PPQN_MAX;
use crate::ppqn::PPQN_QUARTER;
use crate::scale::Pitch;

verus! {

/// A pitch: a semitone and a fine offset towards the next semitone, in 256ths.
#[derive(Clone, Copy, Debug, PartialEq, Eq, Structural)]
pub struct EncPitch {
    tone: u8,
    offset: u8,
}

/// A start tick on the timeline.
#[derive(Clone, Copy, Debug, PartialEq, Eq, Structural)]
pub struct EncStart {
    ppqn_idx: u16,
}

/// A length in ticks.
#[derive(Clone, Copy, Debug, PartialEq, Eq, Structural)]
pub struct EncLength {
    ppqn_ct: u16,
}

/// A note: pitch, start and length.
#[derive(Clone, Copy, Debug, PartialEq, Eq, Structural)]
pub struct EncNote {
    pitch: EncPitch,
    start: EncStart,
    length: EncLength,
}

/// The semitone and fine offset that a wire value stands for as a pitch.
pub open spec fn pitch_fields(k: KCInt) -> (int, int) {
    match k {
        KCInt::Long { upper, lower } => ((lower % 128) as int, upper as int),
        KCInt::Short(b) => ((b % 128) as int, 0),
    }
}

/// The start tick that a wire value stands for: the short form counts eighth
/// notes, the long form ticks.
pub open spec fn start_ticks(k: KCInt) -> int {
    match k {
        KCInt::Long { upper, lower } => k.payload(),
        KCInt::Short(b) => b * 96,
    }
}

/// The length of the short code `code` in ticks, where the code is in use:
/// nine named lengths, then the whole numbers of quarter notes from one to
/// sixty-four.
pub open spec fn short_length_ticks(code: int) -> Option<int> {
    if code == 0 {
        Some(16)
    } else if code == 1 {
        Some(32)
    } else if code == 2 {
        Some(64)
    } else if code == 3 {
        Some(128)
    } else if code == 4 {
        Some(256)
    } else if code == 5 {
        Some(12)
    } else if code == 6 {
        Some(24)
    } else if code == 7 {
        Some(48)
    } else if code == 8 {
        Some(96)
    } else if 0x40 <= code <= 0x7F {
        Some((code - 0x3F) * 192)
    } else {
        None
    }
}

/// The short code of a length in ticks, where it has one.
pub open spec fn short_length_code(ticks: int) -> Option<int> {
    if ticks == 16 {
        Some(0)
    } else if ticks == 32 {
        Some(1)
    } else if ticks == 64 {
        Some(2)
    } else if ticks == 128 {
        Some(3)
    } else if ticks == 256 {
        Some(4)
    } else if ticks == 12 {
        Some(5)
    } else if ticks == 24 {
        Some(6)
    } else if ticks == 48 {
        Some(7)
    } else if ticks == 96 {
        Some(8)
    } else if 0 < ticks <= 64 * 192 && ticks % 192 == 0 {
        Some(0x3F + ticks / 192)
    } else {
        None
    }
}

/// The length in ticks that a wire value stands for, where it stands for one.
pub open spec fn length_ticks(k: KCInt) -> Option<int> {
    match k {
        KCInt::Long { upper, lower } => if 0 < k.payload() <= PPQN_MAX {
            Some(k.payload())
        } else {
            None
        },
        KCInt::Short(b) => short_length_ticks(b as int),
    }
}

/// The wire value of a pitch: one byte where the fine offset is zero.
pub open spec fn pitch_kcint(tone: int, offset: int) -> KCInt {
    if offset == 0 {
        KCInt::Short(tone as u8)
    } else {
        KCInt::Long { upper: offset as u8, lower: (tone + 128) as u8 }
    }
}

/// The wire value of a start tick: one byte where it falls on an eighth note.
pub open spec fn start_kcint(ticks: int) -> KCInt {
    if ticks % 96 == 0 {
        KCInt::Short((ticks / 96) as u8)
    } else {
        KCInt::Long { upper: (ticks / 128) as u8, lower: (ticks % 128 + 128) as u8 }
    }
}

/// The wire value of a length: one byte where the length has a short code.
pub open spec fn length_kcint(ticks: int) -> KCInt {
    match short_length_code(ticks) {
        Some(code) => KCInt::Short(code as u8),
        None => KCInt::Long { upper: (ticks / 128) as u8, lower: (ticks % 128 + 128) as u8 },
    }
}

/// The frequency between two semitones: `offset` 256ths of the way from
/// `base` to `next`.
pub open spec fn between(base: int, next: int, offset: int) -> int {
    if next >= base {
        base + (next - base) * offset / 256
    } else {
        base - (base - next) * offset / 256
    }
}

/// The frequency of a semitone in millihertz.
pub open spec fn tone_millihertz(tone: int) -> int {
    crate::scale::pitch_at(tone).millihertz_in_octave((tone / 12) as u8)
}

/// A part of a distance, in 256ths, is no longer than the distance.
proof fn lemma_part_of_distance(d: int, o: int)
    by (nonlinear_arith)
    requires
        0 <= d <= u32::MAX,
        0 <= o < 256,
    ensures
        0 <= d * o <= u32::MAX * 255,
        0 <= d * o / 256 <= d,
{
}

/// The frequency of a semitone in millihertz.
fn tone_to_freq(tone: u8) -> (f: u32)
    ensures
        f == tone_millihertz(tone as int),
{
    let oct: u8 = tone / 12;
    let pitch: Pitch = Pitch::from_semitones(tone);
    pitch.freq_with_octave(oct)
}

impl EncPitch {
    /// The semitone is at most 127, so that it leaves the flag bit of its
    /// byte free.
    #[verifier::type_invariant]
    pub closed spec fn wf(self) -> bool {
        self.tone <= 0x7F
    }

    /// The semitone, counted from the C of octave zero.
    pub closed spec fn spec_tone(&self) -> u8 {
        self.tone
    }

    /// The fine offset towards the next semitone, in 256ths.
    pub closed spec fn spec_offset(&self) -> u8 {
        self.offset
    }

    /// The frequency in millihertz: that of the semitone, moved towards the
    /// next semitone by the fine offset.
    pub open spec fn millihertz(self) -> int {
        between(
            tone_millihertz(self.tone() as int),
            tone_millihertz(self.tone() + 1),
            self.offset() as int,
        )
    }

    /// The semitone, counted from the C of octave zero.
    #[verifier::when_used_as_spec(spec_tone)]
    pub fn tone(&self) -> (t: u8)
        ensures
            t == self.tone(),
            t <= 0x7F,
    {
        proof {
            use_type_invariant(self);
        }
        self.tone
    }

    /// The fine offset towards the next semitone, in 256ths.
    #[verifier::when_used_as_spec(spec_offset)]
    pub fn offset(&self) -> (o: u8)
        ensures
            o == self.offset(),
    {
        self.offset
    }

    /// A pitch from its two parts. The semitone must leave the flag bit free.
    pub fn new(tone: u8, offset: u8) -> (r: Result<EncPitch, EncError>)
        ensures
            tone <= 0x7F ==> r is Ok && r->Ok_0.tone() == tone && r->Ok_0.offset() == offset,
            tone > 0x7F ==> r == Err::<EncPitch, EncError>(EncError::ValueOutOfBounds),
    {
        if tone > 0x7F {
            Err(EncError::ValueOutOfBounds)
        } else {
            Ok(EncPitch { tone, offset })
        }
    }

    /// The pitch of a note name in an octave, with no fine offset. Octaves
    /// run from zero to ten, and octave ten ends at its G.
    pub fn from_pitch_octave(pitch: Pitch, octave: u8) -> (r: Result<EncPitch, EncError>)
        ensures
            (octave <= 9 || (octave == 10 && pitch.index() <= 7)) ==> r is Ok && r->Ok_0.tone()
                == octave * 12 + pitch.index() && r->Ok_0.offset() == 0,
            !(octave <= 9 || (octave == 10 && pitch.index() <= 7)) ==> r == Err::<
                EncPitch,
                EncError,
            >(EncError::ValueOutOfBounds),
    {
        let index: u8 = pitch.semitones_from_c();
        if octave <= 9 || (octave == 10 && index <= 7) {
            Ok(EncPitch { tone: octave * 12 + index, offset: 0 })
        } else {
            Err(EncError::ValueOutOfBounds)
        }
    }

    /// The frequency in millihertz.
    pub fn frequency(&self) -> (f: u32)
        ensures
            f == self.millihertz(),
    {
        proof {
            use_type_invariant(self);
        }
        let base: u32 = tone_to_freq(self.tone);
        if self.offset == 0 {
            base
        } else {
            let next: u32 = tone_to_freq(self.tone + 1);
            proof {
                if next >= base {
                    lemma_part_of_distance(next - base, self.offset as int);
                } else {
                    lemma_part_of_distance(base - next, self.offset as int);
                }
            }
            if next >= base {
                let step: u64 = ((next - base) as u64) * (self.offset as u64) / 256;
                base + (step as u32)
            } else {
                let step: u64 = ((base - next) as u64) * (self.offset as u64) / 256;
                base - (step as u32)
            }
        }
    }
}

impl From<KCInt> for EncPitch {
    /// Reads a wire value as a pitch. Every value is one: the flag bit is
    /// dropped, and the second byte of the long form is the fine offset.
    fn from(value: KCInt) -> (p: EncPitch)
        ensures
            p.tone() == pitch_fields(value).0,
            p.offset() == pitch_fields(value).1,
    {
        match value {
            KCInt::Long { upper, lower } => EncPitch { tone: lower % 128, offset: upper },
            KCInt::Short(lower) => EncPitch { tone: lower % 128, offset: 0 },
        }
    }
}

impl FromSpecImpl<KCInt> for EncPitch {
    open spec fn obeys_from_spec() -> bool {
        true
    }

    closed spec fn from_spec(value: KCInt) -> EncPitch {
        EncPitch { tone: pitch_fields(value).0 as u8, offset: pitch_fields(value).1 as u8 }
    }
}

impl From<EncPitch> for KCInt {
    /// The wire value of a pitch.
    fn from(value: EncPitch) -> (k: KCInt)
        ensures
            k == pitch_kcint(value.tone() as int, value.offset() as int),
    {
        proof {
            use_type_invariant(value);
        }
        if value.offset == 0 {
            KCInt::Short(value.tone)
        } else {
            KCInt::Long { upper: value.offset, lower: value.tone + 0x80 }
        }
    }
}

impl FromSpecImpl<EncPitch> for KCInt {
    open spec fn obeys_from_spec() -> bool {
        true
    }

    open spec fn from_spec(value: EncPitch) -> KCInt {
        pitch_kcint(value.tone() as int, value.offset() as int)
    }
}

impl EncStart {
    /// The tick lies on the timeline: the last tick of the timeline is the
    /// one before `PPQN_MAX`.
    #[verifier::type_invariant]
    pub closed spec fn wf(self) -> bool {
        self.ppqn_idx < PPQN_MAX
    }

    /// The start tick.
    pub closed spec fn spec_ppqn_idx(&self) -> u16 {
        self.ppqn_idx
    }

    /// The start tick.
    #[verifier::when_used_as_spec(spec_ppqn_idx)]
    pub fn ppqn_idx(&self) -> (t: u16)
        ensures
            t == self.ppqn_idx(),
            t < PPQN_MAX,
    {
        proof {
            use_type_invariant(self);
        }
        self.ppqn_idx
    }

    /// A start at the given tick, which must lie on the timeline.
    pub fn new(ppqn_idx: u16) -> (r: Result<EncStart, EncError>)
        ensures
            ppqn_idx < PPQN_MAX ==> r is Ok && r->Ok_0.ppqn_idx() == ppqn_idx,
            ppqn_idx >= PPQN_MAX ==> r == Err::<EncStart, EncError>(EncError::ValueOutOfBounds),
    {
        if ppqn_idx >= PPQN_MAX {
            Err(EncError::ValueOutOfBounds)
        } else {
            Ok(EncStart { ppqn_idx })
        }
    }
}

impl TryFrom<KCInt> for EncStart {
    type Error = EncError;

    /// Reads a wire value as a start tick. A tick at or past the end of the
    /// timeline is refused: it would be the first tick of the next segment.
    fn try_from(value: KCInt) -> (r: Result<EncStart, EncError>)
        ensures
            start_ticks(value) < PPQN_MAX ==> r is Ok && r->Ok_0.ppqn_idx() == start_ticks(value),
            start_ticks(value) >= PPQN_MAX ==> r == Err::<EncStart, EncError>(
                EncError::ValueOutOfBounds,
            ),
    {
        let count: u16 = match value {
            KCInt::Long { upper, lower } => (upper as u16) * 128 + ((lower % 128) as u16),
            KCInt::Short(lower) => (lower as u16) * PPQN_EIGHTH,
        };
        if count >= PPQN_MAX {
            Err(EncError::ValueOutOfBounds)
        } else {
            Ok(EncStart { ppqn_idx: count })
        }
    }
}

impl TryFromSpecImpl<KCInt> for EncStart {
    open spec fn obeys_try_from_spec() -> bool {
        true
    }

    closed spec fn try_from_spec(value: KCInt) -> Result<EncStart, EncError> {
        if start_ticks(value) < PPQN_MAX {
            Ok(EncStart { ppqn_idx: start_ticks(value) as u16 })
        } else {
            Err(EncError::ValueOutOfBounds)
        }
    }
}

impl From<EncStart> for KCInt {
    /// The wire value of a start tick.
    fn from(value: EncStart) -> (k: KCInt)
        ensures
            k == start_kcint(value.ppqn_idx() as int),
    {
        proof {
            use_type_invariant(value);
        }
        let div: u16 = value.ppqn_idx / PPQN_EIGHTH;
        let rem: u16 = value.ppqn_idx % PPQN_EIGHTH;
        if rem == 0 {
            KCInt::Short(div as u8)
        } else {
            KCInt::Long {
                upper: (value.ppqn_idx / 128) as u8,
                lower: ((value.ppqn_idx % 128) as u8) + 0x80,
            }
        }
    }
}

impl FromSpecImpl<EncStart> for KCInt {
    open spec fn obeys_from_spec() -> bool {
        true
    }

    open spec fn from_spec(value: EncStart) -> KCInt {
        start_kcint(value.ppqn_idx() as int)
    }
}

impl EncLength {
    /// The length is at least one tick and at most the whole timeline.
    #[verifier::type_invariant]
    pub closed spec fn wf(self) -> bool {
        0 < self.ppqn_ct <= PPQN_MAX
    }

    /// The length in ticks.
    pub closed spec fn spec_ppqn_ct(&self) -> u16 {
        self.ppqn_ct
    }

    /// The length in ticks.
    #[verifier::when_used_as_spec(spec_ppqn_ct)]
    pub fn ppqn_ct(&self) -> (t: u16)
        ensures
            t == self.ppqn_ct(),
            0 < t <= PPQN_MAX,
    {
        proof {
            use_type_invariant(self);
        }
        self.ppqn_ct
    }

    /// A length of the given number of ticks, which must be at least one and
    /// at most the whole timeline.
    pub fn new(ppqn_ct: u16) -> (r: Result<EncLength, EncError>)
        ensures
            0 < ppqn_ct <= PPQN_MAX ==> r is Ok && r->Ok_0.ppqn_ct() == ppqn_ct,
            !(0 < ppqn_ct <= PPQN_MAX) ==> r == Err::<EncLength, EncError>(
                EncError::ValueOutOfBounds,
            ),
    {
        if ppqn_ct == 0 || ppqn_ct > PPQN_MAX {
            Err(EncError::ValueOutOfBounds)
        } else {
            Ok(EncLength { ppqn_ct })
        }
    }
}

impl TryFrom<KCInt> for EncLength {
    type Error = EncError;

    /// Reads a wire value as a length. Zero, a length beyond the whole
    /// timeline and the short codes that are not in use are refused.
    fn try_from(value: KCInt) -> (r: Result<EncLength, EncError>)
        ensures
            match length_ticks(value) {
                Some(ticks) => r is Ok && r->Ok_0.ppqn_ct() == ticks,
                None => r == Err::<EncLength, EncError>(EncError::ValueOutOfBounds),
            },
    {
        match value {
            KCInt::Long { upper, lower } => {
                let count: u16 = (upper as u16) * 128 + ((lower % 128) as u16);
                if count == 0 {
                    Err(EncError::ValueOutOfBounds)
                } else if count > PPQN_MAX {
                    Err(EncError::ValueOutOfBounds)
                } else {
                    Ok(EncLength { ppqn_ct: count })
                }
            },
            KCInt::Short(lower) => {
                let count: u16 = if lower == 0x00 {
                    16
                } else if lower == 0x01 {
                    32
                } else if lower == 0x02 {
                    64
                } else if lower == 0x03 {
                    128
                } else if lower == 0x04 {
                    256
                } else if lower == 0x05 {
                    12
                } else if lower == 0x06 {
                    24
                } else if lower == 0x07 {
                    48
                } else if lower == 0x08 {
                    96
                } else if lower <= 0x3F || lower > 0x7F {
                    return Err(EncError::ValueOutOfBounds);
                } else {
                    let qns: u16 = (lower - 0x3F) as u16;
                    qns * PPQN_QUARTER
                };
                Ok(EncLength { ppqn_ct: count })
            },
        }
    }
}

impl TryFromSpecImpl<KCInt> for EncLength {
    open spec fn obeys_try_from_spec() -> bool {
        true
    }

    closed spec fn try_from_spec(value: KCInt) -> Result<EncLength, EncError> {
        match length_ticks(value) {
            Some(ticks) => Ok(EncLength { ppqn_ct: ticks as u16 }),
            None => Err(EncError::ValueOutOfBounds),
        }
    }
}

impl From<EncLength> for KCInt {
    /// The wire value of a length.
    fn from(value: EncLength) -> (k: KCInt)
        ensures
            k == length_kcint(value.ppqn_ct() as int),
    {
        proof {
            use_type_invariant(value);
        }
        let ct: u16 = value.ppqn_ct;
        if ct == 16 {
            KCInt::Short(0x00)
        } else if ct == 32 {
            KCInt::Short(0x01)
        } else if ct == 64 {
            KCInt::Short(0x02)
        } else if ct == 128 {
            KCInt::Short(0x03)
        } else if ct == 256 {
            KCInt::Short(0x04)
        } else if ct == 12 {
            KCInt::Short(0x05)
        } else if ct == 24 {
            KCInt::Short(0x06)
        } else if ct == 48 {
            KCInt::Short(0x07)
        } else if ct == 96 {
            KCInt::Short(0x08)
        } else {
            let div: u16 = ct / PPQN_QUARTER;
            let rem: u16 = ct % PPQN_QUARTER;
            if rem == 0 {
                KCInt::Short(0x3F + (div as u8))
            } else {
                KCInt::Long { upper: (ct / 128) as u8, lower: ((ct % 128) as u8) + 0x80 }
            }
        }
    }
}

impl FromSpecImpl<EncLength> for KCInt {
    open spec fn obeys_from_spec() -> bool {
        true
    }

    open spec fn from_spec(value: EncLength) -> KCInt {
        length_kcint(value.ppqn_ct() as int)
    }
}

/// A note as four numbers: what an [`EncNote`] stands for.
pub struct NoteView {
    /// The semitone, counted from the C of octave zero.
    pub tone: int,
    /// The fine offset towards the next semitone, in 256ths.
    pub offset: int,
    /// The start tick.
    pub start: int,
    /// The length in ticks.
    pub length: int,
}

impl NoteView {
    /// Each of the four numbers lies in the range of its field.
    pub open spec fn wf(self) -> bool {
        &&& 0 <= self.tone <= 0x7F
        &&& 0 <= self.offset <= 0xFF
        &&& 0 <= self.start < PPQN_MAX
        &&& 0 < self.length <= PPQN_MAX
    }

    /// The tick at which the note ends.
    pub open spec fn end(self) -> int {
        self.start + self.length
    }

    /// The bytes of the pitch.
    pub open spec fn pitch_bytes(self) -> Seq<u8> {
        pitch_kcint(self.tone, self.offset).encoding()
    }

    /// The bytes of the start tick.
    pub open spec fn start_bytes(self) -> Seq<u8> {
        start_kcint(self.start).encoding()
    }

    /// The bytes of the length.
    pub open spec fn length_bytes(self) -> Seq<u8> {
        length_kcint(self.length).encoding()
    }

    /// The bytes of the note: pitch, start and length back to back.
    pub open spec fn encoding(self) -> Seq<u8> {
        self.pitch_bytes() + self.start_bytes() + self.length_bytes()
    }
}

/// What the front of a byte sequence decodes to as a note, with the number of
/// bytes consumed. All three values are read before any is judged, so a
/// sequence that ends early is reported as such even where a value that was
/// read is out of range.
pub open spec fn decode_note(s: Seq<u8>) -> Result<(NoteView, int), EncError> {
    match KCInt::decode(s) {
        None => Err(EncError::EndOfStream),
        Some((pitch, n1)) => {
            let after_pitch = s.subrange(n1, s.len() as int);
            match KCInt::decode(after_pitch) {
                None => Err(EncError::EndOfStream),
                Some((start, n2)) => {
                    let after_start = after_pitch.subrange(n2, after_pitch.len() as int);
                    match KCInt::decode(after_start) {
                        None => Err(EncError::EndOfStream),
                        Some((length, n3)) => {
                            if start_ticks(start) >= PPQN_MAX {
                                Err(EncError::ValueOutOfBounds)
                            } else {
                                match length_ticks(length) {
                                    None => Err(EncError::ValueOutOfBounds),
                                    Some(ticks) => Ok(
                                        (
                                            NoteView {
                                                tone: pitch_fields(pitch).0,
                                                offset: pitch_fields(pitch).1,
                                                start: start_ticks(start),
                                                length: ticks,
                                            },
                                            n1 + n2 + n3,
                                        ),
                                    ),
                                }
                            }
                        },
                    }
                },
            }
        },
    }
}

impl View for EncNote {
    type V = NoteView;

    closed spec fn view(&self) -> NoteView {
        NoteView {
            tone: self.pitch.tone as int,
            offset: self.pitch.offset as int,
            start: self.start.ppqn_idx as int,
            length: self.length.ppqn_ct as int,
        }
    }
}

impl EncNote {
    /// Each field lies in its range.
    #[verifier::type_invariant]
    pub closed spec fn wf(self) -> bool {
        self.pitch.wf() && self.start.wf() && self.length.wf()
    }

    /// The pitch of the note.
    pub closed spec fn spec_pitch(&self) -> EncPitch {
        self.pitch
    }

    /// The pitch of the note.
    #[verifier::when_used_as_spec(spec_pitch)]
    pub fn pitch(&self) -> (p: EncPitch)
        ensures
            p == self.pitch(),
            p.tone() == self@.tone,
            p.offset() == self@.offset,
    {
        self.pitch
    }

    /// A note of the given pitch and octave, starting at `start_ppqn` and
    /// lasting `length`, with no fine offset. It is refused where the octave
    /// is out of range, the start does not lie on the timeline, or the length
    /// is zero or longer than the timeline.
    pub fn new_simple(pitch: Pitch, octave: u8, start_ppqn: u16, length: Length) -> (r: Result<
        EncNote,
        EncError,
    >)
        ensures
            EncNote::simple_ok(pitch, octave, start_ppqn, length) ==> r is Ok && r->Ok_0@
                == (NoteView {
                tone: octave * 12 + pitch.index(),
                offset: 0,
                start: start_ppqn as int,
                length: length.ticks(),
            }),
            !EncNote::simple_ok(pitch, octave, start_ppqn, length) ==> r == Err::<
                EncNote,
                EncError,
            >(EncError::ValueOutOfBounds),
            r is Ok ==> r->Ok_0@.wf(),
    {
        let pitch = EncPitch::from_pitch_octave(pitch, octave)?;
        let start = EncStart::new(start_ppqn)?;
        let length = EncLength::new(length.to_ppqn())?;
        Ok(EncNote { pitch, start, length })
    }

    /// The arguments from which [`EncNote::new_simple`] makes a note.
    pub open spec fn simple_ok(pitch: Pitch, octave: u8, start_ppqn: u16, length: Length) -> bool {
        &&& octave <= 9 || (octave == 10 && pitch.index() <= 7)
        &&& start_ppqn < PPQN_MAX
        &&& 0 < length.ticks() <= PPQN_MAX
    }

    /// Reads one note from the front of `sli` and returns it with the bytes
    /// that follow it.
    pub fn take_from_slice(sli: &[u8]) -> (r: Result<(EncNote, &[u8]), EncError>)
        ensures
            match decode_note(sli@) {
                Ok((v, n)) => r matches Ok((note, rest)) && note@ == v && v.wf() && rest@
                    == sli@.subrange(n, sli@.len() as int),
                Err(e) => r matches Err(err) && err == e,
            },
    {
        let (pitch, sli1) = match KCInt::take_from_slice(sli) {
            Some(found) => found,
            None => {
                return Err(EncError::EndOfStream);
            },
        };
        let (start, sli2) = match KCInt::take_from_slice(sli1) {
            Some(found) => found,
            None => {
                return Err(EncError::EndOfStream);
            },
        };
        let (length, sli3) = match KCInt::take_from_slice(sli2) {
            Some(found) => found,
            None => {
                return Err(EncError::EndOfStream);
            },
        };
        let pitch: EncPitch = EncPitch::from(pitch);
        let start: EncStart = EncStart::try_from(start)?;
        let length: EncLength = EncLength::try_from(length)?;
        proof {
            let n1 = KCInt::decode(sli@)->Some_0.1;
            let n2 = KCInt::decode(sli1@)->Some_0.1;
            let n3 = KCInt::decode(sli2@)->Some_0.1;
            assert(sli3@ == sli@.subrange(n1 + n2 + n3, sli@.len() as int));
        }
        Ok((EncNote { pitch, start, length }, sli3))
    }

    /// Writes the note to the front of `sli` and returns the room that is
    /// left behind it. The three values are written in turn: where the
    /// buffer is too small, those that still fit have been written.
    pub fn write_to_slice<'a>(&self, sli: &'a mut [u8]) -> (r: Result<&'a mut [u8], EncError>)
        ensures
            old(sli)@.len() >= self@.encoding().len() ==> r is Ok && r->Ok_0@ == old(
                sli,
            )@.subrange(self@.encoding().len() as int, old(sli)@.len() as int) && final(sli)@
                == self@.encoding() + final(r->Ok_0)@,
            old(sli)@.len() < self@.encoding().len() ==> r == Err::<&mut [u8], EncError>(
                EncError::EndOfStream,
            ) && final(sli)@ == EncNote::written_before_full(self@, old(sli)@),
    {
        let pitch: KCInt = KCInt::from(self.pitch);
        let start: KCInt = KCInt::from(self.start);
        let length: KCInt = KCInt::from(self.length);
        let ghost before = sli@;
        let sli1 = pitch.write_to_slice(sli)?;
        let ghost before1 = sli1@;
        let sli2 = match start.write_to_slice(sli1) {
            Ok(room) => room,
            Err(e) => {
                return Err(e);
            },
        };
        let ghost before2 = sli2@;
        let sli3 = match length.write_to_slice(sli2) {
            Ok(room) => room,
            Err(e) => {
                proof {
                    let p = self@.pitch_bytes();
                    let s = self@.start_bytes();
                    assert(before2 == before.subrange((p.len() + s.len()) as int, before.len() as int));
                    assert(p + (s + before2) == p + s + before2);
                }
                return Err(e);
            },
        };
        proof {
            let p = self@.pitch_bytes();
            let s = self@.start_bytes();
            let l = self@.length_bytes();
            assert(p + (s + (l + final(sli3)@)) == (p + s + l) + final(sli3)@);
            assert(sli3@ == before.subrange((p + s + l).len() as int, before.len() as int));
        }
        Ok(sli3)
    }

    /// What a buffer too small for the note holds after the attempt to write
    /// it: the values that fit, in turn, and behind them what was there.
    pub open spec fn written_before_full(v: NoteView, buf: Seq<u8>) -> Seq<u8> {
        let p = v.pitch_bytes();
        let s = v.start_bytes();
        if buf.len() < p.len() {
            buf
        } else if buf.len() < p.len() + s.len() {
            p + buf.subrange(p.len() as int, buf.len() as int)
        } else {
            p + s + buf.subrange((p.len() + s.len()) as int, buf.len() as int)
        }
    }

    /// The semitone and the fine offset of the pitch.
    pub fn pitch_tone_offset(&self) -> (r: (u8, u8))
        ensures
            r.0 == self@.tone,
            r.1 == self@.offset,
    {
        (self.pitch.tone, self.pitch.offset)
    }

    /// The start tick.
    pub fn ppqn_start(&self) -> (t: u16)
        ensures
            t == self@.start,
    {
        self.start.ppqn_idx
    }

    /// The length in ticks.
    pub fn ppqn_len(&self) -> (t: u16)
        ensures
            t == self@.length,
    {
        self.length.ppqn_ct
    }
}

/// Every pitch comes back from its wire value: encoding the semitone and
/// the fine offset and reading the result as a pitch gives both back.
pub proof fn lemma_pitch_roundtrip(tone: int, offset: int)
    requires
        0 <= tone <= 0x7F,
        0 <= offset <= 0xFF,
    ensures
        pitch_kcint(tone, offset).wf(),
        pitch_fields(pitch_kcint(tone, offset)) == (tone, offset),
{
}

/// Every tick of the timeline comes back from its wire value.
pub proof fn lemma_start_roundtrip(ticks: int)
    requires
        0 <= ticks < PPQN_MAX,
    ensures
        start_kcint(ticks).wf(),
        start_ticks(start_kcint(ticks)) == ticks,
{
}

/// Every length from one tick to the whole timeline comes back from its wire
/// value.
pub proof fn lemma_length_roundtrip(ticks: int)
    requires
        0 < ticks <= PPQN_MAX,
    ensures
        length_kcint(ticks).wf(),
        length_ticks(length_kcint(ticks)) == Some(ticks),
{
}

/// A note takes three to six bytes.
pub proof fn lemma_note_encoding_len(v: NoteView)
    ensures
        3 <= v.encoding().len() <= 6,
        1 <= v.pitch_bytes().len() <= 2,
        1 <= v.start_bytes().len() <= 2,
        1 <= v.length_bytes().len() <= 2,
{
}

/// Encoding a note and decoding the bytes gives the note back, whatever
/// follows it on the wire.
pub proof fn lemma_note_encode_decode(v: NoteView, rest: Seq<u8>)
    requires
        v.wf(),
    ensures
        decode_note(v.encoding() + rest) == Ok::<(NoteView, int), EncError>(
            (v, v.encoding().len() as int),
        ),
{
    let p = pitch_kcint(v.tone, v.offset);
    let s = start_kcint(v.start);
    let l = length_kcint(v.length);
    lemma_pitch_roundtrip(v.tone, v.offset);
    lemma_start_roundtrip(v.start);
    lemma_length_roundtrip(v.length);
    let all = v.encoding() + rest;
    assert(all == p.encoding() + (s.encoding() + (l.encoding() + rest)));
    crate::kcint::lemma_kcint_encode_decode(p, s.encoding() + (l.encoding() + rest));
    let after_pitch = all.subrange(p.encoding().len() as int, all.len() as int);
    assert(after_pitch == s.encoding() + (l.encoding() + rest));
    crate::kcint::lemma_kcint_encode_decode(s, l.encoding() + rest);
    let after_start = after_pitch.subrange(s.encoding().len() as int, after_pitch.len() as int);
    assert(after_start == l.encoding() + rest);
    crate::kcint::lemma_kcint_encode_decode(l, rest);
}

/// Whatever decodes as a note has each field in its range and took three to
/// six bytes. (Encoding it may give other bytes: a pitch without fine offset
/// or a start on an eighth note may have come in the long form.)
pub proof fn lemma_note_decode_wf(s: Seq<u8>)
    requires
        decode_note(s) is Ok,
    ensures
        decode_note(s)->Ok_0.0.wf(),
        3 <= decode_note(s)->Ok_0.1 <= 6,
        decode_note(s)->Ok_0.1 <= s.len(),
{
}

} // verus!
