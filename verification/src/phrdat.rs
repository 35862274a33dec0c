//! Phrases: a header of musical settings and a rhythm for each voice.
//!
//! A phrase is not made afresh each time. Filling a builder that already
//! holds a phrase changes each setting only with the chance that its
//! parameters give, so that one phrase grows out of the one before. The
//! settings depend on one another and are visited in a fixed order: tempo,
//! kind of key, time signature, scale, number of measures, chords, key,
//! voices; then the rhythm of each voice.

use vstd::prelude::*;
use vstd::std_specs::convert::FromSpecImpl;
use crate::encoding::EncLength;
use crate::encoding::EncStart;
use crate::ppqn::PPQN_16TH;
use crate::ppqn::PPQN_EIGHTH;
use crate::ppqn::PPQN_MAX;
use crate::ppqn::PPQN_QUARTER;
use crate::scale::major_scale;
use crate::scale::major_scale_intervals;
use crate::scale::minor_scale;
use crate::scale::minor_scale_intervals;
use crate::scale::MAJOR_SCALE_COUNT;
use crate::scale::MINOR_SCALE_COUNT;

pub mod params;
pub mod voices;
pub mod builder;

verus! {

/// The note value that counts as one beat.
#[derive(Clone, Copy, Debug, PartialEq, Eq, Structural)]
pub enum SignatureDenominator {
    Quarter,
    Eighth,
    Sixteenth,
}

/// A time signature: so many beats of such a note value in a measure.
#[derive(Clone, Copy, Debug, PartialEq, Eq, Structural)]
pub struct TimeSignature {
    numerator: u8,
    denominator: SignatureDenominator,
}

/// Major or minor.
#[derive(Clone, Copy, Debug, PartialEq, Eq, Structural)]
pub enum KeyKind {
    Major,
    Minor,
}

/// A chord by the degree of the scale on which it stands.
#[derive(Clone, Copy, Debug, PartialEq, Eq, Structural)]
pub enum Chord {
    I,
    II,
    III,
    IV,
    V,
    VI,
}

/// One chord for each measure of a phrase.
#[derive(Debug)]
pub struct ChordProgression {
    chords: Vec<Chord>,
}

/// A scale: its family and its number within the family's table.
#[derive(Clone, Copy, Debug, PartialEq, Eq, Structural)]
pub struct Scale {
    family: KeyKind,
    index: u8,
}

/// One note of a rhythm: where it starts and how long it lasts.
#[derive(Clone, Copy, Debug, PartialEq, Eq, Structural)]
pub struct EncRhythm {
    start: EncStart,
    length: EncLength,
}

/// The chord on the degree with the given number, counted from zero, and
/// the first chord for a number that names no degree.
pub open spec fn chord_at(degree: int) -> Chord {
    if degree == 1 {
        Chord::II
    } else if degree == 2 {
        Chord::III
    } else if degree == 3 {
        Chord::IV
    } else if degree == 4 {
        Chord::V
    } else if degree == 5 {
        Chord::VI
    } else {
        Chord::I
    }
}

/// Whether a sequence of chords can stand as the chords of a phrase: at
/// least three measures, the first and the last on the first degree, the one
/// before the last on the fourth or the fifth.
pub open spec fn is_progression(chords: Seq<Chord>) -> bool {
    &&& 3 <= chords.len() <= u8::MAX
    &&& chords[0] == Chord::I
    &&& chords[chords.len() - 1] == Chord::I
    &&& (chords[chords.len() - 2] == Chord::IV || chords[chords.len() - 2] == Chord::V)
}

impl SignatureDenominator {
    /// The ticks of one beat.
    pub open spec fn beat_ticks(self) -> int {
        match self {
            SignatureDenominator::Quarter => 192,
            SignatureDenominator::Eighth => 96,
            SignatureDenominator::Sixteenth => 48,
        }
    }

    /// The number of beats that a timeline holds.
    pub open spec fn beats_limit(self) -> int {
        match self {
            SignatureDenominator::Quarter => 64,
            SignatureDenominator::Eighth => 128,
            SignatureDenominator::Sixteenth => 256,
        }
    }

    /// The ticks of one beat.
    pub fn to_ppqn(self) -> (t: u16)
        ensures
            t == self.beat_ticks(),
    {
        match self {
            SignatureDenominator::Quarter => PPQN_QUARTER,
            SignatureDenominator::Eighth => PPQN_EIGHTH,
            SignatureDenominator::Sixteenth => PPQN_16TH,
        }
    }

    /// The number of beats that a timeline holds.
    pub fn max_beats(self) -> (n: u16)
        ensures
            n == self.beats_limit(),
            n * self.beat_ticks() == PPQN_MAX,
    {
        match self {
            SignatureDenominator::Quarter => 16 * 4,
            SignatureDenominator::Eighth => 16 * 8,
            SignatureDenominator::Sixteenth => 16 * 16,
        }
    }
}

impl TimeSignature {
    /// A measure has at least one beat, and three measures fit on a
    /// timeline.
    #[verifier::type_invariant]
    pub closed spec fn wf(self) -> bool {
        1 <= self.numerator && 3 * self.numerator <= self.denominator.beats_limit()
    }

    /// The number of beats in a measure.
    pub closed spec fn spec_numerator(&self) -> u8 {
        self.numerator
    }

    /// The note value of a beat.
    pub closed spec fn spec_denominator(&self) -> SignatureDenominator {
        self.denominator
    }

    /// The ticks of one measure.
    pub open spec fn measure_ticks(&self) -> int {
        self.numerator() * self.denominator().beat_ticks()
    }

    /// The most measures of this signature that fit on a timeline.
    pub open spec fn measures_limit(&self) -> int {
        self.denominator().beats_limit() / (self.numerator() as int)
    }

    /// The signature of `numerator` beats of the given note value, where a
    /// measure has at least one beat and three measures fit on a timeline.
    pub fn new(numerator: u8, denominator: SignatureDenominator) -> (r: Option<TimeSignature>)
        ensures
            (1 <= numerator && 3 * numerator <= denominator.beats_limit()) <==> r is Some,
            r is Some ==> r->Some_0.numerator() == numerator && r->Some_0.denominator()
                == denominator,
    {
        if numerator >= 1 && 3 * (numerator as u16) <= denominator.max_beats() {
            Some(TimeSignature { numerator, denominator })
        } else {
            None
        }
    }

    /// The number of beats in a measure.
    #[verifier::when_used_as_spec(spec_numerator)]
    pub fn numerator(&self) -> (n: u8)
        ensures
            n == self.numerator(),
            1 <= n,
            3 * n <= self.denominator().beats_limit(),
    {
        proof {
            use_type_invariant(self);
        }
        self.numerator
    }

    /// The note value of a beat.
    #[verifier::when_used_as_spec(spec_denominator)]
    pub fn denominator(&self) -> (d: SignatureDenominator)
        ensures
            d == self.denominator(),
    {
        self.denominator
    }
}

impl Chord {
    /// The number of the degree, counted from zero.
    pub open spec fn degree(self) -> int {
        match self {
            Chord::I => 0,
            Chord::II => 1,
            Chord::III => 2,
            Chord::IV => 3,
            Chord::V => 4,
            Chord::VI => 5,
        }
    }

    /// The number of the degree, counted from zero.
    pub fn to_degree(self) -> (d: u8)
        ensures
            d == self.degree(),
    {
        match self {
            Chord::I => 0,
            Chord::II => 1,
            Chord::III => 2,
            Chord::IV => 3,
            Chord::V => 4,
            Chord::VI => 5,
        }
    }
}

impl From<u8> for Chord {
    /// The chord on the degree with the given number, counted from zero; the
    /// first chord for a number that names no degree.
    fn from(val: u8) -> (c: Chord) {
        if val == 1 {
            Chord::II
        } else if val == 2 {
            Chord::III
        } else if val == 3 {
            Chord::IV
        } else if val == 4 {
            Chord::V
        } else if val == 5 {
            Chord::VI
        } else {
            Chord::I
        }
    }
}

impl FromSpecImpl<u8> for Chord {
    open spec fn obeys_from_spec() -> bool {
        true
    }

    open spec fn from_spec(val: u8) -> Chord {
        chord_at(val as int)
    }
}

impl View for ChordProgression {
    type V = Seq<Chord>;

    closed spec fn view(&self) -> Seq<Chord> {
        self.chords@
    }
}

impl ChordProgression {
    /// The chords can stand as the chords of a phrase.
    #[verifier::type_invariant]
    pub closed spec fn wf(self) -> bool {
        is_progression(self.chords@)
    }

    /// The progression of the given chords, where they can stand as the
    /// chords of a phrase.
    pub fn new(chords: Vec<Chord>) -> (r: Option<ChordProgression>)
        ensures
            is_progression(chords@) <==> r is Some,
            r is Some ==> r->Some_0@ == chords@,
    {
        let n: usize = chords.len();
        if n < 3 || n > 255 {
            return None;
        }
        let first_ok: bool = chords[0].to_degree() == 0;
        let last_ok: bool = chords[n - 1].to_degree() == 0;
        let sec: u8 = chords[n - 2].to_degree();
        if first_ok && last_ok && (sec == 3 || sec == 4) {
            Some(ChordProgression { chords })
        } else {
            None
        }
    }

    /// The chords, measure by measure.
    pub fn chords(&self) -> (v: Vec<Chord>)
        ensures
            v@ == self@,
            is_progression(v@),
    {
        proof {
            use_type_invariant(self);
        }
        let mut v: Vec<Chord> = Vec::new();
        let mut i: usize = 0;
        while i < self.chords.len()
            invariant
                i <= self.chords@.len(),
                v@ == self.chords@.subrange(0, i as int),
            decreases self.chords@.len() - i,
        {
            v.push(self.chords[i]);
            i += 1;
        }
        assert(v@ == self.chords@);
        v
    }

    /// A copy of the progression.
    pub fn duplicate(&self) -> (copy: ChordProgression)
        ensures
            copy@ == self@,
    {
        proof {
            use_type_invariant(self);
        }
        ChordProgression { chords: self.chords() }
    }
}

impl Clone for ChordProgression {
    fn clone(&self) -> (copy: ChordProgression)
        ensures
            copy@ == self@,
    {
        self.duplicate()
    }
}

impl Scale {
    /// The number names a scale of the family.
    #[verifier::type_invariant]
    pub closed spec fn wf(self) -> bool {
        match self.family {
            KeyKind::Major => self.index < MAJOR_SCALE_COUNT,
            KeyKind::Minor => self.index < MINOR_SCALE_COUNT,
        }
    }

    /// The family of the scale.
    pub closed spec fn spec_family(&self) -> KeyKind {
        self.family
    }

    /// The number of the scale within its family.
    pub closed spec fn spec_index(&self) -> u8 {
        self.index
    }

    /// The distances of the notes of the scale from its key, in semitones.
    pub open spec fn spec_intervals(&self) -> Seq<i8> {
        match self.family() {
            KeyKind::Major => major_scale_intervals(self.index() as int),
            KeyKind::Minor => minor_scale_intervals(self.index() as int),
        }
    }

    /// The scale with the given number in the given family, where the
    /// family has that many scales.
    pub fn new(family: KeyKind, index: u8) -> (r: Option<Scale>)
        ensures
            index < Scale::family_size(family) <==> r is Some,
            r is Some ==> r->Some_0.family() == family && r->Some_0.index() == index,
    {
        let count: usize = match family {
            KeyKind::Major => MAJOR_SCALE_COUNT,
            KeyKind::Minor => MINOR_SCALE_COUNT,
        };
        if (index as usize) < count {
            Some(Scale { family, index })
        } else {
            None
        }
    }

    /// The number of scales in a family.
    pub open spec fn family_size(family: KeyKind) -> int {
        match family {
            KeyKind::Major => MAJOR_SCALE_COUNT as int,
            KeyKind::Minor => MINOR_SCALE_COUNT as int,
        }
    }

    /// The family of the scale.
    #[verifier::when_used_as_spec(spec_family)]
    pub fn family(&self) -> (f: KeyKind)
        ensures
            f == self.family(),
    {
        self.family
    }

    /// The number of the scale within its family.
    #[verifier::when_used_as_spec(spec_index)]
    pub fn index(&self) -> (i: u8)
        ensures
            i == self.index(),
            i < Scale::family_size(self.family()),
    {
        proof {
            use_type_invariant(self);
        }
        self.index
    }

    /// The distances of the notes of the scale from its key, in semitones.
    pub fn intervals(&self) -> (table: &'static [i8])
        ensures
            table@ == self.spec_intervals(),
    {
        proof {
            use_type_invariant(self);
        }
        match self.family {
            KeyKind::Major => major_scale(self.index as usize),
            KeyKind::Minor => minor_scale(self.index as usize),
        }
    }
}

impl EncRhythm {
    /// The start tick.
    pub closed spec fn spec_ppqn_start(&self) -> u16 {
        self.start.ppqn_idx()
    }

    /// The length in ticks.
    pub closed spec fn spec_ppqn_len(&self) -> u16 {
        self.length.ppqn_ct()
    }

    /// A note of a rhythm from its start and its length.
    pub fn new(start: EncStart, length: EncLength) -> (r: EncRhythm)
        ensures
            r.ppqn_start() == start.ppqn_idx(),
            r.ppqn_len() == length.ppqn_ct(),
    {
        EncRhythm { start, length }
    }

    /// The start tick.
    #[verifier::when_used_as_spec(spec_ppqn_start)]
    pub fn ppqn_start(&self) -> (t: u16)
        ensures
            t == self.ppqn_start(),
            t < PPQN_MAX,
    {
        self.start.ppqn_idx()
    }

    /// The length in ticks.
    #[verifier::when_used_as_spec(spec_ppqn_len)]
    pub fn ppqn_len(&self) -> (t: u16)
        ensures
            t == self.ppqn_len(),
            0 < t <= PPQN_MAX,
    {
        self.length.ppqn_ct()
    }
}

} // verus!
