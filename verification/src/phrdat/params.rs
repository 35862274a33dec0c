//! The parameters of the header of a phrase, and how each setting is drawn
//! and changed.
//!
//! Each setting has a `generate`, which draws it afresh, and a `step`, which
//! keeps the old value unless a trial at the setting's chance of change
//! comes true. What a draw may give is stated for every outcome; what is
//! made of a draw is decided by functions that take the draw as an argument.

use vstd::prelude::*;
use rand::rngs::StdRng;
use crate::phrdat::is_progression;
use crate::phrdat::Chord;
use crate::phrdat::ChordProgression;
use crate::phrdat::KeyKind;
use crate::phrdat::Scale;
use crate::phrdat::SignatureDenominator;
use crate::phrdat::TimeSignature;
use crate::random::coin;
use crate::random::pick_below;
use crate::random::pick_between;
use crate::random::Probability;
use crate::scale::Pitch;
use crate::scale::MAJOR_SCALE_COUNT;
use crate::scale::MINOR_SCALE_COUNT;
use crate::scale::PITCHES_PER_OCTAVE;

verus! {

/// How the tempo is drawn and changed.
#[derive(Debug)]
pub struct BpmParameters {
    /// The slowest tempo, in beats per minute.
    pub min: u16,
    /// The fastest tempo, in beats per minute.
    pub max: u16,
    /// The most by which the tempo changes from one phrase to the next.
    pub max_delta_per_phrase: u16,
    /// The chance that the tempo changes.
    pub mutation_probability: Probability,
}

/// How the kind of key is drawn and changed.
#[derive(Debug)]
pub struct KeyKindParameters {
    /// The chance that the kind of key is drawn again.
    pub mutation_probablity: Probability,
}

/// How the time signature is drawn and changed.
#[derive(Debug)]
pub struct TimeSignatureParameters {
    num_min: u8,
    num_max: u8,
    num_mutation_probability: Probability,
}

/// How the scale is drawn and changed.
#[derive(Debug)]
pub struct ScaleParameters {
    mutation_probability: Probability,
}

/// How the number of measures is drawn and changed.
#[derive(Debug)]
pub struct NumMeasuresParameters {
    min_measures: u8,
    max_measures: u8,
    mutation_probability: Probability,
}

/// How the chords are drawn and changed.
#[derive(Debug)]
pub struct ChordProgressionParameters {
    mutation_probability: Probability,
}

/// How the key is drawn and changed.
#[derive(Debug)]
pub struct KeyParameters {
    mutation_probability: Probability,
}

/// How the numbers of lead and chorus voices are drawn and changed.
#[derive(Debug)]
pub struct VoicesParameters {
    lead_voices_min: u8,
    lead_voices_max: u8,
    chorus_voices_min: u8,
    chorus_voices_max: u8,
    total_voices_max: u8,
    lead_voices_mutation_probability: Probability,
    chorus_voices_mutation_probability: Probability,
}

/// Whether `p` is the chance of `numerator` in `denominator`.
pub open spec fn is_chance(p: Probability, numerator: u32, denominator: u32) -> bool {
    p.numerator() == numerator && p.denominator() == denominator
}

/// The chance of one in ten.
pub(crate) fn one_in_ten() -> (p: Probability)
    ensures
        p.numerator() == 1,
        p.denominator() == 10,
{
    Probability::new(1, 10).unwrap()
}

/// The chance of one in twenty.
pub(crate) fn one_in_twenty() -> (p: Probability)
    ensures
        p.numerator() == 1,
        p.denominator() == 20,
{
    Probability::new(1, 20).unwrap()
}

impl Default for BpmParameters {
    /// Fifty to a hundred and fifty beats per minute, changing by up to ten
    /// with a chance of one in ten.
    fn default() -> (p: BpmParameters)
        ensures
            p.is_default(),
            p.wf(),
    {
        BpmParameters { min: 50, max: 150, max_delta_per_phrase: 10, mutation_probability: one_in_ten() }
    }
}

impl BpmParameters {
    /// Fifty to a hundred and fifty beats per minute, changing by up to ten
    /// with a chance of one in ten.
    pub open spec fn is_default(&self) -> bool {
        &&& self.min == 50
        &&& self.max == 150
        &&& self.max_delta_per_phrase == 10
        &&& is_chance(self.mutation_probability, 1, 10)
    }

    /// The slowest tempo is not above the fastest.
    pub open spec fn wf(&self) -> bool {
        self.min <= self.max
    }

    /// The tempo `old` changed by `delta`: upwards but not past the fastest
    /// tempo, or downwards but not past the slowest.
    pub open spec fn changed(&self, old: u16, delta: u16, up: bool) -> int {
        if up {
            let raised = if old + delta > u16::MAX {
                u16::MAX as int
            } else {
                old + delta
            };
            if raised < self.max {
                raised
            } else {
                self.max as int
            }
        } else {
            let lowered = if old - delta < 0 {
                0
            } else {
                old - delta
            };
            if lowered > self.min {
                lowered
            } else {
                self.min as int
            }
        }
    }

    /// What a step may make of the tempo `old`: a change by up to the largest
    /// change, or the same where the change is not `certain`.
    pub open spec fn may_step_to(&self, old: u16, new: u16, certain: bool) -> bool {
        (!certain && new == old) || exists|delta: u16, up: bool|
            delta <= self.max_delta_per_phrase && new == #[trigger] self.changed(old, delta, up)
    }

    /// The tempo `old` changed by `delta`, upwards or downwards.
    pub fn change(&self, old: u16, delta: u16, up: bool) -> (new: u16)
        ensures
            new == self.changed(old, delta, up),
    {
        if up {
            let raised: u16 = old.saturating_add(delta);
            if raised < self.max {
                raised
            } else {
                self.max
            }
        } else {
            let lowered: u16 = old.saturating_sub(delta);
            if lowered > self.min {
                lowered
            } else {
                self.min
            }
        }
    }

    /// A tempo from the slowest to the fastest, both included.
    pub(crate) fn generate(&self, rng: &mut StdRng) -> (bpm: u16)
        requires
            self.wf(),
        ensures
            self.min <= bpm <= self.max,
    {
        pick_between(rng, self.min as u32, self.max as u32) as u16
    }

    /// The tempo of the next phrase: the old one, or with the chance of
    /// change the old one moved by up to the largest change.
    pub(crate) fn step(&self, rng: &mut StdRng, old: u16) -> (new: u16)
        requires
            self.wf(),
        ensures
            self.may_step_to(old, new, self.mutation_probability.is_always()),
            self.mutation_probability.is_never() ==> new == old,
            self.min <= old <= self.max ==> self.min <= new <= self.max,
    {
        if !self.mutation_probability.trial(rng) {
            return old;
        }
        let delta: u16 = pick_between(rng, 0, self.max_delta_per_phrase as u32) as u16;
        let up: bool = coin(rng);
        self.change(old, delta, up)
    }
}

impl Default for KeyKindParameters {
    /// A chance of change of one in twenty.
    fn default() -> (p: KeyKindParameters)
        ensures
            p.is_default(),
    {
        KeyKindParameters { mutation_probablity: one_in_twenty() }
    }
}

impl KeyKindParameters {
    /// A chance of change of one in twenty.
    pub open spec fn is_default(&self) -> bool {
        &&& is_chance(self.mutation_probablity, 1, 20)
    }

    /// The kind of key that a coin decides: major for heads.
    pub fn from_coin(heads: bool) -> (kind: KeyKind)
        ensures
            kind == if heads {
                KeyKind::Major
            } else {
                KeyKind::Minor
            },
    {
        match heads {
            true => KeyKind::Major,
            false => KeyKind::Minor,
        }
    }

    /// Major or minor by a fair coin.
    pub(crate) fn generate(&self, rng: &mut StdRng) -> KeyKind {
        KeyKindParameters::from_coin(coin(rng))
    }

    /// The kind of key of the next phrase: the old one, or with the chance
    /// of change a fresh draw.
    pub(crate) fn step(&self, rng: &mut StdRng, old: KeyKind) -> (new: KeyKind)
        ensures
            self.mutation_probablity.is_never() ==> new == old,
    {
        if self.mutation_probablity.trial(rng) {
            self.generate(rng)
        } else {
            old
        }
    }
}

impl Default for TimeSignatureParameters {
    /// Three to six beats in a measure, drawn again with a chance of one in
    /// ten.
    fn default() -> (p: TimeSignatureParameters)
        ensures
            p.is_default(),
    {
        TimeSignatureParameters { num_min: 3, num_max: 6, num_mutation_probability: one_in_ten() }
    }
}

impl TimeSignatureParameters {
    /// Three to six beats in a measure, drawn again with a chance of one in
    /// ten.
    pub open spec fn is_default(&self) -> bool {
        &&& self.num_min() == 3
        &&& self.num_max() == 6
        &&& is_chance(self.chance(), 1, 10)
    }

    /// There is a number of beats to draw, and with any of them three
    /// measures of quarter beats fit on a timeline.
    #[verifier::type_invariant]
    pub closed spec fn wf(&self) -> bool {
        1 <= self.num_min <= self.num_max <= 21
    }

    /// The fewest beats in a measure.
    pub closed spec fn num_min(&self) -> u8 {
        self.num_min
    }

    /// The most beats in a measure.
    pub closed spec fn num_max(&self) -> u8 {
        self.num_max
    }

    /// The chance that the signature is drawn again.
    pub closed spec fn chance(&self) -> Probability {
        self.num_mutation_probability
    }

    /// Whether `signature` is one that these parameters draw.
    pub open spec fn may_generate(&self, signature: TimeSignature) -> bool {
        &&& self.num_min() <= signature.numerator() <= self.num_max()
        &&& signature.denominator() == SignatureDenominator::Quarter
    }

    /// A signature of quarter beats with a number of beats from the fewest
    /// to the most.
    pub(crate) fn generate(&self, rng: &mut StdRng) -> (signature: TimeSignature)
        ensures
            self.may_generate(signature),
    {
        proof {
            use_type_invariant(self);
        }
        let numerator: u8 = pick_between(rng, self.num_min as u32, self.num_max as u32) as u8;
        TimeSignature::new(numerator, SignatureDenominator::Quarter).unwrap()
    }

    /// The signature of the next phrase: the old one, or with the chance of
    /// change a fresh draw.
    pub(crate) fn step(&self, rng: &mut StdRng, old: TimeSignature) -> (new: TimeSignature)
        ensures
            (new == old && !self.chance().is_always()) || self.may_generate(new),
            self.chance().is_never() ==> new == old,
    {
        if self.num_mutation_probability.trial(rng) {
            self.generate(rng)
        } else {
            old
        }
    }
}

impl Default for ScaleParameters {
    /// A chance of change of one in ten.
    fn default() -> (p: ScaleParameters)
        ensures
            p.is_default(),
    {
        ScaleParameters { mutation_probability: one_in_ten() }
    }
}

impl ScaleParameters {
    /// A chance of change of one in ten.
    pub open spec fn is_default(&self) -> bool {
        &&& is_chance(self.chance(), 1, 10)
    }

    /// The chance that the scale is drawn again.
    pub closed spec fn chance(&self) -> Probability {
        self.mutation_probability
    }

    /// A scale of the family of the kind of key.
    pub(crate) fn generate(&self, rng: &mut StdRng, key_kind: KeyKind) -> (scale: Scale)
        ensures
            scale.family() == key_kind,
    {
        let count: u32 = match key_kind {
            KeyKind::Major => MAJOR_SCALE_COUNT as u32,
            KeyKind::Minor => MINOR_SCALE_COUNT as u32,
        };
        let idx: u8 = pick_below(rng, 0, count) as u8;
        Scale::new(key_kind, idx).unwrap()
    }

    /// Whether the scale belongs to the family of the kind of key.
    pub fn scale_valid(scale: Scale, key_kind: KeyKind) -> (valid: bool)
        ensures
            valid == (scale.family() == key_kind),
    {
        match key_kind {
            KeyKind::Major => match scale.family() {
                KeyKind::Major => true,
                KeyKind::Minor => false,
            },
            KeyKind::Minor => match scale.family() {
                KeyKind::Major => false,
                KeyKind::Minor => true,
            },
        }
    }

    /// The scale of the next phrase. A scale of the other family is always
    /// replaced; one of the right family stays unless the chance of change
    /// comes true.
    pub(crate) fn step(&self, rng: &mut StdRng, old: Scale, key_kind: KeyKind) -> (new: Scale)
        ensures
            new.family() == key_kind,
            self.chance().is_never() && old.family() == key_kind ==> new == old,
    {
        let valid: bool = ScaleParameters::scale_valid(old, key_kind);
        if !valid || self.mutation_probability.trial(rng) {
            self.generate(rng, key_kind)
        } else {
            old
        }
    }
}

impl Default for NumMeasuresParameters {
    /// Three to sixteen measures, drawn again with a chance of one in ten.
    fn default() -> (p: NumMeasuresParameters)
        ensures
            p.is_default(),
    {
        NumMeasuresParameters { min_measures: 3, max_measures: 16, mutation_probability: one_in_ten() }
    }
}

impl NumMeasuresParameters {
    /// Three to sixteen measures, drawn again with a chance of one in ten.
    pub open spec fn is_default(&self) -> bool {
        &&& self.min_measures() == 3
        &&& self.max_measures() == 16
        &&& is_chance(self.chance(), 1, 10)
    }

    /// A phrase has at least three measures, and the fewest are not more
    /// than the most.
    #[verifier::type_invariant]
    pub closed spec fn wf(&self) -> bool {
        3 <= self.min_measures <= self.max_measures
    }

    /// The fewest measures.
    pub closed spec fn min_measures(&self) -> u8 {
        self.min_measures
    }

    /// The most measures.
    pub closed spec fn max_measures(&self) -> u8 {
        self.max_measures
    }

    /// The chance that the number of measures is drawn again.
    pub closed spec fn chance(&self) -> Probability {
        self.mutation_probability
    }

    /// The most measures of the given signature: as many as fit on a
    /// timeline, but not more than the parameters allow.
    pub open spec fn most(&self, time_sig: TimeSignature) -> int {
        if time_sig.measures_limit() < self.max_measures() {
            time_sig.measures_limit()
        } else {
            self.max_measures() as int
        }
    }

    /// The fewest measures of the given signature: the fewest of the
    /// parameters, unless not even that many fit.
    pub open spec fn fewest(&self, time_sig: TimeSignature) -> int {
        if self.min_measures() < self.most(time_sig) {
            self.min_measures() as int
        } else {
            self.most(time_sig)
        }
    }

    /// The number of measures that stays where no new number is drawn: the
    /// old number, cut to the most of the signature.
    pub open spec fn kept(&self, old: u8, time_sig: TimeSignature) -> int {
        if old < self.most(time_sig) {
            old as int
        } else {
            self.most(time_sig)
        }
    }

    /// What a step may make of the number of measures `old`: the number
    /// that stays, or a number from the fewest to the most of the signature.
    pub open spec fn may_step_to(&self, old: u8, time_sig: TimeSignature, new: u8) -> bool {
        new == self.kept(old, time_sig) || self.fewest(time_sig) <= new <= self.most(time_sig)
    }

    /// The most measures of the given signature.
    pub fn max_meas(&self, time_sig: TimeSignature) -> (max: u8)
        ensures
            max == self.most(time_sig),
            3 <= max,
            max * time_sig.numerator() <= time_sig.denominator().beats_limit(),
    {
        proof {
            use_type_invariant(self);
        }
        let lim: u16 = time_sig.denominator().max_beats();
        let numerator: u16 = time_sig.numerator() as u16;
        let fit: u16 = lim / numerator;
        proof {
            lemma_measures_fit(lim as int, numerator as int);
        }
        let max: u16 = if fit < self.max_measures as u16 {
            fit
        } else {
            self.max_measures as u16
        };
        assert(max * numerator <= lim) by (nonlinear_arith)
            requires
                0 <= max <= fit,
                fit * numerator <= lim,
                numerator > 0,
        ;
        max as u8
    }

    /// A number of measures from the fewest to the most of the signature.
    pub(crate) fn generate(&self, rng: &mut StdRng, time_sig: TimeSignature) -> (measures: u8)
        ensures
            self.fewest(time_sig) <= measures <= self.most(time_sig),
            3 <= measures,
            measures * time_sig.numerator() <= time_sig.denominator().beats_limit(),
    {
        proof {
            use_type_invariant(self);
        }
        let max: u8 = self.max_meas(time_sig);
        let measures: u8 = pick_between(rng, self.min_measures as u32, max as u32) as u8;
        assert(measures * time_sig.numerator() <= time_sig.denominator().beats_limit())
            by (nonlinear_arith)
            requires
                0 <= measures <= max,
                max * time_sig.numerator() <= time_sig.denominator().beats_limit(),
                time_sig.numerator() >= 0,
        ;
        measures
    }

    /// The number of measures of the next phrase: with the chance of change
    /// a fresh draw, else the old number, cut to the most of the signature.
    pub(crate) fn step(&self, rng: &mut StdRng, old: u8, time_sig: TimeSignature) -> (measures: u8)
        requires
            3 <= old,
        ensures
            self.may_step_to(old, time_sig, measures),
            3 <= measures <= self.most(time_sig),
            measures * time_sig.numerator() <= time_sig.denominator().beats_limit(),
            self.chance().is_never() ==> measures == self.kept(old, time_sig),
            self.chance().is_always() ==> self.fewest(time_sig) <= measures,
    {
        proof {
            use_type_invariant(self);
        }
        let max: u8 = self.max_meas(time_sig);
        let measures: u8 = if self.mutation_probability.trial(rng) {
            pick_between(rng, self.min_measures as u32, max as u32) as u8
        } else {
            if old < max {
                old
            } else {
                max
            }
        };
        assert(measures * time_sig.numerator() <= time_sig.denominator().beats_limit())
            by (nonlinear_arith)
            requires
                0 <= measures <= max,
                max * time_sig.numerator() <= time_sig.denominator().beats_limit(),
                time_sig.numerator() >= 0,
        ;
        measures
    }
}

/// Where three measures fit on a timeline, the number of measures that fit
/// is at least three, and that many do fit.
proof fn lemma_measures_fit(lim: int, numerator: int)
    by (nonlinear_arith)
    requires
        1 <= numerator,
        3 * numerator <= lim,
    ensures
        3 <= lim / numerator,
        (lim / numerator) * numerator <= lim,
{
}

impl Default for ChordProgressionParameters {
    /// A chance of change of one in ten for each chord.
    fn default() -> (p: ChordProgressionParameters)
        ensures
            p.is_default(),
    {
        ChordProgressionParameters { mutation_probability: one_in_ten() }
    }
}

impl ChordProgressionParameters {
    /// A chance of change of one in ten for each chord.
    pub open spec fn is_default(&self) -> bool {
        &&& is_chance(self.chance(), 1, 10)
    }

    /// The chance that a chord is drawn again.
    pub closed spec fn chance(&self) -> Probability {
        self.mutation_probability
    }

    /// The chord before the last that a coin decides: the fourth degree for
    /// heads, the fifth for tails.
    pub fn cadence(heads: bool) -> (c: Chord)
        ensures
            c == if heads {
                Chord::IV
            } else {
                Chord::V
            },
    {
        if heads {
            Chord::IV
        } else {
            Chord::V
        }
    }

    /// A chord on any of the six degrees.
    fn any_chord(rng: &mut StdRng) -> Chord {
        let degree: u8 = pick_between(rng, 0, 5) as u8;
        Chord::from(degree)
    }

    /// The old chords, made as long as the phrase: cut at the end where
    /// they are too many, followed by chords on the first degree where they
    /// are too few.
    pub open spec fn resized(old: Seq<Chord>, num_meas: int) -> Seq<Chord> {
        Seq::new(
            num_meas as nat,
            |i: int|
                if i < old.len() {
                    old[i]
                } else {
                    Chord::I
                },
        )
    }

    /// Whether `new` is what stays of the chords `old` in a phrase of
    /// `num_meas` measures where no chord is drawn again by chance: the old
    /// chords, made as long as the phrase, up to the one before the last,
    /// and that one too where it stands on the fourth or the fifth degree.
    pub open spec fn kept(old: Seq<Chord>, num_meas: int, new: Seq<Chord>) -> bool {
        let resized = ChordProgressionParameters::resized(old, num_meas);
        &&& forall|i: int| 0 <= i < num_meas - 2 ==> #[trigger] new[i] == resized[i]
        &&& (resized[num_meas - 2] == Chord::IV || resized[num_meas - 2] == Chord::V)
            ==> new[num_meas - 2] == resized[num_meas - 2]
    }

    /// Chords for a phrase of `num_meas` measures: the first degree at both
    /// ends, the fourth or the fifth before the last, any degree between.
    pub(crate) fn generate(&self, rng: &mut StdRng, num_meas: u8) -> (progression: ChordProgression)
        requires
            num_meas >= 3,
        ensures
            progression@.len() == num_meas,
            is_progression(progression@),
    {
        let mut new: Vec<Chord> = Vec::new();
        new.push(Chord::I);
        let mut i: u8 = 0;
        while i < num_meas - 3
            invariant
                num_meas >= 3,
                i <= num_meas - 3,
                new@.len() == i + 1,
                new@[0] == Chord::I,
            decreases num_meas - 3 - i,
        {
            new.push(ChordProgressionParameters::any_chord(rng));
            i += 1;
        }
        new.push(ChordProgressionParameters::cadence(coin(rng)));
        new.push(Chord::I);
        ChordProgression::new(new).unwrap()
    }

    /// The chords of the next phrase of `num_meas` measures. The old chords
    /// are made as long as the phrase. Each chord between the first and the
    /// one before the last is drawn again with the chance of change. The one
    /// before the last is drawn again with that chance too, and in any case
    /// where it does not stand on the fourth or the fifth degree. The last
    /// chord stands on the first degree.
    pub(crate) fn step(&self, rng: &mut StdRng, old: ChordProgression, num_meas: u8) -> (progression:
        ChordProgression)
        requires
            num_meas >= 3,
        ensures
            progression@.len() == num_meas,
            is_progression(progression@),
            self.chance().is_never() ==> ChordProgressionParameters::kept(
                old@,
                num_meas as int,
                progression@,
            ),
    {
        let n: usize = num_meas as usize;
        let mut chords: Vec<Chord> = old.chords();
        let ghost resized = ChordProgressionParameters::resized(old@, num_meas as int);
        chords.truncate(n);
        while chords.len() < n
            invariant
                n == num_meas,
                chords@.len() <= n,
                forall|i: int| 0 <= i < chords@.len() ==> #[trigger] chords@[i] == resized[i],
                resized == ChordProgressionParameters::resized(old@, num_meas as int),
                resized.len() == n,
                chords@.len() >= old@.len() || chords@.len() == n,
            decreases n - chords@.len(),
        {
            chords.push(Chord::I);
        }
        assert(chords@ == resized);
        let mut i: usize = 1;
        while i < n - 2
            invariant
                3 <= n == num_meas,
                1 <= i <= n - 2,
                chords@.len() == n,
                resized.len() == n,
                chords@[0] == resized[0],
                self.chance().is_never() ==> chords@ == resized,
                forall|j: int| i <= j < n ==> #[trigger] chords@[j] == resized[j],
            decreases n - 2 - i,
        {
            if self.mutation_probability.trial(rng) {
                chords[i] = ChordProgressionParameters::any_chord(rng);
            }
            i += 1;
        }
        let sec: u8 = chords[n - 2].to_degree();
        let good: bool = sec == 3 || sec == 4;
        if !good || self.mutation_probability.trial(rng) {
            chords[n - 2] = ChordProgressionParameters::cadence(coin(rng));
        }
        chords[n - 1] = Chord::I;
        proof {
            use_type_invariant(&old);
            assert(resized[0] == Chord::I);
        }
        ChordProgression::new(chords).unwrap()
    }
}

impl Default for KeyParameters {
    /// A chance of change of one in ten.
    fn default() -> (p: KeyParameters)
        ensures
            p.is_default(),
    {
        KeyParameters { mutation_probability: one_in_ten() }
    }
}

impl KeyParameters {
    /// A chance of change of one in ten.
    pub open spec fn is_default(&self) -> bool {
        &&& is_chance(self.chance(), 1, 10)
    }

    /// The chance that the key is drawn again.
    pub closed spec fn chance(&self) -> Probability {
        self.mutation_probability
    }

    /// Any of the twelve pitches.
    pub(crate) fn generate(&self, rng: &mut StdRng) -> Pitch {
        let val: u8 = pick_below(rng, 0, PITCHES_PER_OCTAVE as u32) as u8;
        Pitch::from(val)
    }

    /// The key of the next phrase: the old one, or with the chance of change
    /// a fresh draw.
    pub(crate) fn step(&self, rng: &mut StdRng, old: Pitch) -> (new: Pitch)
        ensures
            self.chance().is_never() ==> new == old,
    {
        if self.mutation_probability.trial(rng) {
            self.generate(rng)
        } else {
            old
        }
    }
}

impl Default for VoicesParameters {
    /// Two or three lead voices and two or three chorus voices, at most
    /// eight voices in all, each number drawn again with a chance of one in
    /// ten.
    fn default() -> (p: VoicesParameters)
        ensures
            p.is_default(),
    {
        VoicesParameters {
            lead_voices_min: 2,
            lead_voices_max: 4,
            chorus_voices_min: 2,
            chorus_voices_max: 4,
            total_voices_max: 8,
            lead_voices_mutation_probability: one_in_ten(),
            chorus_voices_mutation_probability: one_in_ten(),
        }
    }
}

impl VoicesParameters {
    /// Two or three lead voices and two or three chorus voices, at most
    /// eight in all, each number drawn again with a chance of one in ten.
    pub open spec fn is_default(&self) -> bool {
        &&& self.lead_voices_min() == 2
        &&& self.lead_voices_max() == 4
        &&& self.chorus_voices_min() == 2
        &&& self.chorus_voices_max() == 4
        &&& self.total_voices_max() == 8
        &&& is_chance(self.lead_chance(), 1, 10)
        &&& is_chance(self.chorus_chance(), 1, 10)
    }

    /// The chorus alone never has more voices than there may be in all.
    #[verifier::type_invariant]
    pub closed spec fn wf(&self) -> bool {
        self.chorus_voices_max <= self.total_voices_max
    }

    /// The most voices in all.
    pub closed spec fn total_voices_max(&self) -> u8 {
        self.total_voices_max
    }

    /// The fewest lead voices.
    pub closed spec fn lead_voices_min(&self) -> u8 {
        self.lead_voices_min
    }

    /// The bound that the number of lead voices stays below.
    pub closed spec fn lead_voices_max(&self) -> u8 {
        self.lead_voices_max
    }

    /// The fewest chorus voices.
    pub closed spec fn chorus_voices_min(&self) -> u8 {
        self.chorus_voices_min
    }

    /// The bound that the number of chorus voices stays below.
    pub closed spec fn chorus_voices_max(&self) -> u8 {
        self.chorus_voices_max
    }

    /// The chance that the number of lead voices is drawn again.
    pub closed spec fn lead_chance(&self) -> Probability {
        self.lead_voices_mutation_probability
    }

    /// The chance that the number of chorus voices is drawn again.
    pub closed spec fn chorus_chance(&self) -> Probability {
        self.chorus_voices_mutation_probability
    }

    /// Whether `chorus` is a number of chorus voices that these parameters
    /// draw: from the fewest up to but not including the bound, and the
    /// lower of the two where there is no such number.
    pub open spec fn may_draw_chorus(&self, chorus: u8) -> bool {
        if self.chorus_voices_min() < self.chorus_voices_max() {
            self.chorus_voices_min() <= chorus < self.chorus_voices_max()
        } else {
            chorus == self.chorus_voices_max()
        }
    }

    /// The bound that the number of lead voices stays below beside `chorus`
    /// chorus voices.
    pub open spec fn lead_bound(&self, chorus: u8) -> int {
        let room = self.total_voices_max() - chorus;
        if room < self.lead_voices_max() {
            room
        } else {
            self.lead_voices_max() as int
        }
    }

    /// Whether `leads` is a number of lead voices that these parameters draw
    /// beside `chorus` chorus voices.
    pub open spec fn may_draw_leads(&self, leads: u8, chorus: u8) -> bool {
        if self.lead_voices_min() < self.lead_bound(chorus) {
            self.lead_voices_min() <= leads < self.lead_bound(chorus)
        } else {
            leads == self.lead_bound(chorus)
        }
    }

    /// The number of chorus voices that stays where no new number is drawn:
    /// the old number, cut to the most voices in all.
    pub open spec fn kept_chorus(&self, old_chorus: u8) -> int {
        if old_chorus < self.total_voices_max() {
            old_chorus as int
        } else {
            self.total_voices_max() as int
        }
    }

    /// The number of lead voices that stays beside `chorus` chorus voices
    /// where no new number is drawn: the old number, cut to the room that
    /// the chorus leaves.
    pub open spec fn kept_leads(&self, old_lead: u8, chorus: u8) -> int {
        if old_lead < self.total_voices_max() - chorus {
            old_lead as int
        } else {
            self.total_voices_max() - chorus
        }
    }

    /// What a step may make of `old_lead` lead voices and `old_chorus`
    /// chorus voices: each number stays, cut to its room, or is drawn again,
    /// the chorus first.
    pub open spec fn may_step_to(&self, old_lead: u8, old_chorus: u8, new: (u8, u8)) -> bool {
        &&& new.1 == self.kept_chorus(old_chorus) || self.may_draw_chorus(new.1)
        &&& new.0 == self.kept_leads(old_lead, new.1) || self.may_draw_leads(new.0, new.1)
    }

    /// A number of chorus voices.
    fn gen_chorus(&self, rng: &mut StdRng) -> (chorus: u8)
        ensures
            self.may_draw_chorus(chorus),
            chorus <= self.total_voices_max(),
    {
        proof {
            use_type_invariant(self);
        }
        pick_below(rng, self.chorus_voices_min as u32, self.chorus_voices_max as u32) as u8
    }

    /// A number of lead voices that leaves room for `chorus` chorus voices.
    fn gen_leads(&self, rng: &mut StdRng, chorus: u8) -> (leads: u8)
        requires
            chorus <= self.total_voices_max(),
        ensures
            self.may_draw_leads(leads, chorus),
            leads + chorus <= self.total_voices_max(),
    {
        let room: u8 = self.total_voices_max - chorus;
        let leads_max: u8 = if room < self.lead_voices_max {
            room
        } else {
            self.lead_voices_max
        };
        pick_below(rng, self.lead_voices_min as u32, leads_max as u32) as u8
    }

    /// The numbers of lead and chorus voices, in this order: the chorus is
    /// drawn first, the leads into the room that it leaves.
    pub(crate) fn generate(&self, rng: &mut StdRng) -> (voices: (u8, u8))
        ensures
            self.may_draw_chorus(voices.1),
            self.may_draw_leads(voices.0, voices.1),
            voices.0 + voices.1 <= self.total_voices_max(),
    {
        let chorus: u8 = self.gen_chorus(rng);
        let leads: u8 = self.gen_leads(rng, chorus);
        (leads, chorus)
    }

    /// The number of lead voices that stays beside `chorus` chorus voices
    /// where no new number is drawn: the old number, cut to the room that
    /// the chorus leaves.
    pub fn settle_leads(&self, old_lead: u8, chorus: u8) -> (leads: u8)
        requires
            chorus <= self.total_voices_max(),
        ensures
            leads == self.kept_leads(old_lead, chorus),
    {
        let room: u8 = self.total_voices_max - chorus;
        if old_lead < room {
            old_lead
        } else {
            room
        }
    }

    /// The numbers of lead and chorus voices of the next phrase. Each is
    /// drawn again with its own chance of change. The chorus that stays is
    /// cut to the most voices in all, and the leads that stay to the room
    /// that the chorus leaves.
    pub(crate) fn step(&self, rng: &mut StdRng, old_lead: u8, old_chorus: u8) -> (voices: (u8, u8))
        ensures
            self.may_step_to(old_lead, old_chorus, voices),
            voices.0 + voices.1 <= self.total_voices_max(),
            self.chorus_chance().is_never() ==> voices.1 == self.kept_chorus(old_chorus),
            self.lead_chance().is_never() ==> voices.0 == self.kept_leads(old_lead, voices.1),
            self.chorus_chance().is_always() ==> self.may_draw_chorus(voices.1),
            self.lead_chance().is_always() ==> self.may_draw_leads(voices.0, voices.1),
    {
        let chorus: u8 = if self.chorus_voices_mutation_probability.trial(rng) {
            self.gen_chorus(rng)
        } else if old_chorus < self.total_voices_max {
            old_chorus
        } else {
            self.total_voices_max
        };
        let leads: u8 = if self.lead_voices_mutation_probability.trial(rng) {
            self.gen_leads(rng, chorus)
        } else {
            self.settle_leads(old_lead, chorus)
        };
        (leads, chorus)
    }
}

} // verus!
