//! The rhythm of a voice: a resolution, a Euclidean pattern, and the notes
//! that the pattern gives when it is laid over the phrase.
//!
//! The phrase is cut into steps of the resolution. The pattern is taken
//! round and round over the steps, and each step that falls on a hit becomes
//! a note of the length of one step.

use vstd::prelude::*;
use rand::rngs::StdRng;
use crate::encoding::EncLength;
use crate::encoding::EncStart;
use crate::euc::slot_is_hit;
use crate::euc::Euc32;
use crate::euc::Euc32Cycler;
use crate::phrdat::builder::PhraseDataHeader;
use crate::phrdat::params::is_chance;
use crate::phrdat::params::one_in_ten;
use crate::phrdat::EncRhythm;
use crate::ppqn::Length;
use crate::ppqn::PPQN_MAX;
use crate::random::pick_below;
use crate::random::pick_between;
use crate::random::Probability;
use crate::tones::ToneKind;

verus! {

/// How the Euclidean pattern of a voice is drawn and changed.
#[derive(Debug)]
pub struct EuclideanGenerationParameters {
    min_beats: u8,
    max_beats: u8,
    beats_mutation_probability: Probability,
    min_length: u8,
    max_length: u8,
    length_mutation_probability: Probability,
}

/// How the resolution of a voice is drawn and changed.
#[derive(Debug)]
pub struct VoiceResolutionParameters {
    resolution_choices: Vec<Length>,
    mutation_percentage: Probability,
}

/// The resolutions of a lead voice.
#[derive(Debug)]
pub struct LeadVoiceResolutionParameters(VoiceResolutionParameters);

/// The resolutions of a chorus voice.
#[derive(Debug)]
pub struct ChorusVoiceResolutionParameters(VoiceResolutionParameters);

/// The parameters of a lead voice.
#[derive(Debug)]
pub struct LeadVoiceDataParameters {
    resolution: LeadVoiceResolutionParameters,
    euc: EuclideanGenerationParameters,
}

/// The parameters of a chorus voice.
#[derive(Debug)]
pub struct ChorusVoiceDataParameters {
    resolution: ChorusVoiceResolutionParameters,
    euc: EuclideanGenerationParameters,
}

/// A lead voice of a phrase.
#[derive(Debug)]
pub struct LeadVoiceDataBuilder {
    resolution: Option<Length>,
    euc: Option<(u8, u8)>,
    /// The notes of the voice, in the order of their start.
    pub rhythm: Vec<EncRhythm>,
    voice: Option<ToneKind>,
    refrain_measures: Vec<bool>,
}

/// A chorus voice of a phrase.
#[derive(Debug)]
pub struct ChorusVoiceDataBuilder {
    resolution: Option<Length>,
    euc: Option<(u8, u8)>,
    /// The notes of the voice, in the order of their start.
    pub rhythm: Vec<EncRhythm>,
    voice: Option<ToneKind>,
    refrain_measures: Vec<bool>,
}

/// A rhythm as pairs of start and length, in ticks.
pub open spec fn rhythm_view(rhythm: Seq<EncRhythm>) -> Seq<(int, int)> {
    Seq::new(rhythm.len(), |i: int| (rhythm[i].ppqn_start() as int, rhythm[i].ppqn_len() as int))
}

/// The notes that the pattern of `hits` hits over `length` slots gives on
/// the first `steps` steps of `res` ticks each: one note of one step for
/// each step that falls on a hit, the pattern taken round and round. A
/// pattern of no slots gives no notes.
pub open spec fn rhythm_upto(res: int, hits: int, length: int, steps: nat) -> Seq<(int, int)>
    decreases steps,
{
    if steps == 0 {
        Seq::empty()
    } else {
        let before = rhythm_upto(res, hits, length, (steps - 1) as nat);
        if length > 0 && slot_is_hit(hits, length, (steps - 1) % length) {
            before.push(((steps - 1) * res, res))
        } else {
            before
        }
    }
}

/// Whether `pattern` is a pattern that can be built: no more hits than
/// slots, and no more than thirty-two slots.
pub open spec fn pattern_wf(pattern: Option<(u8, u8)>) -> bool {
    pattern matches Some((beats, length)) ==> beats <= length <= 32
}

/// The notes of a rhythm over `steps` steps of `res` ticks start one after
/// the other, each lasts one step, and none ends after the last step.
pub proof fn lemma_rhythm_in_phrase(res: int, hits: int, length: int, steps: nat)
    requires
        res > 0,
    ensures
        rhythm_upto(res, hits, length, steps).len() <= steps,
        forall|j: int|
            0 <= j < rhythm_upto(res, hits, length, steps).len() ==> {
                &&& (#[trigger] rhythm_upto(res, hits, length, steps)[j]).1 == res
                &&& 0 <= rhythm_upto(res, hits, length, steps)[j].0
                &&& rhythm_upto(res, hits, length, steps)[j].0 + res <= steps * res
            },
        forall|j: int, k: int|
            0 <= j < k < rhythm_upto(res, hits, length, steps).len() ==> (#[trigger] rhythm_upto(
                res,
                hits,
                length,
                steps,
            )[j]).0 < (#[trigger] rhythm_upto(res, hits, length, steps)[k]).0,
    decreases steps,
{
    if steps > 0 {
        lemma_rhythm_in_phrase(res, hits, length, (steps - 1) as nat);
        assert((steps - 1) * res + res == steps * res) by (nonlinear_arith);
        assert(0 <= (steps - 1) * res) by (nonlinear_arith)
            requires
                steps >= 1,
                res > 0,
        ;
    }
}

impl Default for EuclideanGenerationParameters {
    /// Up to thirty-two hits over three to thirty-two slots, each drawn
    /// again with a chance of one in ten.
    fn default() -> (p: EuclideanGenerationParameters)
        ensures
            p.is_default(),
    {
        EuclideanGenerationParameters {
            min_beats: 0,
            max_beats: 32,
            beats_mutation_probability: one_in_ten(),
            min_length: 3,
            max_length: 32,
            length_mutation_probability: one_in_ten(),
        }
    }
}

impl EuclideanGenerationParameters {
    /// Up to thirty-two hits over three to thirty-two slots, each drawn
    /// again with a chance of one in ten.
    pub open spec fn is_default(&self) -> bool {
        &&& self.min_beats() == 0
        &&& self.max_beats() == 32
        &&& self.min_length() == 3
        &&& self.max_length() == 32
        &&& is_chance(self.beats_chance(), 1, 10)
        &&& is_chance(self.length_chance(), 1, 10)
    }

    /// A pattern has at least one and at most thirty-two slots.
    #[verifier::type_invariant]
    pub closed spec fn wf(&self) -> bool {
        1 <= self.max_length <= 32
    }

    /// The chance that the number of hits is drawn again.
    pub closed spec fn beats_chance(&self) -> Probability {
        self.beats_mutation_probability
    }

    /// The chance that the number of slots is drawn again.
    pub closed spec fn length_chance(&self) -> Probability {
        self.length_mutation_probability
    }

    /// The fewest hits.
    pub closed spec fn min_beats(&self) -> u8 {
        self.min_beats
    }

    /// The most hits.
    pub closed spec fn max_beats(&self) -> u8 {
        self.max_beats
    }

    /// The fewest slots.
    pub closed spec fn min_length(&self) -> u8 {
        self.min_length
    }

    /// The most slots.
    pub closed spec fn max_length(&self) -> u8 {
        self.max_length
    }

    /// The most slots of a pattern on a phrase of `max_len` steps.
    pub open spec fn most_slots(&self, max_len: u8) -> u8 {
        if self.max_length() < max_len {
            self.max_length()
        } else {
            max_len
        }
    }

    /// The most hits of a pattern of `length` slots: the most of the
    /// parameters, but no more than there are slots.
    pub open spec fn most_hits(&self, length: u8) -> u8 {
        if self.max_beats() < length {
            self.max_beats()
        } else {
            length
        }
    }

    /// Whether `pattern`, as hits and slots, is one that these parameters
    /// draw for a phrase of `max_len` steps. The slots run from the fewest
    /// to the most, but no pattern is longer than the phrase; the hits run
    /// from the fewest to the most, but no pattern has more hits than
    /// slots. A lower bound that lies above its upper bound gives way: the
    /// number is then the upper bound.
    pub open spec fn may_generate(&self, pattern: (u8, u8), max_len: u8) -> bool {
        let (beats, length) = pattern;
        &&& length <= self.most_slots(max_len)
        &&& self.min_length() <= self.most_slots(max_len) ==> self.min_length() <= length
        &&& self.min_length() > self.most_slots(max_len) ==> length == self.most_slots(max_len)
        &&& beats <= self.most_hits(length)
        &&& self.min_beats() <= self.most_hits(length) ==> self.min_beats() <= beats
        &&& self.min_beats() > self.most_hits(length) ==> beats == self.most_hits(length)
    }

    /// New numbers of hits and slots, in this order, for a phrase of
    /// `max_len` steps.
    pub(crate) fn generate(&self, rng: &mut StdRng, max_len: u8) -> (pattern: (u8, u8))
        ensures
            self.may_generate(pattern, max_len),
            pattern.0 <= pattern.1 <= 32,
            pattern.1 <= max_len,
    {
        proof {
            use_type_invariant(self);
        }
        let max_length: u8 = if self.max_length < max_len {
            self.max_length
        } else {
            max_len
        };
        let length: u8 = pick_between(rng, self.min_length as u32, max_length as u32) as u8;
        let max_beats: u8 = if self.max_beats < length {
            self.max_beats
        } else {
            length
        };
        let beats: u8 = pick_between(rng, self.min_beats as u32, max_beats as u32) as u8;
        (beats, length)
    }

    /// The numbers of hits and slots of the next phrase of `max_len` steps,
    /// behind a flag that says whether they were drawn again. They are
    /// drawn again where the old pattern is longer than the phrase, and
    /// where either of the two chances of change comes true.
    pub(crate) fn step(&self, rng: &mut StdRng, max_len: u8, old_beats: u8, old_length: u8) -> (r: (
        bool,
        u8,
        u8,
    ))
        requires
            old_beats <= old_length <= 32,
        ensures
            r.0 ==> self.may_generate((r.1, r.2), max_len),
            !r.0 ==> r.1 == old_beats && r.2 == old_length && old_length <= max_len,
            r.1 <= r.2 <= 32,
            r.2 <= max_len,
            self.beats_chance().is_never() && self.length_chance().is_never() && old_length
                <= max_len ==> !r.0,
            self.beats_chance().is_always() || self.length_chance().is_always() || old_length
                > max_len ==> r.0,
    {
        let trunc_len: bool = max_len < old_length;
        let new_length: bool = self.length_mutation_probability.trial(rng);
        let new_beats: bool = self.beats_mutation_probability.trial(rng);
        if !(trunc_len || new_length || new_beats) {
            (false, old_beats, old_length)
        } else {
            let (beats, len) = self.generate(rng, max_len);
            (true, beats, len)
        }
    }
}

impl VoiceResolutionParameters {
    /// There is a resolution to choose, and each lasts at least one tick.
    #[verifier::type_invariant]
    pub closed spec fn wf(&self) -> bool {
        &&& 0 < self.resolution_choices@.len() <= u32::MAX
        &&& forall|i: int|
            0 <= i < self.resolution_choices@.len() ==> (
            #[trigger] self.resolution_choices@[i]).ticks() > 0
    }

    /// The resolutions to choose from.
    pub closed spec fn choices(&self) -> Seq<Length> {
        self.resolution_choices@
    }

    /// The chance that the resolution is drawn again.
    pub closed spec fn chance(&self) -> Probability {
        self.mutation_percentage
    }

    /// These resolutions with this chance of change, where there is a
    /// resolution and each lasts at least one tick.
    pub fn new(resolution_choices: Vec<Length>, mutation_percentage: Probability) -> (r: Option<
        VoiceResolutionParameters,
    >)
        ensures
            r is Some ==> r->Some_0.choices() == resolution_choices@ && r->Some_0.chance()
                == mutation_percentage,
            r is None <==> resolution_choices@.len() == 0 || resolution_choices@.len() > u32::MAX
                || exists|i: int|
                0 <= i < resolution_choices@.len() && (#[trigger] resolution_choices@[i]).ticks()
                    == 0,
    {
        if resolution_choices.len() == 0 || resolution_choices.len() > u32::MAX as usize {
            return None;
        }
        let mut i: usize = 0;
        while i < resolution_choices.len()
            invariant
                i <= resolution_choices@.len(),
                forall|j: int| 0 <= j < i ==> (#[trigger] resolution_choices@[j]).ticks() > 0,
            decreases resolution_choices@.len() - i,
        {
            if resolution_choices[i].to_ppqn() == 0 {
                return None;
            }
            i += 1;
        }
        Some(VoiceResolutionParameters { resolution_choices, mutation_percentage })
    }

    /// One of the resolutions.
    pub(crate) fn generate(&self, rng: &mut StdRng) -> (length: Length)
        ensures
            self.choices().contains(length),
            length.ticks() > 0,
    {
        proof {
            use_type_invariant(self);
        }
        let idx: usize = pick_below(rng, 0, self.resolution_choices.len() as u32) as usize;
        self.resolution_choices[idx]
    }

    /// The resolution of the next phrase, behind a flag that says whether
    /// it differs from the old one: the old one, or with the chance of
    /// change a fresh draw.
    pub(crate) fn step(&self, rng: &mut StdRng, old: Length) -> (r: (bool, Length))
        ensures
            r.0 == (r.1 != old),
            r.1 == old || self.choices().contains(r.1),
            old.ticks() > 0 ==> r.1.ticks() > 0,
            self.chance().is_never() ==> r.1 == old,
            self.chance().is_always() ==> self.choices().contains(r.1),
    {
        if self.mutation_percentage.trial(rng) {
            let length: Length = self.generate(rng);
            (old != length, length)
        } else {
            (false, old)
        }
    }
}

impl Default for LeadVoiceResolutionParameters {
    /// Triplet eighths, triplet quarters, eighths and quarters, changing
    /// with a chance of one in ten.
    fn default() -> (p: LeadVoiceResolutionParameters)
        ensures
            p.is_default(),
    {
        let choices: Vec<Length> = vec![
            Length::TripletEighth,
            Length::TripletQuarter,
            Length::Eighth,
            Length::Quarter,
        ];
        LeadVoiceResolutionParameters(VoiceResolutionParameters::new(choices, one_in_ten()).unwrap())
    }
}

impl Default for ChorusVoiceResolutionParameters {
    /// Triplet halves, halves and wholes, changing with a chance of one in
    /// ten.
    fn default() -> (p: ChorusVoiceResolutionParameters)
        ensures
            p.is_default(),
    {
        let choices: Vec<Length> = vec![Length::TripletHalf, Length::Half, Length::Whole];
        ChorusVoiceResolutionParameters(
            VoiceResolutionParameters::new(choices, one_in_ten()).unwrap(),
        )
    }
}

impl ChorusVoiceResolutionParameters {
    /// Triplet halves, halves and wholes, changing with a chance of one in
    /// ten.
    pub open spec fn is_default(&self) -> bool {
        &&& self.inner().choices() == seq![Length::TripletHalf, Length::Half, Length::Whole]
        &&& is_chance(self.inner().chance(), 1, 10)
    }

    /// The resolutions and their chance of change.
    pub closed spec fn inner(&self) -> VoiceResolutionParameters {
        self.0
    }
}

impl LeadVoiceResolutionParameters {
    /// Triplet eighths, triplet quarters, eighths and quarters, changing
    /// with a chance of one in ten.
    pub open spec fn is_default(&self) -> bool {
        &&& self.inner().choices() == seq![
            Length::TripletEighth,
            Length::TripletQuarter,
            Length::Eighth,
            Length::Quarter,
        ]
        &&& is_chance(self.inner().chance(), 1, 10)
    }

    /// The resolutions and their chance of change.
    pub closed spec fn inner(&self) -> VoiceResolutionParameters {
        self.0
    }
}

impl Default for LeadVoiceDataParameters {
    /// The resolutions of a lead voice, with four to eight hits over eight
    /// to sixteen slots.
    fn default() -> (p: LeadVoiceDataParameters)
        ensures
            p.is_default(),
    {
        LeadVoiceDataParameters {
            resolution: LeadVoiceResolutionParameters::default(),
            euc: EuclideanGenerationParameters {
                min_beats: 4,
                max_beats: 8,
                beats_mutation_probability: one_in_ten(),
                min_length: 8,
                max_length: 16,
                length_mutation_probability: one_in_ten(),
            },
        }
    }
}

impl Default for ChorusVoiceDataParameters {
    /// The resolutions of a chorus voice, with eight to sixteen hits over
    /// eight to sixteen slots.
    fn default() -> (p: ChorusVoiceDataParameters)
        ensures
            p.is_default(),
    {
        ChorusVoiceDataParameters {
            resolution: ChorusVoiceResolutionParameters::default(),
            euc: EuclideanGenerationParameters {
                min_beats: 8,
                max_beats: 16,
                beats_mutation_probability: one_in_ten(),
                min_length: 8,
                max_length: 16,
                length_mutation_probability: one_in_ten(),
            },
        }
    }
}

impl LeadVoiceDataParameters {
    /// The resolutions of a lead voice, with four to eight hits over eight
    /// to sixteen slots.
    pub open spec fn is_default(&self) -> bool {
        &&& self.resolution().choices() == seq![
            Length::TripletEighth,
            Length::TripletQuarter,
            Length::Eighth,
            Length::Quarter,
        ]
        &&& is_chance(self.resolution().chance(), 1, 10)
        &&& self.euc().min_beats() == 4
        &&& self.euc().max_beats() == 8
        &&& self.euc().min_length() == 8
        &&& self.euc().max_length() == 16
        &&& is_chance(self.euc().beats_chance(), 1, 10)
        &&& is_chance(self.euc().length_chance(), 1, 10)
    }

    /// How the resolution is drawn and changed.
    pub closed spec fn resolution(&self) -> VoiceResolutionParameters {
        self.resolution.inner()
    }

    /// How the pattern is drawn and changed.
    pub closed spec fn euc(&self) -> EuclideanGenerationParameters {
        self.euc
    }
}

impl ChorusVoiceDataParameters {
    /// The resolutions of a chorus voice, with eight to sixteen hits over
    /// eight to sixteen slots.
    pub open spec fn is_default(&self) -> bool {
        &&& self.resolution().choices() == seq![Length::TripletHalf, Length::Half, Length::Whole]
        &&& is_chance(self.resolution().chance(), 1, 10)
        &&& self.euc().min_beats() == 8
        &&& self.euc().max_beats() == 16
        &&& self.euc().min_length() == 8
        &&& self.euc().max_length() == 16
        &&& is_chance(self.euc().beats_chance(), 1, 10)
        &&& is_chance(self.euc().length_chance(), 1, 10)
    }

    /// How the resolution is drawn and changed.
    pub closed spec fn resolution(&self) -> VoiceResolutionParameters {
        self.resolution.inner()
    }

    /// How the pattern is drawn and changed.
    pub closed spec fn euc(&self) -> EuclideanGenerationParameters {
        self.euc
    }
}

/// The steps of a phrase as far as a pattern can be long: up to 255.
pub open spec fn steps_cap(steps: int) -> u8 {
    if steps < 255 {
        steps as u8
    } else {
        255
    }
}

/// A pattern drawn for a phrase of at least one step, by parameters that ask
/// for at least one slot and allow one, has at least one slot, no more slots
/// than the phrase has steps, and no more hits than slots.
pub proof fn lemma_pattern_has_slots(
    patterns: EuclideanGenerationParameters,
    pattern: (u8, u8),
    max_len: u8,
)
    requires
        patterns.may_generate(pattern, max_len),
        1 <= patterns.min_length(),
        1 <= patterns.max_length(),
        1 <= max_len,
    ensures
        1 <= pattern.1 <= max_len,
        pattern.1 <= patterns.max_length(),
        pattern.0 <= pattern.1,
{
}

/// Whether the pattern of a voice is drawn for certain when the voice is
/// filled for a phrase of `steps` steps: there is no old pattern, the old
/// one is longer than the phrase, or one of its chances of change is all.
pub open spec fn pattern_is_drawn(
    patterns: EuclideanGenerationParameters,
    old_pattern: Option<(u8, u8)>,
    steps: u8,
) -> bool {
    ||| old_pattern is None
    ||| old_pattern->Some_0.1 > steps
    ||| patterns.beats_chance().is_always()
    ||| patterns.length_chance().is_always()
}

/// Whether a voice with the given settings and rhythm has come out of
/// filling a voice with the settings `old_resolution` and `old_pattern` and
/// the rhythm `old_rhythm`, for a phrase of `total` ticks.
///
/// The resolution is one of the choices, or the old one; it is one of the
/// choices where there was none and where its chance of change is all. The
/// pattern can be built and is no longer than the phrase has steps; it is
/// the old one or one that the parameters draw. It is drawn, and the rhythm
/// built from it, where there was none, where a chance of change of the
/// pattern is all, and where the old pattern is longer than the phrase.
/// Either nothing has changed, or the rhythm is the one that the pattern
/// gives on the steps of the phrase. Where all chances of change are none,
/// a voice whose pattern is no longer than the phrase stays as it is.
pub open spec fn voice_filled(
    resolutions: VoiceResolutionParameters,
    patterns: EuclideanGenerationParameters,
    total: int,
    old_resolution: Option<Length>,
    old_pattern: Option<(u8, u8)>,
    old_rhythm: Seq<EncRhythm>,
    resolution: Option<Length>,
    pattern: Option<(u8, u8)>,
    rhythm: Seq<EncRhythm>,
) -> bool {
    &&& resolution matches Some(res)
    &&& pattern matches Some((beats, length))
    &&& res.ticks() > 0
    &&& resolutions.choices().contains(res) || old_resolution == Some(res)
    &&& beats <= length <= 32
    &&& length <= total / res.ticks()
    &&& (old_resolution is None || resolutions.chance().is_always())
        ==> resolutions.choices().contains(res)
    &&& pattern == old_pattern || patterns.may_generate(
        (beats, length),
        steps_cap(total / res.ticks()),
    )
    &&& pattern_is_drawn(patterns, old_pattern, steps_cap(total / res.ticks())) ==> {
        &&& patterns.may_generate((beats, length), steps_cap(total / res.ticks()))
        &&& rhythm_view(rhythm) == rhythm_upto(
            res.ticks(),
            beats as int,
            length as int,
            (total / res.ticks()) as nat,
        )
    }
    &&& {
        ||| (resolution == old_resolution && pattern == old_pattern && rhythm == old_rhythm)
        ||| rhythm_view(rhythm) == rhythm_upto(
            res.ticks(),
            beats as int,
            length as int,
            (total / res.ticks()) as nat,
        )
    }
    &&& (old_resolution is None || old_pattern is None) ==> rhythm_view(rhythm) == rhythm_upto(
        res.ticks(),
        beats as int,
        length as int,
        (total / res.ticks()) as nat,
    )
    &&& (resolutions.chance().is_never() && patterns.beats_chance().is_never()
        && patterns.length_chance().is_never() && old_resolution is Some && old_pattern is Some
        && old_pattern->Some_0.1 <= total / old_resolution->Some_0.ticks()) ==> (resolution
        == old_resolution && pattern == old_pattern && rhythm == old_rhythm)
}

/// The rhythm that the pattern of `beats` hits over `length` slots gives on
/// `steps` steps of `res` ticks each.
fn build_rhythm(res: u16, beats: u8, length: u8, steps: u16) -> (rhythm: Vec<EncRhythm>)
    requires
        0 < res,
        steps * res <= PPQN_MAX,
        beats <= length <= 32,
    ensures
        rhythm_view(rhythm@) == rhythm_upto(res as int, beats as int, length as int, steps as nat),
{
    let mut rhythm: Vec<EncRhythm> = Vec::new();
    let ghost r = res as int;
    let ghost b = beats as int;
    let ghost l = length as int;
    assert(rhythm_view(rhythm@) == rhythm_upto(r, b, l, 0));
    let mut walk: Euc32Cycler = match Euc32::new(beats as u32, length as u32) {
        Some(euc) => euc.cycler(),
        None => {
            proof {
                lemma_no_slots_no_notes(r, b, steps as nat);
            }
            return rhythm;
        },
    };
    let mut i: u16 = 0;
    while i < steps
        invariant
            i <= steps,
            0 < res,
            r == res,
            b == beats,
            l == length,
            steps * res <= PPQN_MAX,
            0 < length <= 32,
            walk.wf(),
            walk.pattern() == Seq::new(length as nat, |k: int| slot_is_hit(b, l, k)),
            walk.position() == i % (length as u16),
            rhythm_view(rhythm@) == rhythm_upto(r, b, l, i as nat),
        decreases steps - i,
    {
        assert(i * res + res <= steps * res) by (nonlinear_arith)
            requires
                0 <= i < steps,
                0 < res,
        ;
        proof {
            lemma_next_slot(i as int, l);
        }
        let hit: bool = walk.next();
        let ghost before = rhythm@;
        if hit {
            let start: EncStart = EncStart::new(i * res).unwrap();
            let length: EncLength = EncLength::new(res).unwrap();
            rhythm.push(EncRhythm::new(start, length));
            assert(rhythm_view(rhythm@) == rhythm_view(before).push((i * res, res as int)));
        }
        i += 1;
    }
    rhythm
}

/// A pattern of no slots gives no notes.
proof fn lemma_no_slots_no_notes(res: int, hits: int, steps: nat)
    ensures
        rhythm_upto(res, hits, 0, steps) == Seq::<(int, int)>::empty(),
    decreases steps,
{
    if steps > 0 {
        lemma_no_slots_no_notes(res, hits, (steps - 1) as nat);
    }
}

/// Round a pattern of `length` slots, the slot after slot `i` is the next
/// one, or the first after the last.
proof fn lemma_next_slot(i: int, length: int)
    by (nonlinear_arith)
    requires
        0 <= i,
        0 < length,
    ensures
        0 <= i % length < length,
        (i + 1) % length == if i % length + 1 == length {
            0
        } else {
            i % length + 1
        },
{
}

/// Draws or changes the resolution, the pattern and the rhythm of one voice.
fn fill_voice(
    rng: &mut StdRng,
    header: &PhraseDataHeader,
    resolutions: &VoiceResolutionParameters,
    patterns: &EuclideanGenerationParameters,
    resolution: &mut Option<Length>,
    pattern: &mut Option<(u8, u8)>,
    rhythm: &mut Vec<EncRhythm>,
)
    requires
        header.wf(),
        pattern_wf(*old(pattern)),
        *old(resolution) matches Some(res) ==> res.ticks() > 0,
    ensures
        voice_filled(
            *resolutions,
            *patterns,
            header.total_ticks(),
            *old(resolution),
            *old(pattern),
            old(rhythm)@,
            *final(resolution),
            *final(pattern),
            final(rhythm)@,
        ),
{
    let mut needs_regen: bool = false;
    let res: Length = match *resolution {
        Some(old) => {
            let (dirty, chosen) = resolutions.step(rng, old);
            needs_regen = needs_regen || dirty;
            chosen
        },
        None => {
            needs_regen = true;
            resolutions.generate(rng)
        },
    };
    *resolution = Some(res);
    let max_notes: u16 = header.max_beats_of_kind(res);
    let max_notes_u8: u8 = if max_notes < 255 {
        max_notes as u8
    } else {
        255
    };
    let (beats, length): (u8, u8) = match *pattern {
        Some((old_beats, old_length)) => {
            let (dirty, euc_beats, euc_length) = patterns.step(
                rng,
                max_notes_u8,
                old_beats,
                old_length,
            );
            needs_regen = needs_regen || dirty;
            (euc_beats, euc_length)
        },
        None => {
            needs_regen = true;
            patterns.generate(rng, max_notes_u8)
        },
    };
    *pattern = Some((beats, length));
    if needs_regen {
        *rhythm = build_rhythm(res.to_ppqn(), beats, length, max_notes);
    }
}

impl Default for LeadVoiceDataBuilder {
    /// A voice without resolution, pattern or notes.
    fn default() -> (v: LeadVoiceDataBuilder)
        ensures
            v.wf(),
            v.resolution() is None,
            v.pattern() is None,
            v.notes().len() == 0,
    {
        LeadVoiceDataBuilder {
            resolution: None,
            euc: None,
            rhythm: Vec::new(),
            voice: None,
            refrain_measures: Vec::new(),
        }
    }
}

impl LeadVoiceDataBuilder {
    /// The pattern, where there is one, can be built, and the resolution,
    /// where there is one, lasts at least one tick.
    pub closed spec fn wf(&self) -> bool {
        &&& pattern_wf(self.euc)
        &&& self.resolution matches Some(res) ==> res.ticks() > 0
    }

    /// The resolution: the length of one step.
    pub closed spec fn spec_resolution(&self) -> Option<Length> {
        self.resolution
    }

    /// The pattern, as hits and slots.
    pub closed spec fn spec_pattern(&self) -> Option<(u8, u8)> {
        self.euc
    }

    /// The notes of the voice, in the order of their start.
    pub closed spec fn notes(&self) -> Seq<EncRhythm> {
        self.rhythm@
    }

    /// The resolution: the length of one step.
    #[verifier::when_used_as_spec(spec_resolution)]
    pub fn resolution(&self) -> (r: Option<Length>)
        ensures
            r == self.resolution(),
    {
        self.resolution
    }

    /// The pattern, as hits and slots.
    #[verifier::when_used_as_spec(spec_pattern)]
    pub fn pattern(&self) -> (p: Option<(u8, u8)>)
        ensures
            p == self.pattern(),
    {
        self.euc
    }

    /// The notes of the voice, in the order of their start.
    pub fn rhythm(&self) -> (v: &Vec<EncRhythm>)
        ensures
            v@ == self.notes(),
    {
        &self.rhythm
    }

    /// Draws what the voice lacks and changes what it has, each setting with
    /// its chance of change, for a phrase with the given header.
    pub fn fill(
        &mut self,
        rng: &mut StdRng,
        header: &PhraseDataHeader,
        parameters: &LeadVoiceDataParameters,
    )
        requires
            old(self).wf(),
            header.wf(),
        ensures
            final(self).wf(),
            voice_filled(
                parameters.resolution(),
                parameters.euc(),
                header.total_ticks(),
                old(self).resolution(),
                old(self).pattern(),
                old(self).notes(),
                final(self).resolution(),
                final(self).pattern(),
                final(self).notes(),
            ),
    {
        fill_voice(
            rng,
            header,
            &parameters.resolution.0,
            &parameters.euc,
            &mut self.resolution,
            &mut self.euc,
            &mut self.rhythm,
        );
    }
}

impl Default for ChorusVoiceDataBuilder {
    /// A voice without resolution, pattern or notes.
    fn default() -> (v: ChorusVoiceDataBuilder)
        ensures
            v.wf(),
            v.resolution() is None,
            v.pattern() is None,
            v.notes().len() == 0,
    {
        ChorusVoiceDataBuilder {
            resolution: None,
            euc: None,
            rhythm: Vec::new(),
            voice: None,
            refrain_measures: Vec::new(),
        }
    }
}

impl ChorusVoiceDataBuilder {
    /// The pattern, where there is one, can be built, and the resolution,
    /// where there is one, lasts at least one tick.
    pub closed spec fn wf(&self) -> bool {
        &&& pattern_wf(self.euc)
        &&& self.resolution matches Some(res) ==> res.ticks() > 0
    }

    /// The resolution: the length of one step.
    pub closed spec fn spec_resolution(&self) -> Option<Length> {
        self.resolution
    }

    /// The pattern, as hits and slots.
    pub closed spec fn spec_pattern(&self) -> Option<(u8, u8)> {
        self.euc
    }

    /// The notes of the voice, in the order of their start.
    pub closed spec fn notes(&self) -> Seq<EncRhythm> {
        self.rhythm@
    }

    /// The resolution: the length of one step.
    #[verifier::when_used_as_spec(spec_resolution)]
    pub fn resolution(&self) -> (r: Option<Length>)
        ensures
            r == self.resolution(),
    {
        self.resolution
    }

    /// The pattern, as hits and slots.
    #[verifier::when_used_as_spec(spec_pattern)]
    pub fn pattern(&self) -> (p: Option<(u8, u8)>)
        ensures
            p == self.pattern(),
    {
        self.euc
    }

    /// The notes of the voice, in the order of their start.
    pub fn rhythm(&self) -> (v: &Vec<EncRhythm>)
        ensures
            v@ == self.notes(),
    {
        &self.rhythm
    }

    /// Draws what the voice lacks and changes what it has, each setting with
    /// its chance of change, for a phrase with the given header.
    pub fn fill(
        &mut self,
        rng: &mut StdRng,
        header: &PhraseDataHeader,
        parameters: &ChorusVoiceDataParameters,
    )
        requires
            old(self).wf(),
            header.wf(),
        ensures
            final(self).wf(),
            voice_filled(
                parameters.resolution(),
                parameters.euc(),
                header.total_ticks(),
                old(self).resolution(),
                old(self).pattern(),
                old(self).notes(),
                final(self).resolution(),
                final(self).pattern(),
                final(self).notes(),
            ),
    {
        fill_voice(
            rng,
            header,
            &parameters.resolution.0,
            &parameters.euc,
            &mut self.resolution,
            &mut self.euc,
            &mut self.rhythm,
        );
    }
}

} // verus!
