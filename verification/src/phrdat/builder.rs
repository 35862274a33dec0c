//! The builder of a phrase: the header and the voices.

use vstd::prelude::*;
use rand::rngs::StdRng;
use crate::phrdat::is_progression;
use crate::phrdat::params::BpmParameters;
use crate::phrdat::params::ChordProgressionParameters;
use crate::phrdat::params::KeyKindParameters;
use crate::phrdat::params::KeyParameters;
use crate::phrdat::params::NumMeasuresParameters;
use crate::phrdat::params::ScaleParameters;
use crate::phrdat::params::TimeSignatureParameters;
use crate::phrdat::params::VoicesParameters;
use crate::phrdat::voices::ChorusVoiceDataBuilder;
use crate::phrdat::voices::ChorusVoiceDataParameters;
use crate::phrdat::voices::LeadVoiceDataBuilder;
use crate::phrdat::voices::LeadVoiceDataParameters;
use crate::phrdat::Chord;
use crate::phrdat::ChordProgression;
use crate::phrdat::KeyKind;
use crate::phrdat::Scale;
use crate::phrdat::TimeSignature;
use crate::phrdat::voices::voice_filled;
use crate::phrdat::EncRhythm;
use crate::ppqn::Length;
use crate::ppqn::PPQN_MAX;
use crate::scale::Pitch;

verus! {

/// The header of a phrase: its settings, once all are there.
#[derive(Debug)]
pub struct PhraseDataHeader {
    /// The tempo in beats per minute.
    pub bpm: u16,
    key_kind: KeyKind,
    time_signature: TimeSignature,
    scale: Scale,
    num_measures: u8,
    chord_progression: ChordProgression,
    key: Pitch,
    voices_ct: (u8, u8),
}

impl PhraseDataHeader {
    /// The tempo in beats per minute.
    pub closed spec fn spec_bpm(&self) -> u16 {
        self.bpm
    }

    /// The kind of key.
    pub closed spec fn spec_key_kind(&self) -> KeyKind {
        self.key_kind
    }

    /// The time signature.
    pub closed spec fn spec_time_signature(&self) -> TimeSignature {
        self.time_signature
    }

    /// The scale.
    pub closed spec fn spec_scale(&self) -> Scale {
        self.scale
    }

    /// The number of measures.
    pub closed spec fn spec_num_measures(&self) -> u8 {
        self.num_measures
    }

    /// The chords, measure by measure.
    pub closed spec fn spec_chords(&self) -> Seq<Chord> {
        self.chord_progression@
    }

    /// The key.
    pub closed spec fn spec_key(&self) -> Pitch {
        self.key
    }

    /// The numbers of lead and chorus voices, in this order.
    pub closed spec fn spec_voices_ct(&self) -> (u8, u8) {
        self.voices_ct
    }

    /// The ticks of the phrase.
    pub open spec fn total_ticks(&self) -> int {
        self.time_signature().measure_ticks() * self.num_measures()
    }

    /// The phrase has at least three measures and fits on a timeline; it has
    /// one chord for each measure, the first and the last on the first
    /// degree and the one before the last on the fourth or the fifth; and
    /// its scale belongs to its kind of key.
    pub open spec fn wf(&self) -> bool {
        &&& 3 <= self.num_measures()
        &&& self.num_measures() * self.time_signature().numerator()
            <= self.time_signature().denominator().beats_limit()
        &&& self.spec_chords().len() == self.num_measures()
        &&& is_progression(self.spec_chords())
        &&& self.scale().family() == self.key_kind()
    }

    /// The tempo in beats per minute.
    pub fn bpm(&self) -> (b: u16)
        ensures
            b == self.spec_bpm(),
    {
        self.bpm
    }

    /// The kind of key.
    #[verifier::when_used_as_spec(spec_key_kind)]
    pub fn key_kind(&self) -> (k: KeyKind)
        ensures
            k == self.key_kind(),
    {
        self.key_kind
    }

    /// The time signature.
    #[verifier::when_used_as_spec(spec_time_signature)]
    pub fn time_signature(&self) -> (t: TimeSignature)
        ensures
            t == self.time_signature(),
    {
        self.time_signature
    }

    /// The scale.
    #[verifier::when_used_as_spec(spec_scale)]
    pub fn scale(&self) -> (s: Scale)
        ensures
            s == self.scale(),
    {
        self.scale
    }

    /// The number of measures.
    #[verifier::when_used_as_spec(spec_num_measures)]
    pub fn num_measures(&self) -> (n: u8)
        ensures
            n == self.num_measures(),
    {
        self.num_measures
    }

    /// The chords, measure by measure.
    pub fn chords(&self) -> (v: Vec<Chord>)
        ensures
            v@ == self.spec_chords(),
    {
        self.chord_progression.chords()
    }

    /// The key.
    #[verifier::when_used_as_spec(spec_key)]
    pub fn key(&self) -> (k: Pitch)
        ensures
            k == self.key(),
    {
        self.key
    }

    /// The numbers of lead and chorus voices, in this order.
    #[verifier::when_used_as_spec(spec_voices_ct)]
    pub fn voices_ct(&self) -> (v: (u8, u8))
        ensures
            v == self.voices_ct(),
    {
        self.voices_ct
    }

    /// The number of notes of the given length that fit into the phrase.
    pub fn max_beats_of_kind(&self, len: Length) -> (n: u16)
        requires
            self.wf(),
            len.ticks() > 0,
        ensures
            n == self.total_ticks() / len.ticks(),
            self.total_ticks() <= PPQN_MAX,
            n * len.ticks() <= PPQN_MAX,
    {
        let denom_ppqn: u16 = self.time_signature.denominator().to_ppqn();
        let numerator: u16 = self.time_signature.numerator() as u16;
        let measures: u16 = self.num_measures as u16;
        let limit: u16 = self.time_signature.denominator().max_beats();
        proof {
            assert(denom_ppqn * numerator * measures <= PPQN_MAX && denom_ppqn * numerator
                <= PPQN_MAX && denom_ppqn * numerator * measures == (numerator * denom_ppqn)
                * measures) by (nonlinear_arith)
                requires
                    limit * denom_ppqn == PPQN_MAX,
                    measures * numerator <= limit,
                    0 < denom_ppqn,
                    0 < numerator,
                    0 < measures,
            ;
        }
        let per_meas_ppqn: u16 = denom_ppqn * numerator;
        let ttl_ppqn: u16 = per_meas_ppqn * measures;
        let divisor: u16 = len.to_ppqn();
        let n: u16 = ttl_ppqn / divisor;
        assert(n * divisor <= ttl_ppqn) by (nonlinear_arith)
            requires
                n == ttl_ppqn / divisor,
                divisor > 0,
        ;
        n
    }
}

/// The settings of a phrase as far as they have been drawn.
#[derive(Debug)]
pub struct PhraseDataHeaderBuilder {
    bpm: Option<u16>,
    key_kind: Option<KeyKind>,
    time_signature: Option<TimeSignature>,
    scale: Option<Scale>,
    num_measures: Option<u8>,
    chord_progression: Option<ChordProgression>,
    key: Option<Pitch>,
    voices_ct: Option<(u8, u8)>,
}

/// A phrase in the making: its settings and its voices.
#[derive(Debug)]
pub struct PhraseDataBuilder {
    header: PhraseDataHeaderBuilder,
    /// The lead voices.
    pub lead_voices: Vec<LeadVoiceDataBuilder>,
    /// The chorus voices.
    pub chorus_voices: Vec<ChorusVoiceDataBuilder>,
}

/// All the parameters of a phrase.
#[derive(Debug)]
pub struct PhraseDataParameters {
    pub bpm: BpmParameters,
    pub key_kind: KeyKindParameters,
    pub time_signature: TimeSignatureParameters,
    pub scale: ScaleParameters,
    pub num_measures: NumMeasuresParameters,
    pub chord_progression: ChordProgressionParameters,
    pub key: KeyParameters,
    pub voices: VoicesParameters,
    pub lead_voices: LeadVoiceDataParameters,
    pub chorus_voices: ChorusVoiceDataParameters,
}

impl Default for PhraseDataParameters {
    /// The default parameters of each setting.
    fn default() -> (p: PhraseDataParameters)
        ensures
            p.wf(),
            p.bpm.is_default(),
            p.key_kind.is_default(),
            p.time_signature.is_default(),
            p.scale.is_default(),
            p.num_measures.is_default(),
            p.chord_progression.is_default(),
            p.key.is_default(),
            p.voices.is_default(),
            p.lead_voices.is_default(),
            p.chorus_voices.is_default(),
    {
        PhraseDataParameters {
            bpm: BpmParameters::default(),
            key_kind: KeyKindParameters::default(),
            time_signature: TimeSignatureParameters::default(),
            scale: ScaleParameters::default(),
            num_measures: NumMeasuresParameters::default(),
            chord_progression: ChordProgressionParameters::default(),
            key: KeyParameters::default(),
            voices: VoicesParameters::default(),
            lead_voices: LeadVoiceDataParameters::default(),
            chorus_voices: ChorusVoiceDataParameters::default(),
        }
    }
}

impl PhraseDataParameters {
    /// The slowest tempo is not above the fastest. (The other parameters
    /// cannot be ill formed.)
    pub open spec fn wf(&self) -> bool {
        self.bpm.wf()
    }
}

impl Default for PhraseDataHeaderBuilder {
    /// No setting has been drawn.
    fn default() -> (h: PhraseDataHeaderBuilder)
        ensures
            h.bpm() is None,
            h.key_kind() is None,
            h.time_signature() is None,
            h.scale() is None,
            h.num_measures() is None,
            h.chords() is None,
            h.key() is None,
            h.voices_ct() is None,
    {
        PhraseDataHeaderBuilder {
            bpm: None,
            key_kind: None,
            time_signature: None,
            scale: None,
            num_measures: None,
            chord_progression: None,
            key: None,
            voices_ct: None,
        }
    }
}

impl PhraseDataHeaderBuilder {
    /// The tempo in beats per minute.
    pub closed spec fn bpm(&self) -> Option<u16> {
        self.bpm
    }

    /// The kind of key.
    pub closed spec fn key_kind(&self) -> Option<KeyKind> {
        self.key_kind
    }

    /// The time signature.
    pub closed spec fn time_signature(&self) -> Option<TimeSignature> {
        self.time_signature
    }

    /// The scale.
    pub closed spec fn scale(&self) -> Option<Scale> {
        self.scale
    }

    /// The number of measures.
    pub closed spec fn num_measures(&self) -> Option<u8> {
        self.num_measures
    }

    /// The chords, measure by measure.
    pub closed spec fn chords(&self) -> Option<Seq<Chord>> {
        match self.chord_progression {
            Some(progression) => Some(progression@),
            None => None,
        }
    }

    /// The key.
    pub closed spec fn key(&self) -> Option<Pitch> {
        self.key
    }

    /// The numbers of lead and chorus voices, in this order.
    pub closed spec fn voices_ct(&self) -> Option<(u8, u8)> {
        self.voices_ct
    }

    /// A number of measures, where there is one, is at least three.
    pub open spec fn wf(&self) -> bool {
        self.num_measures() matches Some(n) ==> 3 <= n
    }

    /// Every setting has been drawn, and the settings go together: the
    /// phrase has at least three measures and fits on a timeline, it has one
    /// chord for each measure, and its scale belongs to its kind of key.
    pub open spec fn complete(&self) -> bool {
        &&& self.bpm() is Some
        &&& self.key_kind() matches Some(kind)
        &&& self.time_signature() matches Some(signature)
        &&& self.scale() matches Some(scale)
        &&& self.num_measures() matches Some(measures)
        &&& self.chords() matches Some(chords)
        &&& self.key() is Some
        &&& self.voices_ct() is Some
        &&& 3 <= measures
        &&& measures * signature.numerator() <= signature.denominator().beats_limit()
        &&& chords.len() == measures
        &&& is_progression(chords)
        &&& scale.family() == kind
    }
}

impl Default for PhraseDataBuilder {
    /// A builder without settings and without voices.
    fn default() -> (b: PhraseDataBuilder)
        ensures
            b.wf(),
            b.header().bpm() is None,
            b.header().key_kind() is None,
            b.header().time_signature() is None,
            b.header().scale() is None,
            b.header().num_measures() is None,
            b.header().chords() is None,
            b.header().key() is None,
            b.header().voices_ct() is None,
            b.leads().len() == 0,
            b.chorus().len() == 0,
    {
        PhraseDataBuilder {
            header: PhraseDataHeaderBuilder::default(),
            lead_voices: Vec::new(),
            chorus_voices: Vec::new(),
        }
    }
}

/// What a lead voice was before a phrase was filled: the voice with that
/// number in the builder, or for a number beyond the old voices a voice
/// without resolution, pattern or notes.
pub open spec fn lead_before(old: Seq<LeadVoiceDataBuilder>, j: int) -> (
    Option<Length>,
    Option<(u8, u8)>,
    Seq<EncRhythm>,
) {
    if 0 <= j < old.len() {
        (old[j].resolution(), old[j].pattern(), old[j].notes())
    } else {
        (None, None, Seq::empty())
    }
}

/// What a chorus voice was before a phrase was filled.
pub open spec fn chorus_before(old: Seq<ChorusVoiceDataBuilder>, j: int) -> (
    Option<Length>,
    Option<(u8, u8)>,
    Seq<EncRhythm>,
) {
    if 0 <= j < old.len() {
        (old[j].resolution(), old[j].pattern(), old[j].notes())
    } else {
        (None, None, Seq::empty())
    }
}

/// Whether the settings `new` have come out of filling the settings `old`
/// with the given parameters.
///
/// Every setting is there, and the settings go together. A setting that was
/// there before and whose chance of change is none is the same, as far as
/// the settings that it depends on allow. The tempo that was within its
/// bounds is within its bounds. The voices number no more than the most in
/// all.
pub open spec fn header_filled(
    old: PhraseDataHeaderBuilder,
    parameters: PhraseDataParameters,
    new: PhraseDataHeaderBuilder,
) -> bool {
    &&& new.complete()
    &&& match old.bpm() {
        Some(before) => {
            &&& parameters.bpm.may_step_to(
                before,
                new.bpm()->Some_0,
                parameters.bpm.mutation_probability.is_always(),
            )
            &&& parameters.bpm.mutation_probability.is_never() ==> new.bpm() == old.bpm()
            &&& parameters.bpm.min <= before <= parameters.bpm.max ==> parameters.bpm.min
                <= new.bpm()->Some_0 <= parameters.bpm.max
        },
        None => parameters.bpm.min <= new.bpm()->Some_0 <= parameters.bpm.max,
    }
    &&& (old.key_kind() is Some && parameters.key_kind.mutation_probablity.is_never())
        ==> new.key_kind() == old.key_kind()
    &&& match old.time_signature() {
        Some(before) => {
            &&& (new.time_signature() == old.time_signature()
                && !parameters.time_signature.chance().is_always())
                || parameters.time_signature.may_generate(new.time_signature()->Some_0)
            &&& parameters.time_signature.chance().is_never() ==> new.time_signature()
                == old.time_signature()
        },
        None => parameters.time_signature.may_generate(new.time_signature()->Some_0),
    }
    &&& (old.scale() matches Some(before) && parameters.scale.chance().is_never()
        && before.family() == new.key_kind()->Some_0) ==> new.scale() == old.scale()
    &&& match old.num_measures() {
        Some(before) => {
            &&& parameters.num_measures.may_step_to(
                before,
                new.time_signature()->Some_0,
                new.num_measures()->Some_0,
            )
            &&& new.num_measures()->Some_0 <= parameters.num_measures.most(
                new.time_signature()->Some_0,
            )
            &&& parameters.num_measures.chance().is_never() ==> new.num_measures()->Some_0
                == parameters.num_measures.kept(before, new.time_signature()->Some_0)
            &&& parameters.num_measures.chance().is_always() ==> parameters.num_measures.fewest(
                new.time_signature()->Some_0,
            ) <= new.num_measures()->Some_0
        },
        None => parameters.num_measures.fewest(new.time_signature()->Some_0)
            <= new.num_measures()->Some_0 <= parameters.num_measures.most(
            new.time_signature()->Some_0,
        ),
    }
    &&& old.chords() matches Some(before) ==> (parameters.chord_progression.chance().is_never()
        ==> ChordProgressionParameters::kept(
        before,
        new.num_measures()->Some_0 as int,
        new.chords()->Some_0,
    ))
    &&& (old.key() is Some && parameters.key.chance().is_never()) ==> new.key() == old.key()
    &&& new.voices_ct()->Some_0.0 + new.voices_ct()->Some_0.1
        <= parameters.voices.total_voices_max()
    &&& match old.voices_ct() {
        Some(before) => {
            &&& parameters.voices.may_step_to(before.0, before.1, new.voices_ct()->Some_0)
            &&& parameters.voices.chorus_chance().is_never() ==> new.voices_ct()->Some_0.1
                == parameters.voices.kept_chorus(before.1)
            &&& parameters.voices.lead_chance().is_never() ==> new.voices_ct()->Some_0.0
                == parameters.voices.kept_leads(before.0, new.voices_ct()->Some_0.1)
            &&& parameters.voices.chorus_chance().is_always() ==> parameters.voices.may_draw_chorus(
                new.voices_ct()->Some_0.1,
            )
            &&& parameters.voices.lead_chance().is_always() ==> parameters.voices.may_draw_leads(
                new.voices_ct()->Some_0.0,
                new.voices_ct()->Some_0.1,
            )
        },
        None => parameters.voices.may_draw_chorus(new.voices_ct()->Some_0.1)
            && parameters.voices.may_draw_leads(
            new.voices_ct()->Some_0.0,
            new.voices_ct()->Some_0.1,
        ),
    }
}

/// Whether the builder `new` has come out of filling the builder `old` with
/// the given parameters: the settings have, there is one voice for each
/// voice that the settings count, and each voice has come out of filling the
/// voice with its number in the old builder.
pub open spec fn phrase_filled(
    old: PhraseDataBuilder,
    parameters: PhraseDataParameters,
    new: PhraseDataBuilder,
) -> bool {
    &&& header_filled(old.header(), parameters, new.header())
    &&& new.leads().len() == new.header().voices_ct()->Some_0.0
    &&& new.chorus().len() == new.header().voices_ct()->Some_0.1
    &&& forall|j: int|
        0 <= j < new.leads().len() ==> voice_filled(
            parameters.lead_voices.resolution(),
            parameters.lead_voices.euc(),
            new.total_ticks(),
            lead_before(old.leads(), j).0,
            lead_before(old.leads(), j).1,
            lead_before(old.leads(), j).2,
            (#[trigger] new.leads()[j]).resolution(),
            new.leads()[j].pattern(),
            new.leads()[j].notes(),
        )
    &&& forall|j: int|
        0 <= j < new.chorus().len() ==> voice_filled(
            parameters.chorus_voices.resolution(),
            parameters.chorus_voices.euc(),
            new.total_ticks(),
            chorus_before(old.chorus(), j).0,
            chorus_before(old.chorus(), j).1,
            chorus_before(old.chorus(), j).2,
            (#[trigger] new.chorus()[j]).resolution(),
            new.chorus()[j].pattern(),
            new.chorus()[j].notes(),
        )
}

/// Makes `voices` as many as `n`: the last voices go where there are too
/// many, and voices without resolution, pattern or notes come where there
/// are too few.
fn resize_leads(voices: &mut Vec<LeadVoiceDataBuilder>, n: usize)
    requires
        forall|j: int| 0 <= j < old(voices)@.len() ==> (#[trigger] old(voices)@[j]).wf(),
    ensures
        final(voices)@.len() == n,
        forall|j: int| 0 <= j < n ==> (#[trigger] final(voices)@[j]).wf(),
        forall|j: int|
            0 <= j < n ==> lead_before(old(voices)@, j) == ((#[trigger] final(voices)@[j]).resolution(
            ), final(voices)@[j].pattern(), final(voices)@[j].notes()),
{
    voices.truncate(n);
    while voices.len() < n
        invariant
            voices@.len() <= n,
            voices@.len() >= old(voices)@.len() || voices@.len() == n,
            forall|j: int| 0 <= j < voices@.len() ==> (#[trigger] voices@[j]).wf(),
            forall|j: int|
                0 <= j < voices@.len() ==> lead_before(old(voices)@, j) == ((
                #[trigger] voices@[j]).resolution(), voices@[j].pattern(), voices@[j].notes()),
        decreases n - voices@.len(),
    {
        voices.push(LeadVoiceDataBuilder::default());
    }
}

/// Makes `voices` as many as `n`: the last voices go where there are too
/// many, and voices without resolution, pattern or notes come where there
/// are too few.
fn resize_chorus(voices: &mut Vec<ChorusVoiceDataBuilder>, n: usize)
    requires
        forall|j: int| 0 <= j < old(voices)@.len() ==> (#[trigger] old(voices)@[j]).wf(),
    ensures
        final(voices)@.len() == n,
        forall|j: int| 0 <= j < n ==> (#[trigger] final(voices)@[j]).wf(),
        forall|j: int|
            0 <= j < n ==> chorus_before(old(voices)@, j) == ((
            #[trigger] final(voices)@[j]).resolution(), final(voices)@[j].pattern(), final(voices)@[j].notes()),
{
    voices.truncate(n);
    while voices.len() < n
        invariant
            voices@.len() <= n,
            voices@.len() >= old(voices)@.len() || voices@.len() == n,
            forall|j: int| 0 <= j < voices@.len() ==> (#[trigger] voices@[j]).wf(),
            forall|j: int|
                0 <= j < voices@.len() ==> chorus_before(old(voices)@, j) == ((
                #[trigger] voices@[j]).resolution(), voices@[j].pattern(), voices@[j].notes()),
        decreases n - voices@.len(),
    {
        voices.push(ChorusVoiceDataBuilder::default());
    }
}

impl PhraseDataBuilder {
    /// The settings as far as they have been drawn.
    pub closed spec fn header(&self) -> PhraseDataHeaderBuilder {
        self.header
    }

    /// The lead voices.
    pub closed spec fn leads(&self) -> Seq<LeadVoiceDataBuilder> {
        self.lead_voices@
    }

    /// The chorus voices.
    pub closed spec fn chorus(&self) -> Seq<ChorusVoiceDataBuilder> {
        self.chorus_voices@
    }

    /// The lead voices.
    pub fn lead_voices(&self) -> (v: &Vec<LeadVoiceDataBuilder>)
        ensures
            v@ == self.leads(),
    {
        &self.lead_voices
    }

    /// The chorus voices.
    pub fn chorus_voices(&self) -> (v: &Vec<ChorusVoiceDataBuilder>)
        ensures
            v@ == self.chorus(),
    {
        &self.chorus_voices
    }

    /// The ticks of the phrase, once its signature and its number of
    /// measures are there.
    pub open spec fn total_ticks(&self) -> int {
        self.header().time_signature()->Some_0.measure_ticks() * self.header().num_measures()->Some_0
    }

    /// The settings and each voice are well formed.
    pub open spec fn wf(&self) -> bool {
        &&& self.header().wf()
        &&& forall|j: int| 0 <= j < self.leads().len() ==> (#[trigger] self.leads()[j]).wf()
        &&& forall|j: int| 0 <= j < self.chorus().len() ==> (#[trigger] self.chorus()[j]).wf()
    }

    /// The header of the phrase. Every setting must have been drawn: a
    /// builder has them all once it has been filled.
    pub fn build_header(&self) -> (h: PhraseDataHeader)
        requires
            self.header().complete(),
        ensures
            h.wf(),
            Some(h.spec_bpm()) == self.header().bpm(),
            Some(h.key_kind()) == self.header().key_kind(),
            Some(h.time_signature()) == self.header().time_signature(),
            Some(h.scale()) == self.header().scale(),
            Some(h.num_measures()) == self.header().num_measures(),
            Some(h.spec_chords()) == self.header().chords(),
            Some(h.key()) == self.header().key(),
            Some(h.voices_ct()) == self.header().voices_ct(),
            h.total_ticks() == self.total_ticks(),
    {
        PhraseDataHeader {
            bpm: self.header.bpm.unwrap(),
            key_kind: self.header.key_kind.unwrap(),
            time_signature: self.header.time_signature.unwrap(),
            scale: self.header.scale.unwrap(),
            num_measures: self.header.num_measures.unwrap(),
            chord_progression: self.header.chord_progression.as_ref().unwrap().duplicate(),
            key: self.header.key.unwrap(),
            voices_ct: self.header.voices_ct.unwrap(),
        }
    }

    /// Draws the settings that the phrase lacks and changes those that it
    /// has, each with its chance of change, in the order in which they
    /// depend on one another; then does the same for each voice.
    pub fn fill(&mut self, rng: &mut StdRng, parameters: &PhraseDataParameters)
        requires
            old(self).wf(),
            parameters.wf(),
        ensures
            final(self).wf(),
            phrase_filled(*old(self), *parameters, *final(self)),
            final(self).header().complete(),
            is_progression(final(self).header().chords()->Some_0),
            final(self).header().chords()->Some_0.len() == final(self).header().num_measures()->Some_0,
    {
        let bpm: u16 = match self.header.bpm {
            Some(bpm) => parameters.bpm.step(rng, bpm),
            None => parameters.bpm.generate(rng),
        };
        self.header.bpm = Some(bpm);
        let key_kind: KeyKind = match self.header.key_kind {
            Some(old) => parameters.key_kind.step(rng, old),
            None => parameters.key_kind.generate(rng),
        };
        self.header.key_kind = Some(key_kind);
        let time_signature: TimeSignature = match self.header.time_signature {
            Some(old) => parameters.time_signature.step(rng, old),
            None => parameters.time_signature.generate(rng),
        };
        self.header.time_signature = Some(time_signature);
        let scale: Scale = match self.header.scale {
            Some(old) => parameters.scale.step(rng, old, key_kind),
            None => parameters.scale.generate(rng, key_kind),
        };
        self.header.scale = Some(scale);
        let num_measures: u8 = match self.header.num_measures {
            Some(old) => parameters.num_measures.step(rng, old, time_signature),
            None => parameters.num_measures.generate(rng, time_signature),
        };
        self.header.num_measures = Some(num_measures);
        let chord_progression: ChordProgression = match self.header.chord_progression.take() {
            Some(old) => parameters.chord_progression.step(rng, old, num_measures),
            None => parameters.chord_progression.generate(rng, num_measures),
        };
        self.header.chord_progression = Some(chord_progression);
        let key: Pitch = match self.header.key {
            Some(old) => parameters.key.step(rng, old),
            None => parameters.key.generate(rng),
        };
        self.header.key = Some(key);
        let (lead_voices, chorus_voices): (u8, u8) = match self.header.voices_ct {
            Some((old_lead, old_chorus)) => parameters.voices.step(rng, old_lead, old_chorus),
            None => parameters.voices.generate(rng),
        };
        self.header.voices_ct = Some((lead_voices, chorus_voices));
        proof {
            assert(self.lead_voices@ == old(self).leads());
            assert(self.chorus_voices@ == old(self).chorus());
            assert forall|j: int| 0 <= j < self.lead_voices@.len() implies (
            #[trigger] self.lead_voices@[j]).wf() by {
                assert(old(self).leads()[j].wf());
            }
            assert forall|j: int| 0 <= j < self.chorus_voices@.len() implies (
            #[trigger] self.chorus_voices@[j]).wf() by {
                assert(old(self).chorus()[j].wf());
            }
        }
        resize_leads(&mut self.lead_voices, lead_voices as usize);
        resize_chorus(&mut self.chorus_voices, chorus_voices as usize);
        let header: PhraseDataHeader = self.build_header();
        let ghost old_leads = old(self).leads();
        let ghost old_chorus = old(self).chorus();
        let mut i: usize = 0;
        while i < self.lead_voices.len()
            invariant
                i <= self.lead_voices@.len(),
                self.lead_voices@.len() == lead_voices,
                self.chorus_voices@.len() == chorus_voices,
                header.wf(),
                parameters.wf(),
                header_filled(old(self).header(), *parameters, self.header()),
                self.header().voices_ct() == Some((lead_voices, chorus_voices)),
                header.total_ticks() == self.total_ticks(),
                forall|j: int| 0 <= j < self.lead_voices@.len() ==> (#[trigger] self.lead_voices@[j]).wf(),
                forall|j: int|
                    0 <= j < self.chorus_voices@.len() ==> (#[trigger] self.chorus_voices@[j]).wf(),
                forall|j: int|
                    i <= j < self.lead_voices@.len() ==> lead_before(old_leads, j) == ((
                    #[trigger] self.lead_voices@[j]).resolution(), self.lead_voices@[j].pattern(),
                        self.lead_voices@[j].notes()),
                forall|j: int|
                    0 <= j < self.chorus_voices@.len() ==> chorus_before(old_chorus, j) == ((
                    #[trigger] self.chorus_voices@[j]).resolution(), self.chorus_voices@[j].pattern(),
                        self.chorus_voices@[j].notes()),
                forall|j: int|
                    0 <= j < i ==> voice_filled(
                        parameters.lead_voices.resolution(),
                        parameters.lead_voices.euc(),
                        header.total_ticks(),
                        lead_before(old_leads, j).0,
                        lead_before(old_leads, j).1,
                        lead_before(old_leads, j).2,
                        (#[trigger] self.lead_voices@[j]).resolution(),
                        self.lead_voices@[j].pattern(),
                        self.lead_voices@[j].notes(),
                    ),
            decreases self.lead_voices@.len() - i,
        {
            self.lead_voices[i].fill(rng, &header, &parameters.lead_voices);
            i += 1;
        }
        let mut k: usize = 0;
        while k < self.chorus_voices.len()
            invariant
                k <= self.chorus_voices@.len(),
                self.lead_voices@.len() == lead_voices,
                self.chorus_voices@.len() == chorus_voices,
                header.wf(),
                parameters.wf(),
                header_filled(old(self).header(), *parameters, self.header()),
                self.header().voices_ct() == Some((lead_voices, chorus_voices)),
                header.total_ticks() == self.total_ticks(),
                forall|j: int| 0 <= j < self.lead_voices@.len() ==> (#[trigger] self.lead_voices@[j]).wf(),
                forall|j: int|
                    0 <= j < self.chorus_voices@.len() ==> (#[trigger] self.chorus_voices@[j]).wf(),
                forall|j: int|
                    k <= j < self.chorus_voices@.len() ==> chorus_before(old_chorus, j) == ((
                    #[trigger] self.chorus_voices@[j]).resolution(), self.chorus_voices@[j].pattern(),
                        self.chorus_voices@[j].notes()),
                forall|j: int|
                    0 <= j < self.lead_voices@.len() ==> voice_filled(
                        parameters.lead_voices.resolution(),
                        parameters.lead_voices.euc(),
                        header.total_ticks(),
                        lead_before(old_leads, j).0,
                        lead_before(old_leads, j).1,
                        lead_before(old_leads, j).2,
                        (#[trigger] self.lead_voices@[j]).resolution(),
                        self.lead_voices@[j].pattern(),
                        self.lead_voices@[j].notes(),
                    ),
                forall|j: int|
                    0 <= j < k ==> voice_filled(
                        parameters.chorus_voices.resolution(),
                        parameters.chorus_voices.euc(),
                        header.total_ticks(),
                        chorus_before(old_chorus, j).0,
                        chorus_before(old_chorus, j).1,
                        chorus_before(old_chorus, j).2,
                        (#[trigger] self.chorus_voices@[j]).resolution(),
                        self.chorus_voices@[j].pattern(),
                        self.chorus_voices@[j].notes(),
                    ),
            decreases self.chorus_voices@.len() - k,
        {
            self.chorus_voices[k].fill(rng, &header, &parameters.chorus_voices);
            k += 1;
        }
    }
}

/// Whether the parameters leave no setting of the header a chance of
/// change.
pub open spec fn no_chance_of_change(parameters: PhraseDataParameters) -> bool {
    &&& parameters.bpm.mutation_probability.is_never()
    &&& parameters.key_kind.mutation_probablity.is_never()
    &&& parameters.time_signature.chance().is_never()
    &&& parameters.scale.chance().is_never()
    &&& parameters.num_measures.chance().is_never()
    &&& parameters.chord_progression.chance().is_never()
    &&& parameters.key.chance().is_never()
    &&& parameters.voices.lead_chance().is_never()
    &&& parameters.voices.chorus_chance().is_never()
}

/// Filling changes nothing where nothing has a chance of change: settings
/// that are complete, and that fit the bounds on measures and voices, come
/// out of a filling with such parameters as they went in.
pub proof fn lemma_no_chance_no_change(
    old: PhraseDataHeaderBuilder,
    parameters: PhraseDataParameters,
    new: PhraseDataHeaderBuilder,
)
    requires
        old.complete(),
        header_filled(old, parameters, new),
        no_chance_of_change(parameters),
        old.num_measures()->Some_0 <= parameters.num_measures.most(old.time_signature()->Some_0),
        old.voices_ct()->Some_0.0 + old.voices_ct()->Some_0.1
            <= parameters.voices.total_voices_max(),
    ensures
        new.bpm() == old.bpm(),
        new.key_kind() == old.key_kind(),
        new.time_signature() == old.time_signature(),
        new.scale() == old.scale(),
        new.num_measures() == old.num_measures(),
        new.chords() == old.chords(),
        new.key() == old.key(),
        new.voices_ct() == old.voices_ct(),
{
    let before = old.chords()->Some_0;
    let after = new.chords()->Some_0;
    let n = new.num_measures()->Some_0 as int;
    let resized = ChordProgressionParameters::resized(before, n);
    assert(resized == before);
    assert(after == before);
}

/// The tempo stays within its bounds from filling to filling. Where each
/// of the settings `states[1]` to `states[n]` has come out of filling the
/// one before it, and the first had no tempo or one within the bounds, the
/// tempo of `states[n]` lies within the bounds, and it differs from a tempo
/// of `states[n - 1]` by no more than the largest change.
pub proof fn lemma_tempo_stays_in_bounds(
    states: Seq<PhraseDataHeaderBuilder>,
    parameters: PhraseDataParameters,
    n: int,
)
    requires
        parameters.wf(),
        1 <= n < states.len(),
        states[0].bpm() matches Some(first) ==> parameters.bpm.min <= first
            <= parameters.bpm.max,
        forall|i: int|
            0 <= i < n ==> header_filled(#[trigger] states[i], parameters, states[i + 1]),
    ensures
        states[n].bpm() is Some,
        parameters.bpm.min <= states[n].bpm()->Some_0 <= parameters.bpm.max,
        states[n - 1].bpm() matches Some(before) ==> before - parameters.bpm.max_delta_per_phrase
            <= states[n].bpm()->Some_0 <= before + parameters.bpm.max_delta_per_phrase,
    decreases n,
{
    assert(header_filled(states[n - 1], parameters, states[n]));
    if n > 1 {
        lemma_tempo_stays_in_bounds(states, parameters, n - 1);
    }
    if states[n - 1].bpm() is Some {
        let before = states[n - 1].bpm()->Some_0;
        let after = states[n].bpm()->Some_0;
        if after != before {
            let (delta, up) = choose|delta: u16, up: bool|
                delta <= parameters.bpm.max_delta_per_phrase && after
                    == #[trigger] parameters.bpm.changed(before, delta, up);
            assert(before - delta <= parameters.bpm.changed(before, delta, up) <= before + delta);
        }
    }
}

} // verus!
