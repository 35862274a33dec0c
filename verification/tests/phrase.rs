use minijam::phrdat::builder::PhraseDataBuilder;
use minijam::phrdat::builder::PhraseDataParameters;
use minijam::phrdat::params::BpmParameters;
use minijam::phrdat::params::ChordProgressionParameters;
use minijam::phrdat::params::KeyKindParameters;
use minijam::phrdat::params::NumMeasuresParameters;
use minijam::phrdat::params::ScaleParameters;
use minijam::phrdat::params::VoicesParameters;
use minijam::phrdat::voices::VoiceResolutionParameters;
use minijam::phrdat::Chord;
use minijam::phrdat::ChordProgression;
use minijam::phrdat::EncRhythm;
use minijam::phrdat::KeyKind;
use minijam::phrdat::Scale;
use minijam::phrdat::SignatureDenominator;
use minijam::phrdat::TimeSignature;
use minijam::ppqn::Length;
use minijam::ppqn::PPQN_QUARTER;
use minijam::random::coin;
use minijam::random::pick_below;
use minijam::random::pick_between;
use minijam::random::Probability;
use rand::rngs::StdRng;
use rand::SeedableRng;

fn check_rhythm(rhythm: &[EncRhythm], total: u32) {
    let mut last_start: Option<u16> = None;
    for note in rhythm {
        if let Some(before) = last_start {
            assert!(note.ppqn_start() > before);
        }
        assert!(note.ppqn_start() as u32 + note.ppqn_len() as u32 <= total);
        last_start = Some(note.ppqn_start());
    }
}

fn check_phrase(builder: &PhraseDataBuilder, total_voices_max: usize) {
    let header = builder.build_header();
    assert!(header.num_measures() >= 3);
    let chords = header.chords();
    assert_eq!(chords.len(), header.num_measures() as usize);
    assert_eq!(chords[0], Chord::I);
    assert_eq!(chords[chords.len() - 1], Chord::I);
    let before_last = chords[chords.len() - 2];
    assert!(before_last == Chord::IV || before_last == Chord::V);
    let (leads, chorus) = header.voices_ct();
    assert!(leads as usize + chorus as usize <= total_voices_max);
    assert_eq!(builder.lead_voices.len(), leads as usize);
    assert_eq!(builder.chorus_voices.len(), chorus as usize);
    assert!(builder.lead_voices.len() + builder.chorus_voices.len() <= 8);
    assert_eq!(header.scale().family(), header.key_kind());
    assert_eq!(header.time_signature().denominator(), SignatureDenominator::Quarter);
    assert!(header.num_measures() as u32 * header.time_signature().numerator() as u32 <= 64);
}

#[test]
fn fill_from_a_seed_keeps_the_invariants() {
    for seed in 0..200u64 {
        let mut rng = StdRng::seed_from_u64(seed);
        let params = PhraseDataParameters::default();
        let mut builder = PhraseDataBuilder::default();
        builder.fill(&mut rng, &params);
        check_phrase(&builder, 8);
        let header = builder.build_header();
        assert!(header.bpm >= 50 && header.bpm <= 150);
        assert!((3..=6).contains(&header.time_signature().numerator()));
        assert!(header.num_measures() <= 16);
        let (leads, chorus) = header.voices_ct();
        assert!((2..=3).contains(&leads));
        assert!((2..=3).contains(&chorus));
        let total = header.num_measures() as u32
            * header.time_signature().numerator() as u32
            * PPQN_QUARTER as u32;
        for voice in builder.lead_voices.iter() {
            check_rhythm(&voice.rhythm, total);
        }
        for voice in builder.chorus_voices.iter() {
            check_rhythm(&voice.rhythm, total);
        }
    }
}

#[test]
fn the_same_seed_gives_the_same_phrase() {
    let params = PhraseDataParameters::default();
    let mut one = PhraseDataBuilder::default();
    let mut two = PhraseDataBuilder::default();
    one.fill(&mut StdRng::seed_from_u64(77), &params);
    two.fill(&mut StdRng::seed_from_u64(77), &params);
    let (a, b) = (one.build_header(), two.build_header());
    assert_eq!(a.bpm, b.bpm);
    assert_eq!(a.key_kind(), b.key_kind());
    assert_eq!(a.time_signature(), b.time_signature());
    assert_eq!(a.scale(), b.scale());
    assert_eq!(a.num_measures(), b.num_measures());
    assert_eq!(a.chords(), b.chords());
    assert_eq!(a.key(), b.key());
    assert_eq!(a.voices_ct(), b.voices_ct());
    for (x, y) in one.lead_voices.iter().zip(two.lead_voices.iter()) {
        assert_eq!(x.rhythm, y.rhythm);
    }
    for (x, y) in one.chorus_voices.iter().zip(two.chorus_voices.iter()) {
        assert_eq!(x.rhythm, y.rhythm);
    }
}

#[test]
fn refilling_keeps_the_invariants() {
    let mut rng = StdRng::seed_from_u64(2024);
    let params = PhraseDataParameters::default();
    let mut builder = PhraseDataBuilder::default();
    for _ in 0..500 {
        builder.fill(&mut rng, &params);
        check_phrase(&builder, 8);
        let header = builder.build_header();
        assert!(header.bpm >= 50 && header.bpm <= 150);
    }
}

#[test]
fn a_tempo_that_never_changes() {
    let mut rng = StdRng::seed_from_u64(5);
    let mut params = PhraseDataParameters::default();
    params.bpm.mutation_probability = Probability::never();
    let mut builder = PhraseDataBuilder::default();
    builder.fill(&mut rng, &params);
    let first = builder.build_header().bpm;
    for _ in 0..100 {
        builder.fill(&mut rng, &params);
        assert_eq!(builder.build_header().bpm, first);
    }
}

#[test]
fn a_tempo_that_always_changes_stays_in_bounds() {
    let mut rng = StdRng::seed_from_u64(6);
    let mut params = PhraseDataParameters::default();
    params.bpm.mutation_probability = Probability::always();
    params.bpm.min = 100;
    params.bpm.max = 104;
    params.bpm.max_delta_per_phrase = 3;
    let mut builder = PhraseDataBuilder::default();
    let mut seen_change = false;
    let mut last = None;
    for _ in 0..200 {
        builder.fill(&mut rng, &params);
        let bpm = builder.build_header().bpm;
        assert!((100..=104).contains(&bpm));
        if let Some(before) = last {
            let delta = if bpm > before { bpm - before } else { before - bpm };
            assert!(delta <= 3);
            seen_change = seen_change || delta > 0;
        }
        last = Some(bpm);
    }
    assert!(seen_change);
}

#[test]
fn tempo_change_is_clamped() {
    let params = BpmParameters {
        min: 50,
        max: 150,
        max_delta_per_phrase: 10,
        mutation_probability: Probability::never(),
    };
    assert_eq!(params.change(100, 7, true), 107);
    assert_eq!(params.change(100, 7, false), 93);
    assert_eq!(params.change(148, 7, true), 150);
    assert_eq!(params.change(52, 7, false), 50);
    assert_eq!(params.change(65535, 7, true), 150);
    assert_eq!(params.change(3, 7, false), 50);
    assert_eq!(params.change(200, 0, false), 200);
    let default = BpmParameters::default();
    assert_eq!((default.min, default.max, default.max_delta_per_phrase), (50, 150, 10));
}

#[test]
fn coins_decide() {
    assert_eq!(KeyKindParameters::from_coin(true), KeyKind::Major);
    assert_eq!(KeyKindParameters::from_coin(false), KeyKind::Minor);
    assert_eq!(ChordProgressionParameters::cadence(true), Chord::IV);
    assert_eq!(ChordProgressionParameters::cadence(false), Chord::V);
}

#[test]
fn chords_from_numbers() {
    let all = [Chord::I, Chord::II, Chord::III, Chord::IV, Chord::V, Chord::VI];
    for (i, chord) in all.iter().enumerate() {
        assert_eq!(Chord::from(i as u8), *chord);
        assert_eq!(chord.to_degree() as usize, i);
    }
    assert_eq!(Chord::from(6), Chord::I);
    assert_eq!(Chord::from(255), Chord::I);
}

#[test]
fn progressions_have_their_shape() {
    assert!(ChordProgression::new(vec![Chord::I, Chord::IV, Chord::I]).is_some());
    assert!(ChordProgression::new(vec![Chord::I, Chord::II, Chord::VI, Chord::V, Chord::I]).is_some());
    assert!(ChordProgression::new(vec![Chord::I, Chord::I]).is_none());
    assert!(ChordProgression::new(vec![]).is_none());
    assert!(ChordProgression::new(vec![Chord::II, Chord::IV, Chord::I]).is_none());
    assert!(ChordProgression::new(vec![Chord::I, Chord::IV, Chord::V]).is_none());
    assert!(ChordProgression::new(vec![Chord::I, Chord::VI, Chord::I]).is_none());
    assert!(ChordProgression::new(vec![Chord::I; 300]).is_none());
    let p = ChordProgression::new(vec![Chord::I, Chord::III, Chord::V, Chord::I]).unwrap();
    assert_eq!(p.chords().len(), 4);
    assert_eq!(p.chords()[1], Chord::III);
    assert_eq!(p.chords(), vec![Chord::I, Chord::III, Chord::V, Chord::I]);
    assert_eq!(p.clone().chords(), p.chords());
    assert_eq!(p.duplicate().chords(), p.chords());
}

#[test]
fn time_signatures_leave_room_for_three_measures() {
    assert!(TimeSignature::new(0, SignatureDenominator::Quarter).is_none());
    assert!(TimeSignature::new(21, SignatureDenominator::Quarter).is_some());
    assert!(TimeSignature::new(22, SignatureDenominator::Quarter).is_none());
    assert!(TimeSignature::new(42, SignatureDenominator::Eighth).is_some());
    assert!(TimeSignature::new(43, SignatureDenominator::Eighth).is_none());
    assert!(TimeSignature::new(85, SignatureDenominator::Sixteenth).is_some());
    assert!(TimeSignature::new(86, SignatureDenominator::Sixteenth).is_none());
    let t = TimeSignature::new(6, SignatureDenominator::Eighth).unwrap();
    assert_eq!(t.numerator(), 6);
    assert_eq!(t.denominator(), SignatureDenominator::Eighth);
    assert_eq!(SignatureDenominator::Quarter.to_ppqn(), 192);
    assert_eq!(SignatureDenominator::Eighth.to_ppqn(), 96);
    assert_eq!(SignatureDenominator::Sixteenth.to_ppqn(), 48);
    assert_eq!(SignatureDenominator::Quarter.max_beats(), 64);
    assert_eq!(SignatureDenominator::Eighth.max_beats(), 128);
    assert_eq!(SignatureDenominator::Sixteenth.max_beats(), 256);
}

#[test]
fn most_measures_of_a_signature() {
    let params = NumMeasuresParameters::default();
    let quarter = |n| TimeSignature::new(n, SignatureDenominator::Quarter).unwrap();
    assert_eq!(params.max_meas(quarter(3)), 16);
    assert_eq!(params.max_meas(quarter(4)), 16);
    assert_eq!(params.max_meas(quarter(5)), 12);
    assert_eq!(params.max_meas(quarter(6)), 10);
    assert_eq!(params.max_meas(quarter(21)), 3);
    assert_eq!(params.max_meas(TimeSignature::new(1, SignatureDenominator::Sixteenth).unwrap()), 16);
}

#[test]
fn scales_belong_to_a_family() {
    assert!(Scale::new(KeyKind::Major, 10).is_some());
    assert!(Scale::new(KeyKind::Major, 11).is_none());
    assert!(Scale::new(KeyKind::Minor, 15).is_some());
    assert!(Scale::new(KeyKind::Minor, 16).is_none());
    let s = Scale::new(KeyKind::Minor, 7).unwrap();
    assert_eq!(s.family(), KeyKind::Minor);
    assert_eq!(s.index(), 7);
    assert_eq!(s.intervals(), &[0, 3, 7]);
    assert!(ScaleParameters::scale_valid(s, KeyKind::Minor));
    assert!(!ScaleParameters::scale_valid(s, KeyKind::Major));
    assert_eq!(Scale::new(KeyKind::Major, 0).unwrap().intervals(), &[0, 2, 4, 5, 7, 9, 11]);
}

#[test]
fn leads_that_stay_leave_room_for_the_chorus() {
    let params = VoicesParameters::default();
    assert_eq!(params.settle_leads(3, 2), 3);
    assert_eq!(params.settle_leads(7, 2), 6);
    assert_eq!(params.settle_leads(200, 8), 0);
    assert_eq!(params.settle_leads(0, 0), 0);
}

#[test]
fn chances_are_ratios() {
    assert!(Probability::new(1, 10).is_some());
    assert!(Probability::new(0, 1).is_some());
    assert!(Probability::new(7, 7).is_some());
    assert!(Probability::new(1, 0).is_none());
    assert!(Probability::new(0, 0).is_none());
    assert!(Probability::new(8, 7).is_none());
    assert_eq!(Probability::new(0, 1), Some(Probability::never()));
    assert_eq!(Probability::new(1, 1), Some(Probability::always()));
}

#[test]
fn certain_trials_are_certain() {
    let mut rng = StdRng::seed_from_u64(1);
    for _ in 0..1000 {
        assert!(!Probability::never().trial(&mut rng));
        assert!(Probability::always().trial(&mut rng));
        assert!(!Probability::new(0, 5).unwrap().trial(&mut rng));
        assert!(Probability::new(5, 5).unwrap().trial(&mut rng));
    }
    let half = Probability::new(1, 2).unwrap();
    let hits = (0..1000).filter(|_| half.trial(&mut rng)).count();
    assert!(hits > 300 && hits < 700);
    let heads = (0..1000).filter(|_| coin(&mut rng)).count();
    assert!(heads > 300 && heads < 700);
}

#[test]
fn picks_stay_within_their_bounds() {
    let mut rng = StdRng::seed_from_u64(2);
    let mut seen = [false; 7];
    for _ in 0..1000 {
        let v = pick_between(&mut rng, 10, 16);
        assert!((10..=16).contains(&v));
        seen[(v - 10) as usize] = true;
        let w = pick_below(&mut rng, 3, 6);
        assert!((3..6).contains(&w));
    }
    assert!(seen.iter().all(|s| *s));
    assert_eq!(pick_between(&mut rng, 9, 9), 9);
    assert_eq!(pick_between(&mut rng, 0, 0), 0);
    assert_eq!(pick_between(&mut rng, 12, 4), 4);
    assert_eq!(pick_below(&mut rng, 4, 5), 4);
    assert_eq!(pick_below(&mut rng, 5, 5), 5);
    assert_eq!(pick_below(&mut rng, 9, 2), 2);
    assert_eq!(pick_between(&mut rng, u32::MAX, u32::MAX), u32::MAX);
}

#[test]
fn resolutions_need_a_choice_that_lasts() {
    let p = Probability::never();
    assert!(VoiceResolutionParameters::new(vec![], p).is_none());
    assert!(VoiceResolutionParameters::new(vec![Length::Quarter, Length::PPQNCount(0)], p).is_none());
    assert!(VoiceResolutionParameters::new(vec![Length::QuarterCount(0)], p).is_none());
    assert!(VoiceResolutionParameters::new(vec![Length::Quarter, Length::Half], p).is_some());
}

#[test]
fn rhythms_sit_on_the_steps_of_their_resolution() {
    for seed in 0..50u64 {
        let mut rng = StdRng::seed_from_u64(seed);
        let params = PhraseDataParameters::default();
        let mut builder = PhraseDataBuilder::default();
        builder.fill(&mut rng, &params);
        for voice in builder.lead_voices.iter() {
            // A lead voice of the defaults has four to eight hits on a
            // pattern of eight to sixteen slots, laid over at least nine
            // steps.
            assert!(voice.rhythm.len() >= 4);
            let step = voice.rhythm[0].ppqn_len();
            assert!([64, 128, 96, 192].contains(&step));
            for note in voice.rhythm.iter() {
                assert_eq!(note.ppqn_len(), step);
                assert_eq!(note.ppqn_start() % step, 0);
            }
            // The first slot of a pattern with a hit is a hit.
            assert_eq!(voice.rhythm[0].ppqn_start(), 0);
        }
        for voice in builder.chorus_voices.iter() {
            for note in voice.rhythm.iter() {
                assert!([256, 384, 768].contains(&note.ppqn_len()));
                assert_eq!(note.ppqn_start() % note.ppqn_len(), 0);
            }
        }
    }
}

#[test]
fn patterns_keep_to_their_bounds() {
    let mut short_phrase_seen = false;
    for seed in 0..300u64 {
        let mut rng = StdRng::seed_from_u64(seed);
        let params = PhraseDataParameters::default();
        let mut builder = PhraseDataBuilder::default();
        builder.fill(&mut rng, &params);
        let header = builder.build_header();
        assert_eq!(header.bpm(), header.bpm);
        let total = header.num_measures() as u32
            * header.time_signature().numerator() as u32
            * PPQN_QUARTER as u32;
        assert_eq!(builder.lead_voices().len(), builder.lead_voices.len());
        assert_eq!(builder.chorus_voices().len(), builder.chorus_voices.len());
        for voice in builder.chorus_voices().iter() {
            let res = voice.resolution().unwrap();
            assert!([Length::TripletHalf, Length::Half, Length::Whole].contains(&res));
            let steps = total / res.to_ppqn() as u32;
            let (hits, slots) = voice.pattern().unwrap();
            assert!(slots >= 1 && slots <= 16);
            assert!(slots as u32 <= steps);
            assert!(hits <= slots);
            if steps < 8 {
                // Fewer steps than the fewest slots asked: as many slots
                // as steps, and every one a hit.
                short_phrase_seen = true;
                assert_eq!(slots as u32, steps);
                assert_eq!(hits, slots);
                assert_eq!(voice.rhythm().len() as u32, steps);
            } else {
                assert!(slots >= 8 && hits >= 8);
            }
            assert_eq!(voice.rhythm(), &voice.rhythm);
        }
        for voice in builder.lead_voices().iter() {
            let res = voice.resolution().unwrap();
            let steps = total / res.to_ppqn() as u32;
            let (hits, slots) = voice.pattern().unwrap();
            assert!((8..=16).contains(&slots));
            assert!((4..=8).contains(&hits));
            assert!(slots as u32 <= steps);
        }
    }
    assert!(short_phrase_seen);
}
