use minijam::scale::major_chord;
use minijam::scale::major_scale;
use minijam::scale::minor_chord;
use minijam::scale::minor_scale;
use minijam::scale::Note;
use minijam::scale::Pitch;
use minijam::scale::Semitones;
use minijam::scale::AEOLIAN_INTERVALS;
use minijam::scale::IONIAN_INTERVALS;
use minijam::scale::MAJOR_PENTATONIC_INTERVALS;
use minijam::scale::MAJOR_SCALE_COUNT;
use minijam::scale::MINOR_SCALE_COUNT;
use minijam::scale::PITCHES_PER_OCTAVE;

#[test]
fn pitch_numbers_round_trip() {
    let all = [
        Pitch::C,
        Pitch::CSharp,
        Pitch::D,
        Pitch::DSharp,
        Pitch::E,
        Pitch::F,
        Pitch::FSharp,
        Pitch::G,
        Pitch::GSharp,
        Pitch::A,
        Pitch::ASharp,
        Pitch::B,
    ];
    assert_eq!(all.len(), PITCHES_PER_OCTAVE);
    for (i, pitch) in all.iter().enumerate() {
        let n: u8 = (*pitch).into();
        assert_eq!(n as usize, i);
        assert_eq!(pitch.semitones_from_c() as usize, i);
        assert_eq!(Pitch::from(i as u8), *pitch);
        assert_eq!(Pitch::from(i as u8 + 12), *pitch);
        assert_eq!(Pitch::from_semitones(i as u8 + 24), *pitch);
    }
    assert_eq!(Pitch::from(255), Pitch::DSharp);
}

#[test]
fn frequencies_double_with_the_octave() {
    assert_eq!(Pitch::A.root_frequency(), 27_500);
    assert_eq!(Pitch::A.freq_with_octave(0), 27_500);
    assert_eq!(Pitch::A.freq_with_octave(4), 440_000);
    assert_eq!(Pitch::C.freq_with_octave(4), 261_600);
    assert_eq!(Pitch::B.freq_with_octave(10), 30_870 * 1024);
    assert_eq!(Note { pitch: Pitch::A, octave: 4 }.freq_millihertz(), 440_000);
    // Beyond the reach of 32 bits the frequency stays at the top.
    assert_eq!(Pitch::C.freq_with_octave(18), 16_350 << 18);
    assert_eq!(Pitch::CSharp.freq_with_octave(18), u32::MAX);
    assert_eq!(Pitch::C.freq_with_octave(19), u32::MAX);
    assert_eq!(Pitch::C.freq_with_octave(255), u32::MAX);
}

#[test]
fn notes_move_by_semitones() {
    let a4 = Note { pitch: Pitch::A, octave: 4 };
    assert_eq!(a4.transposed(Semitones(3)), Some(Note { pitch: Pitch::C, octave: 5 }));
    assert_eq!(a4.transposed(Semitones(-10)), Some(Note { pitch: Pitch::B, octave: 3 }));
    assert_eq!(a4.transposed(Semitones(0)), Some(a4));
    let low = Note { pitch: Pitch::C, octave: 0 };
    assert_eq!(low.transposed(Semitones(-1)), None);
    let high = Note { pitch: Pitch::G, octave: 10 };
    assert_eq!(high.transposed(Semitones(1)), None);
    assert_eq!(high.transposed(Semitones(-127)), Some(low));
    assert_eq!(Note::from_semitone_index(60), Note { pitch: Pitch::C, octave: 5 });
}

#[test]
fn scale_tables() {
    assert_eq!(IONIAN_INTERVALS, [0, 2, 4, 5, 7, 9, 11]);
    assert_eq!(AEOLIAN_INTERVALS, [0, 2, 3, 5, 7, 8, 10]);
    assert_eq!(MAJOR_PENTATONIC_INTERVALS, [0, 2, 4, 7, 9]);
    assert_eq!(MAJOR_SCALE_COUNT, 11);
    assert_eq!(MINOR_SCALE_COUNT, 16);
    assert_eq!(major_scale(0), &IONIAN_INTERVALS);
    assert_eq!(major_scale(3), &[0, 4, 7]);
    assert_eq!(major_scale(10), &[0, 2, 5, 7, 9]);
    assert_eq!(minor_scale(0), &[0, 2, 3, 5, 7, 9, 10]);
    assert_eq!(minor_scale(2), &AEOLIAN_INTERVALS);
    assert_eq!(minor_scale(15), &[0, 3, 5, 7, 10]);
    for i in 0..MAJOR_SCALE_COUNT {
        assert!(major_scale(i).len() >= 3);
    }
    for i in 0..MINOR_SCALE_COUNT {
        assert!(minor_scale(i).len() >= 3);
    }
}

#[test]
fn chord_tables() {
    assert_eq!(major_chord(0), (Semitones(0), &[0i8, 4, 7][..]));
    assert_eq!(major_chord(1), (Semitones(2), &[0i8, 3, 7][..]));
    assert_eq!(major_chord(3), (Semitones(5), &[0i8, 4, 7][..]));
    assert_eq!(major_chord(4), (Semitones(7), &[0i8, 4, 7][..]));
    assert_eq!(major_chord(5), (Semitones(9), &[0i8, 3, 7][..]));
    assert_eq!(minor_chord(0), (Semitones(0), &[0i8, 3, 7][..]));
    assert_eq!(minor_chord(1), (Semitones(2), &[0i8, 3, 6][..]));
    assert_eq!(minor_chord(4), (Semitones(7), &[0i8, 4, 7][..]));
    assert_eq!(minor_chord(5), (Semitones(8), &[0i8, 3, 7][..]));
}
