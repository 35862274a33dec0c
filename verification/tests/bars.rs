use minijam::bars::BarBuf;
use minijam::bars::BarError;
use minijam::encoding::EncNote;
use minijam::encoding::EncPitch;
use minijam::kcint::EncError;
use minijam::ppqn::Length;
use minijam::ppqn::PPQN_MAX;
use minijam::ppqn::PPQN_QUARTER;
use minijam::scale::Pitch;

fn collect(bbuf: &BarBuf) -> Vec<EncNote> {
    let mut walk = bbuf.notes();
    let mut out = Vec::new();
    while let Some(note) = walk.next() {
        out.push(note);
    }
    out
}

#[test]
fn showcase() {
    // Length, Pitch, Octave
    let notes = [
        (Length::Quarter, Pitch::F, 3),
        (Length::Eighth, Pitch::A, 4),
        (Length::Eighth, Pitch::C, 4),
        (Length::TripletQuarter, Pitch::A, 3),
        (Length::TripletQuarter, Pitch::D, 4),
        (Length::TripletQuarter, Pitch::E, 5),
    ];

    let bbuf = BarBuf::from_notes_simple(&notes).unwrap();
    println!("len: {}", bbuf.bytes().len());
    println!("[");
    bbuf.bytes().chunks(4).for_each(|ch| {
        let mut line = format!("  ");
        ch.iter().for_each(|b| line += &format!("0x{:02X}, ", b));
        println!("{}", line);
    });
    println!("]\n");

    println!(" start | len  |  freq");
    println!(" ppqn  | ppqn |   Hz");
    println!("-------|------|--------");
    for note in collect(&bbuf) {
        println!(
            " {:04}  | {:04} | {:04.2}",
            note.ppqn_start(),
            note.ppqn_len(),
            (note.pitch().frequency() as f32) / 1000.0,
        );
    }
}

#[test]
fn iter_test() {
    let notes = [
        Pitch::C,
        Pitch::CSharp,
        Pitch::D,
        Pitch::DSharp,
        Pitch::E,
        Pitch::F,
        Pitch::FSharp,
        Pitch::G,
        Pitch::GSharp,
        Pitch::A,
        Pitch::ASharp,
        Pitch::B,
    ];

    let mut bbuf = BarBuf::new();
    for (i, note) in notes.iter().enumerate() {
        bbuf.push_note_simple(Length::Quarter, *note, (i as u8) % 4)
            .unwrap();
    }

    let out = collect(&bbuf);
    assert_eq!(out.len(), notes.len());

    for (i, (act_note, exp_note)) in out.iter().zip(notes.iter()).enumerate() {
        let exp_pitch = EncPitch::from_pitch_octave(*exp_note, (i as u8) % 4).unwrap();
        assert_eq!(act_note.pitch(), exp_pitch);
        assert_eq!(
            act_note.ppqn_start(),
            (i as u16) * Length::Quarter.to_ppqn()
        );
        assert_eq!(act_note.ppqn_len(), Length::Quarter.to_ppqn());
    }
}

#[test]
fn from_iter() {
    let simps = [
        (Length::Quarter, Pitch::F, 4),
        (Length::Quarter, Pitch::A, 4),
        (Length::Quarter, Pitch::C, 4),
        (Length::Quarter, Pitch::E, 4),
    ];

    let bbuf = BarBuf::from_notes_simple(&simps).unwrap();
    assert_eq!(bbuf.note_count(), 4);
}

#[test]
fn buf_smoke() {
    let mut bbuf = BarBuf::new();
    bbuf.push_note_simple(Length::Quarter, Pitch::C, 4).unwrap();

    assert_eq!(bbuf.ppqn_idx(), PPQN_QUARTER);
    assert_eq!(bbuf.note_count(), 1);
    assert_eq!(bbuf.bytes().len(), 3);
}

#[test]
fn buf_fill() {
    let cases = [
        (Length::SixtyFourth, 64 * 16),
        (Length::Sixteenth, 16 * 16),
        (Length::Eighth, 8 * 16),
        (Length::Quarter, 4 * 16),
        (Length::TripletQuarter, 6 * 16),
        (Length::Whole, 16),
        (Length::QuarterCount(16 * 4), 1),
    ];

    for (len, n) in cases {
        println!("notes: {len:?}, {n}");
        let mut bbuf = BarBuf::new();
        pushn_notes(&mut bbuf, len, n);
        assert_eq!(bbuf.note_count(), n);
        assert_eq!(bbuf.ppqn_idx(), PPQN_MAX);

        let res = bbuf.push_note_simple(Length::SixtyFourth, Pitch::C, 4);
        assert_eq!(res, Err(BarError::BarFull));
    }

    for (len, n) in cases {
        println!("rests: {len:?}, {n}");
        let mut bbuf = BarBuf::new();
        pushn_rests(&mut bbuf, len, n);
        assert_eq!(bbuf.note_count(), 0);
        assert_eq!(bbuf.ppqn_idx(), PPQN_MAX);

        let res = bbuf.push_rest_simple(Length::SixtyFourth);
        assert_eq!(res, Err(BarError::BarFull));
    }
}

fn pushn_notes(bbuf: &mut BarBuf, len: Length, ct: usize) {
    for _ in 0..ct {
        bbuf.push_note_simple(len, Pitch::C, 4).unwrap();
    }
}

fn pushn_rests(bbuf: &mut BarBuf, len: Length, ct: usize) {
    for _ in 0..ct {
        bbuf.push_rest_simple(len).unwrap();
    }
}

#[test]
fn new_buffer_is_empty() {
    let bbuf = BarBuf::new();
    assert_eq!(bbuf.ppqn_idx(), 0);
    assert_eq!(bbuf.note_count(), 0);
    assert!(bbuf.bytes().is_empty());
    assert!(bbuf.notes().next().is_none());
    assert_eq!(bbuf.notes().size_hint(), (0, Some(0)));
}

#[test]
fn push_note_bytes_of_two_notes() {
    let mut bbuf = BarBuf::new();
    bbuf.push_note_simple(Length::Half, Pitch::C, 5).unwrap();
    bbuf.push_note_simple(Length::Quarter, Pitch::D, 5).unwrap();
    // C5 at tick 0 for a half; D5 at tick 384, the fourth eighth, for a quarter.
    assert_eq!(bbuf.bytes(), &[0x3C, 0x00, 0x41, 0x3E, 0x04, 0x40]);
    assert_eq!(bbuf.ppqn_idx(), 576);
}

#[test]
fn rest_leaves_gap_and_no_bytes() {
    let mut bbuf = BarBuf::new();
    bbuf.push_note_simple(Length::Quarter, Pitch::E, 4).unwrap();
    let bytes_before = bbuf.bytes().to_vec();
    bbuf.push_rest_simple(Length::Quarter).unwrap();
    assert_eq!(bbuf.bytes(), &bytes_before[..]);
    assert_eq!(bbuf.note_count(), 1);
    assert_eq!(bbuf.ppqn_idx(), 2 * PPQN_QUARTER);
    bbuf.push_note_simple(Length::Quarter, Pitch::D, 4).unwrap();
    let notes = collect(&bbuf);
    assert_eq!(notes.len(), 2);
    assert_eq!(notes[0].ppqn_start(), 0);
    assert_eq!(notes[1].ppqn_start(), 2 * PPQN_QUARTER);
}

#[test]
fn push_errors_in_their_order() {
    let mut bbuf = BarBuf::new();
    // pitch out of range
    assert_eq!(
        bbuf.push_note_simple(Length::Quarter, Pitch::A, 10),
        Err(BarError::EncodingErr(EncError::ValueOutOfBounds))
    );
    // pitch out of range comes before a length that is too long
    assert_eq!(
        bbuf.push_note_simple(Length::PPQNCount(PPQN_MAX + 1), Pitch::A, 10),
        Err(BarError::EncodingErr(EncError::ValueOutOfBounds))
    );
    // too long for the timeline
    assert_eq!(
        bbuf.push_note_simple(Length::PPQNCount(PPQN_MAX + 1), Pitch::C, 4),
        Err(BarError::ExceededBarLength)
    );
    assert_eq!(
        bbuf.push_note_simple(Length::PPQNCount(u16::MAX), Pitch::C, 4),
        Err(BarError::ExceededBarLength)
    );
    // no length
    assert_eq!(
        bbuf.push_note_simple(Length::PPQNCount(0), Pitch::C, 4),
        Err(BarError::EncodingErr(EncError::ValueOutOfBounds))
    );
    // nothing was taken
    assert_eq!(bbuf.note_count(), 0);
    assert_eq!(bbuf.ppqn_idx(), 0);
    assert!(bbuf.bytes().is_empty());

    bbuf.push_note_simple(Length::QuarterCount(63), Pitch::C, 4).unwrap();
    assert_eq!(
        bbuf.push_note_simple(Length::Half, Pitch::C, 4),
        Err(BarError::ExceededBarLength)
    );
    assert_eq!(bbuf.push_rest_simple(Length::Half), Err(BarError::ExceededBarLength));
    assert_eq!(bbuf.note_count(), 1);
    assert_eq!(bbuf.bytes().len(), 3);
    bbuf.push_rest_simple(Length::Quarter).unwrap();
    assert_eq!(bbuf.ppqn_idx(), PPQN_MAX);
    // a full buffer says so before it looks at the note
    assert_eq!(bbuf.push_note_simple(Length::Quarter, Pitch::A, 10), Err(BarError::BarFull));
    assert_eq!(bbuf.push_rest_simple(Length::PPQNCount(0)), Err(BarError::BarFull));
}

#[test]
fn rest_of_no_length_is_taken() {
    let mut bbuf = BarBuf::new();
    bbuf.push_rest_simple(Length::PPQNCount(0)).unwrap();
    assert_eq!(bbuf.ppqn_idx(), 0);
}

#[test]
fn from_notes_simple_stops_at_first_refusal() {
    let items = [
        (Length::Quarter, Pitch::C, 4),
        (Length::Quarter, Pitch::B, 10),
        (Length::Quarter, Pitch::C, 4),
    ];
    assert!(matches!(
        BarBuf::from_notes_simple(&items),
        Err(BarError::EncodingErr(EncError::ValueOutOfBounds))
    ));
    let long = [(Length::QuarterCount(64), Pitch::C, 4), (Length::Quarter, Pitch::C, 4)];
    assert!(matches!(BarBuf::from_notes_simple(&long), Err(BarError::BarFull)));
    let empty: [(Length, Pitch, u8); 0] = [];
    assert_eq!(BarBuf::from_notes_simple(&empty).unwrap().note_count(), 0);
}

#[test]
fn bar_error_wraps_encoding_error() {
    assert_eq!(
        BarError::from(EncError::EndOfStream),
        BarError::EncodingErr(EncError::EndOfStream)
    );
}

#[test]
fn notes_walk_counts_down() {
    let mut bbuf = BarBuf::new();
    for _ in 0..3 {
        bbuf.push_note_simple(Length::Eighth, Pitch::G, 3).unwrap();
    }
    let mut walk = bbuf.notes();
    assert_eq!(walk.size_hint(), (3, Some(3)));
    assert!(walk.next().is_some());
    assert_eq!(walk.size_hint(), (2, Some(2)));
    assert!(walk.next().is_some());
    assert!(walk.next().is_some());
    assert_eq!(walk.size_hint(), (0, Some(0)));
    assert!(walk.next().is_none());
    assert!(walk.next().is_none());
    assert_eq!(walk.size_hint(), (0, Some(0)));
}

#[test]
fn mary_had_a_little_lamb() {
    let e = Some((Pitch::E, 4));
    let d = Some((Pitch::D, 4));
    let c = Some((Pitch::C, 4));
    let q = Length::Quarter;
    let mary = [
        (q, e), (q, d), (q, c), (q, d), (q, e), (q, e), (q, e), (q, None),
        (q, d), (q, d), (q, d), (q, None),
        (q, e), (q, e), (q, e), (q, None),
        (q, e), (q, d), (q, c), (q, d), (q, e), (q, e), (q, e), (q, e),
        (q, d), (q, d), (q, e), (q, d),
        (Length::Half, c),
    ];
    let mut bbuf = BarBuf::new();
    let mut expected: Vec<(u8, u16, u16)> = Vec::new();
    let mut at: u16 = 0;
    for (len, note) in mary {
        match note {
            Some((pitch, oct)) => {
                bbuf.push_note_simple(len, pitch, oct).unwrap();
                let tone = EncPitch::from_pitch_octave(pitch, oct).unwrap().tone();
                expected.push((tone, at, len.to_ppqn()));
            }
            None => bbuf.push_rest_simple(len).unwrap(),
        }
        at += len.to_ppqn();
    }
    assert_eq!(mary.len(), 29);
    assert_eq!(bbuf.note_count(), 26);
    assert_eq!(bbuf.ppqn_idx(), 28 * 192 + 384);

    let notes = collect(&bbuf);
    assert_eq!(notes.len(), 26);
    for (note, (tone, start, len)) in notes.iter().zip(expected.iter()) {
        assert_eq!(note.pitch_tone_offset(), (*tone, 0));
        assert_eq!(note.ppqn_start(), *start);
        assert_eq!(note.ppqn_len(), *len);
    }
    assert_eq!(notes[0].ppqn_start(), 0);
    assert_eq!(notes[1].ppqn_start(), 192);
    assert_eq!(notes[2].ppqn_start(), 384);
    // The eighth entry is a rest: the note behind it starts a quarter later.
    assert_eq!(notes[7].ppqn_start(), 8 * 192);

    // Decoding the bytes and encoding the notes again gives the same bytes.
    let mut again: Vec<u8> = Vec::new();
    let mut rest: &[u8] = bbuf.bytes();
    while !rest.is_empty() {
        let (note, after) = EncNote::take_from_slice(rest).unwrap();
        let mut scratch = [0u8; 6];
        let room = note.write_to_slice(&mut scratch).unwrap().len();
        again.extend_from_slice(&scratch[..6 - room]);
        rest = after;
    }
    assert_eq!(again.as_slice(), bbuf.bytes());
}

#[test]
fn twenty_nine_notes_in_a_row() {
    // Twenty-eight quarters and a half, every one a note.
    let tune = [
        Pitch::E, Pitch::D, Pitch::C, Pitch::D, Pitch::E, Pitch::E, Pitch::E, Pitch::E,
        Pitch::D, Pitch::D, Pitch::D, Pitch::D, Pitch::E, Pitch::G, Pitch::G, Pitch::G,
        Pitch::E, Pitch::D, Pitch::C, Pitch::D, Pitch::E, Pitch::E, Pitch::E, Pitch::E,
        Pitch::D, Pitch::D, Pitch::E, Pitch::D, Pitch::C,
    ];
    assert_eq!(tune.len(), 29);
    let mut bbuf = BarBuf::new();
    for (i, pitch) in tune.iter().enumerate() {
        let len = if i == 28 { Length::Half } else { Length::Quarter };
        bbuf.push_note_simple(len, *pitch, 4).unwrap();
    }
    assert_eq!(bbuf.note_count(), 29);
    assert_eq!(bbuf.bytes().len(), 29 * 3);
    let notes = collect(&bbuf);
    assert_eq!(notes.len(), 29);
    for (i, (note, pitch)) in notes.iter().zip(tune.iter()).enumerate() {
        assert_eq!(note.ppqn_start(), i as u16 * PPQN_QUARTER);
        assert_eq!(note.pitch(), EncPitch::from_pitch_octave(*pitch, 4).unwrap());
        assert_eq!(note.ppqn_len(), if i == 28 { 384 } else { 192 });
    }
    // The same bytes, read by another buffer of the same notes.
    let again = bbuf.clone();
    assert_eq!(again.bytes(), bbuf.bytes());
    assert_eq!(again.note_count(), 29);
    assert_eq!(again.ppqn_idx(), 30 * PPQN_QUARTER);
}
