use minijam::queue::TRACK_DEPTH;
use minijam::sample::StereoSample;
use minijam::scale::Note;
use minijam::scale::Pitch;
use minijam::tones::Mix;
use minijam::tones::ToneKind;
use minijam::track::Track;

fn silence(len: usize) -> Vec<StereoSample> {
    vec![StereoSample { left: 0, right: 0 }; len]
}

fn a4() -> Note {
    Note { pitch: Pitch::A, octave: 4 }
}

#[test]
fn notes_must_come_in_order() {
    let n1 = a4();
    let n2 = Note { pitch: Pitch::C, octave: 5 };
    let mut track = Track::new(44100);
    assert_eq!(track.add_note(ToneKind::Sine, n1, 0, 1000), Ok(()));
    assert_eq!(track.add_note(ToneKind::Sine, n2, 500, 1500), Err(()));
    assert_eq!(track.add_note(ToneKind::Sine, n2, 1000, 2000), Ok(()));
    assert_eq!(track.add_note(ToneKind::Sine, n2, 1999, 3000), Err(()));
    assert_eq!(track.add_note(ToneKind::Sine, n2, 2000, 3000), Ok(()));
}

#[test]
fn a_note_must_end_after_it_starts() {
    let mut track = Track::new(44100);
    assert_eq!(track.add_note(ToneKind::Saw, a4(), 10, 10), Err(()));
    assert_eq!(track.add_note(ToneKind::Saw, a4(), 10, 9), Err(()));
    assert!(track.is_done());
    assert_eq!(track.add_note_freq(ToneKind::Saw, 440_000, 10, 11), Ok(()));
    assert!(!track.is_done());
}

#[test]
fn the_queue_has_its_depth() {
    let mut track = Track::new(44100);
    for i in 0..TRACK_DEPTH as u32 {
        assert_eq!(track.add_note(ToneKind::Square, a4(), i * 10, i * 10 + 10), Ok(()));
    }
    assert_eq!(track.add_note(ToneKind::Square, a4(), 5000, 6000), Err(()));
    // One block starts the first note and makes room for one more.
    let mut buf = silence(32);
    track.fill_stereo_samples(&mut buf, Mix::Div1);
    track.fill_stereo_samples(&mut buf, Mix::Div1);
    assert_eq!(track.add_note(ToneKind::Square, a4(), 5000, 6000), Ok(()));
    assert_eq!(track.add_note(ToneKind::Square, a4(), 6000, 7000), Err(()));
}

#[test]
fn a_note_fades_in_sounds_and_fades_out() {
    let mut track = Track::new(44100);
    // A square of one hertz stays high for the whole test.
    track.add_note_freq(ToneKind::Square, 1_000, 0, 200).unwrap();
    assert_eq!(track.cur_samp(), 0);
    assert_eq!(track.sample_rate(), 44100);

    // The note starts at sample 0, and the count stands at 0: not begun.
    let mut buf = silence(64);
    track.fill_stereo_samples(&mut buf, Mix::Div1);
    assert!(buf.iter().all(|s| s.left == 0 && s.right == 0));
    assert_eq!(track.cur_samp(), 64);
    assert!(!track.is_done());

    // Begun: it fades in over this block.
    let mut buf = silence(64);
    track.fill_stereo_samples(&mut buf, Mix::Div1);
    for (k, s) in buf.iter().enumerate() {
        assert_eq!(s.left, ((32767 * (k as i32 / 2 + 1)) >> 5) as i16);
        assert_eq!(s.left, s.right);
    }
    assert_eq!(track.cur_samp(), 128);

    // It goes on: 128 + 64 does not pass 200.
    let mut buf = silence(64);
    track.fill_stereo_samples(&mut buf, Mix::Div2);
    assert!(buf.iter().all(|s| s.left == 16383 && s.right == 16383));
    assert_eq!(track.cur_samp(), 192);
    assert!(!track.is_done());

    // 192 + 64 passes 200: it fades out and is gone.
    let mut buf = silence(64);
    track.fill_stereo_samples(&mut buf, Mix::Div1);
    for (k, s) in buf.iter().enumerate() {
        assert_eq!(s.left, ((32767 * (32 - k as i32 / 2)) >> 5) as i16);
    }
    assert!(track.is_done());

    // Nothing is left to play.
    let mut buf = silence(8);
    track.fill_stereo_samples(&mut buf, Mix::Div1);
    assert!(buf.iter().all(|s| s.left == 0));
    assert_eq!(track.cur_samp(), 264);
}

#[test]
fn the_next_note_waits_for_the_call_after_a_fade_out() {
    let mut track = Track::new(44100);
    track.add_note_freq(ToneKind::Square, 1_000, 0, 150).unwrap();
    track.add_note_freq(ToneKind::Square, 1_000, 150, 400).unwrap();
    let mut buf = silence(64);
    track.fill_stereo_samples(&mut buf, Mix::Div1); // silence, count 64
    track.fill_stereo_samples(&mut buf, Mix::Div1); // first fades in, count 128
    let mut buf = silence(64);
    track.fill_stereo_samples(&mut buf, Mix::Div1); // 128 + 64 > 150: fades out
    assert_eq!(buf[0].left, 32767);
    assert_eq!(buf[63].left, 1023);
    assert!(!track.is_done());
    let mut buf = silence(64);
    track.fill_stereo_samples(&mut buf, Mix::Div1); // second fades in
    assert_eq!(buf[0].left, 1023);
    assert_eq!(buf[63].left, 32767);
}

#[test]
fn a_note_that_has_run_out_is_dropped_and_the_next_begins() {
    let mut track = Track::new(44100);
    track.add_note_freq(ToneKind::Square, 1_000, 0, 1000).unwrap();
    track.add_note_freq(ToneKind::Square, 1_000, 1000, 5000).unwrap();
    let mut buf = silence(512);
    track.fill_stereo_samples(&mut buf, Mix::Div1); // silence, count 512
    track.fill_stereo_samples(&mut buf, Mix::Div1); // fades in; 512 + 512 > 1000 is not asked yet
    let mut long = silence(400);
    track.fill_stereo_samples(&mut long, Mix::Div1); // 1024 > 1000: dropped, the next fades in
    assert_eq!(long[0].left, ((32767 * 1) >> 5) as i16);
    assert_eq!(long[399].left, ((32767 * 34) >> 5) as i16);
    assert!(!track.is_done());
}

#[test]
fn mixing_adds_to_what_is_there() {
    let mut one = Track::new(44100);
    let mut two = Track::new(44100);
    one.add_note_freq(ToneKind::Square, 1_000, 0, 100_000).unwrap();
    two.add_note_freq(ToneKind::Square, 1_000, 0, 100_000).unwrap();
    let mut buf = silence(32);
    for _ in 0..3 {
        buf = silence(32);
        one.fill_stereo_samples(&mut buf, Mix::Div4);
        two.fill_stereo_samples(&mut buf, Mix::Div8);
    }
    assert!(buf.iter().all(|s| s.left == 8191 + 4095 && s.right == 8191 + 4095));
}

#[test]
fn reset_forgets_everything() {
    let mut track = Track::new(8000);
    track.add_note(ToneKind::Sine, a4(), 0, 100).unwrap();
    track.add_note(ToneKind::Sine, a4(), 100, 200).unwrap();
    let mut buf = silence(32);
    track.fill_stereo_samples(&mut buf, Mix::Div1);
    track.fill_stereo_samples(&mut buf, Mix::Div1);
    assert!(!track.is_done());
    track.reset();
    assert!(track.is_done());
    assert_eq!(track.cur_samp(), 0);
    assert_eq!(track.sample_rate(), 8000);
    // After a reset the order starts anew.
    assert_eq!(track.add_note(ToneKind::Sine, a4(), 0, 50), Ok(()));
}

#[test]
fn add_note_uses_the_frequency_of_the_note() {
    // A in octave four is 440 Hz: the saw climbs by 653 per sample at 44100.
    let mut track = Track::new(44100);
    track.add_note(ToneKind::Saw, a4(), 0, 10_000).unwrap();
    let mut buf = silence(32);
    track.fill_stereo_samples(&mut buf, Mix::Div1);
    let mut buf = silence(32);
    track.fill_stereo_samples(&mut buf, Mix::Div1); // fade in, samples 0..32 of the saw
    let mut buf = silence(4);
    track.fill_stereo_samples(&mut buf, Mix::Div1);
    let step: i64 = 42_852_281;
    for (k, s) in buf.iter().enumerate() {
        let phase = ((32 + k as i64) * step) as i32;
        assert_eq!(s.left, (phase >> 16) as i16);
    }
}
