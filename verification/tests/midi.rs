use minijam::bars::BarBuf;
use minijam::midi::bar_to_midi;
use minijam::midi::bars_to_midi;
use minijam::midi::settings_events;
use minijam::midi::tempo;
use minijam::midi::track_events;
use minijam::midi::MidiMessage;
use minijam::midi::TrackEvent;
use minijam::midi::TRACK_NAME;
use minijam::ppqn::Length;
use minijam::scale::Pitch;

fn ev(delta: u32, channel: u8, message: MidiMessage) -> TrackEvent {
    TrackEvent { delta, channel, message }
}

fn little_bar() -> BarBuf {
    let mut bbuf = BarBuf::new();
    bbuf.push_note_simple(Length::Quarter, Pitch::C, 5).unwrap();
    bbuf.push_rest_simple(Length::Eighth).unwrap();
    bbuf.push_note_simple(Length::Half, Pitch::E, 5).unwrap();
    bbuf
}

#[test]
fn tempo_in_microseconds() {
    assert_eq!(tempo(150), 400_000);
    assert_eq!(tempo(120), 500_000);
    assert_eq!(tempo(4), 15_000_000);
    // Sixty million does not fit 24 bits: the top is cut off.
    assert_eq!(tempo(1), 60_000_000 % (1 << 24));
    assert_eq!(TRACK_NAME, *b"thursday");
}

#[test]
fn settings_track_events() {
    assert_eq!(
        settings_events(150),
        vec![
            ev(0, 0, MidiMessage::TrackName),
            ev(0, 0, MidiMessage::Tempo(400_000)),
            ev(0, 0, MidiMessage::TimeSignature(4, 2, 24, 8)),
            ev(0, 0, MidiMessage::EndOfTrack),
        ]
    );
}

#[test]
fn notes_become_on_and_off_events() {
    let track = track_events(&little_bar(), 3, Some(33));
    assert_eq!(
        track,
        vec![
            ev(0, 3, MidiMessage::Controller { controller: 0, value: 121 }),
            ev(0, 3, MidiMessage::Controller { controller: 32, value: 0 }),
            ev(0, 3, MidiMessage::ProgramChange { program: 33 }),
            ev(0, 3, MidiMessage::NoteOn { key: 60, vel: 80 }),
            ev(192, 3, MidiMessage::NoteOff { key: 60, vel: 64 }),
            ev(96, 3, MidiMessage::NoteOn { key: 64, vel: 80 }),
            ev(384, 3, MidiMessage::NoteOff { key: 64, vel: 64 }),
            ev(0, 3, MidiMessage::EndOfTrack),
        ]
    );
}

#[test]
fn an_empty_bar_has_opening_and_end() {
    let track = track_events(&BarBuf::new(), 0, None);
    assert_eq!(track.len(), 4);
    assert_eq!(track[2], ev(0, 0, MidiMessage::ProgramChange { program: 1 }));
    assert_eq!(track[3], ev(0, 0, MidiMessage::EndOfTrack));
    let loud = track_events(&BarBuf::new(), 0, Some(200));
    assert_eq!(loud[2], ev(0, 0, MidiMessage::ProgramChange { program: 72 }));
}

#[test]
fn a_file_has_settings_and_one_track_per_bar() {
    let a = little_bar();
    let b = BarBuf::new();
    let one = bar_to_midi(&a, 150, Some(1));
    assert_eq!(one.len(), 2);
    assert_eq!(one[0], settings_events(150));
    assert_eq!(one[1], track_events(&a, 0, Some(1)));

    let many: Vec<(&BarBuf, Option<u8>)> = (0..18).map(|i| (if i % 2 == 0 { &a } else { &b }, None)).collect();
    let tracks = bars_to_midi(&many, 90);
    assert_eq!(tracks.len(), 19);
    assert_eq!(tracks[0], settings_events(90));
    assert_eq!(tracks[1], track_events(&a, 0, None));
    assert_eq!(tracks[2], track_events(&b, 1, None));
    assert_eq!(tracks[16], track_events(&b, 15, None));
    // The seventeenth bar is back on the first channel.
    assert_eq!(tracks[17], track_events(&a, 0, None));
    assert_eq!(bars_to_midi(&[], 90).len(), 1);
}
