//! Bar buffers as the events of a MIDI file.
//!
//! A file has one track of settings and one track for each bar buffer. Each
//! note becomes a note-on and a note-off event; the time between events is
//! counted in ticks, so a rest shows as the delay of the note-on that
//! follows it. Writing the events to a file is left to the caller.

use vstd::prelude::*;
use crate::bars::notes_in_order;
use crate::bars::BarBuf;
use crate::encoding::NoteView;
use crate::ppqn::PPQN_MAX;

verus! {

/// The velocity of every note-on event.
pub const NOTE_ON_VELOCITY: u8 = 80;

/// The velocity of every note-off event.
pub const NOTE_OFF_VELOCITY: u8 = 64;

/// The program of a track that names none: a piano.
pub const DEFAULT_PROGRAM: u8 = 1;

/// The name of the settings track, `thursday`, as bytes.
pub const TRACK_NAME: [u8; 8] = [116, 104, 117, 114, 115, 100, 97, 121];

/// What an event says.
#[derive(Clone, Copy, Debug, PartialEq, Eq, Structural)]
pub enum MidiMessage {
    /// The name of the track, [`TRACK_NAME`].
    TrackName,
    /// The tempo in microseconds per quarter note, in 24 bits.
    Tempo(u32),
    /// The time signature: numerator, denominator as a power of two, MIDI
    /// clocks per click, and thirty-second notes per quarter note.
    TimeSignature(u8, u8, u8, u8),
    /// The end of the track.
    EndOfTrack,
    /// A controller set to a value.
    Controller { controller: u8, value: u8 },
    /// The instrument of the channel.
    ProgramChange { program: u8 },
    /// A key goes down.
    NoteOn { key: u8, vel: u8 },
    /// A key goes up.
    NoteOff { key: u8, vel: u8 },
}

/// An event of a track: what it says, on which channel, and how many ticks
/// after the event before it.
#[derive(Clone, Copy, Debug, PartialEq, Eq, Structural)]
pub struct TrackEvent {
    pub delta: u32,
    pub channel: u8,
    pub message: MidiMessage,
}

/// The tempo of `bpm` beats per minute in microseconds per beat, cut to 24
/// bits.
pub open spec fn tempo_micros(bpm: int) -> int {
    (60_000_000int / bpm) % 0x100_0000
}

/// The settings track of a file at `bpm` beats per minute: its name, the
/// tempo, four quarter beats in a measure, and the end.
pub open spec fn settings_track(bpm: int) -> Seq<TrackEvent> {
    seq![
        TrackEvent { delta: 0, channel: 0, message: MidiMessage::TrackName },
        TrackEvent { delta: 0, channel: 0, message: MidiMessage::Tempo(tempo_micros(bpm) as u32) },
        TrackEvent { delta: 0, channel: 0, message: MidiMessage::TimeSignature(4, 2, 24, 8) },
        TrackEvent { delta: 0, channel: 0, message: MidiMessage::EndOfTrack },
    ]
}

/// The events that open the track of a bar buffer: two controllers that
/// reset the channel, and the instrument.
pub open spec fn track_opening(channel: u8, instrument: Option<u8>) -> Seq<TrackEvent> {
    seq![
        TrackEvent {
            delta: 0,
            channel,
            message: MidiMessage::Controller { controller: 0, value: 121 },
        },
        TrackEvent {
            delta: 0,
            channel,
            message: MidiMessage::Controller { controller: 32, value: 0 },
        },
        TrackEvent {
            delta: 0,
            channel,
            message: MidiMessage::ProgramChange {
                program: match instrument {
                    Some(program) => program % 128,
                    None => DEFAULT_PROGRAM,
                },
            },
        },
    ]
}

/// The tick at which the note before note `i` ends, and zero for the first
/// note.
pub open spec fn end_before(notes: Seq<NoteView>, i: int) -> int {
    if i <= 0 {
        0
    } else {
        notes[i - 1].end()
    }
}

/// The events of the first `n` notes: for each note a note-on, as many
/// ticks after the event before it as lie between the notes, and a note-off
/// after the length of the note. The key is the semitone of the note.
pub open spec fn note_events(notes: Seq<NoteView>, channel: u8, n: nat) -> Seq<TrackEvent>
    decreases n,
{
    if n == 0 {
        Seq::empty()
    } else {
        let note = notes[n - 1];
        note_events(notes, channel, (n - 1) as nat).push(
            TrackEvent {
                delta: (note.start - end_before(notes, n - 1)) as u32,
                channel,
                message: MidiMessage::NoteOn { key: note.tone as u8, vel: NOTE_ON_VELOCITY },
            },
        ).push(
            TrackEvent {
                delta: note.length as u32,
                channel,
                message: MidiMessage::NoteOff { key: note.tone as u8, vel: NOTE_OFF_VELOCITY },
            },
        )
    }
}

/// The track of a bar buffer: the opening, the events of its notes, and the
/// end.
pub open spec fn bar_track(notes: Seq<NoteView>, channel: u8, instrument: Option<u8>) -> Seq<
    TrackEvent,
> {
    track_opening(channel, instrument) + note_events(notes, channel, notes.len()).push(
        TrackEvent { delta: 0, channel, message: MidiMessage::EndOfTrack },
    )
}

/// The channel of the track with the given number: MIDI has sixteen.
pub open spec fn channel_of(track: int) -> u8 {
    (track % 16) as u8
}

/// The tempo of `bpm` beats per minute in microseconds per beat, cut to 24
/// bits.
pub fn tempo(bpm: u32) -> (micros: u32)
    requires
        bpm > 0,
    ensures
        micros == tempo_micros(bpm as int),
{
    ((1_000_000u32 * 60) / bpm) % 0x100_0000
}

/// The settings track of a file at `bpm` beats per minute.
pub fn settings_events(bpm: u32) -> (track: Vec<TrackEvent>)
    requires
        bpm > 0,
    ensures
        track@ == settings_track(bpm as int),
{
    let mut track: Vec<TrackEvent> = Vec::new();
    track.push(TrackEvent { delta: 0, channel: 0, message: MidiMessage::TrackName });
    track.push(TrackEvent { delta: 0, channel: 0, message: MidiMessage::Tempo(tempo(bpm)) });
    track.push(
        TrackEvent { delta: 0, channel: 0, message: MidiMessage::TimeSignature(4, 2, 24, 8) },
    );
    track.push(TrackEvent { delta: 0, channel: 0, message: MidiMessage::EndOfTrack });
    assert(track@ == settings_track(bpm as int));
    track
}

/// The track of one bar buffer on the given channel.
pub fn track_events(bbuf: &BarBuf, channel: u8, instrument: Option<u8>) -> (track: Vec<TrackEvent>)
    ensures
        track@ == bar_track(bbuf@.notes, channel, instrument),
{
    proof {
        use_type_invariant(bbuf);
    }
    let mut track: Vec<TrackEvent> = Vec::new();
    let program: u8 = match instrument {
        Some(program) => program % 128,
        None => DEFAULT_PROGRAM,
    };
    track.push(
        TrackEvent {
            delta: 0,
            channel,
            message: MidiMessage::Controller { controller: 0, value: 121 },
        },
    );
    track.push(
        TrackEvent { delta: 0, channel, message: MidiMessage::Controller { controller: 32, value: 0 } },
    );
    track.push(TrackEvent { delta: 0, channel, message: MidiMessage::ProgramChange { program } });
    assert(track@ == track_opening(channel, instrument));
    let ghost notes = bbuf@.notes;
    let ghost mut done: nat = 0;
    let mut idx: u16 = 0;
    let mut walk = bbuf.notes();
    assert(walk.upcoming() == notes.subrange(0, notes.len() as int));
    loop
        invariant
            done <= notes.len(),
            notes_in_order(notes, PPQN_MAX as int),
            walk.upcoming() == notes.subrange(done as int, notes.len() as int),
            idx == end_before(notes, done as int),
            track@ == track_opening(channel, instrument) + note_events(notes, channel, done),
        ensures
            done == notes.len(),
            track@ == track_opening(channel, instrument) + note_events(notes, channel, done),
        decreases notes.len() - done,
    {
        let ghost upcoming = walk.upcoming();
        let note = match walk.next() {
            Some(note) => note,
            None => {
                break ;
            },
        };
        proof {
            assert(upcoming[0] == notes[done as int]);
            assert(upcoming.drop_first() == notes.subrange(done as int + 1, notes.len() as int));
            assert(note@ == notes[done as int]);
            if done > 0 {
                assert(notes[done - 1].end() <= notes[done as int].start);
            }
            assert(notes[done as int].wf());
            assert(notes[done as int].end() <= PPQN_MAX);
        }
        let key: u8 = note.pitch_tone_offset().0;
        let ghost before = track@;
        track.push(
            TrackEvent {
                delta: (note.ppqn_start() - idx) as u32,
                channel,
                message: MidiMessage::NoteOn { key, vel: NOTE_ON_VELOCITY },
            },
        );
        track.push(
            TrackEvent {
                delta: note.ppqn_len() as u32,
                channel,
                message: MidiMessage::NoteOff { key, vel: NOTE_OFF_VELOCITY },
            },
        );
        idx = note.ppqn_start() + note.ppqn_len();
        proof {
            let opening = track_opening(channel, instrument);
            let sofar = note_events(notes, channel, done);
            let next = note_events(notes, channel, done + 1);
            assert(track@ == (opening + sofar).push(next[next.len() - 2]).push(next[next.len() - 1]));
            assert(track@ == opening + next);
            done = done + 1;
        }
    }
    track.push(TrackEvent { delta: 0, channel, message: MidiMessage::EndOfTrack });
    assert(track@ == bar_track(notes, channel, instrument));
    track
}

/// The tracks of a file of one bar buffer at `bpm` beats per minute: the
/// settings track and the track of the buffer.
pub fn bar_to_midi(bbuf: &BarBuf, bpm: u32, midi_instrument: Option<u8>) -> (tracks: Vec<
    Vec<TrackEvent>,
>)
    requires
        bpm > 0,
    ensures
        tracks@.len() == 2,
        tracks@[0]@ == settings_track(bpm as int),
        tracks@[1]@ == bar_track(bbuf@.notes, 0, midi_instrument),
{
    let mut tracks: Vec<Vec<TrackEvent>> = Vec::new();
    tracks.push(settings_events(bpm));
    tracks.push(track_events(bbuf, 0, midi_instrument));
    tracks
}

/// The tracks of a file of several bar buffers at `bpm` beats per minute:
/// the settings track, then one track for each buffer, each on the channel
/// of its number.
pub fn bars_to_midi(bbufs: &[(&BarBuf, Option<u8>)], bpm: u32) -> (tracks: Vec<Vec<TrackEvent>>)
    requires
        bpm > 0,
    ensures
        tracks@.len() == bbufs@.len() + 1,
        tracks@[0]@ == settings_track(bpm as int),
        forall|i: int|
            0 <= i < bbufs@.len() ==> (#[trigger] tracks@[i + 1])@ == bar_track(
                bbufs@[i].0@.notes,
                channel_of(i),
                bbufs@[i].1,
            ),
{
    let mut tracks: Vec<Vec<TrackEvent>> = Vec::new();
    tracks.push(settings_events(bpm));
    let mut i: usize = 0;
    while i < bbufs.len()
        invariant
            i <= bbufs@.len(),
            tracks@.len() == i + 1,
            tracks@[0]@ == settings_track(bpm as int),
            forall|j: int|
                0 <= j < i ==> (#[trigger] tracks@[j + 1])@ == bar_track(
                    bbufs@[j].0@.notes,
                    channel_of(j),
                    bbufs@[j].1,
                ),
        decreases bbufs@.len() - i,
    {
        let (bbuf, instr) = &bbufs[i];
        let ch: u8 = (i % 16) as u8;
        let track: Vec<TrackEvent> = track_events(bbuf, ch, *instr);
        tracks.push(track);
        i += 1;
    }
    tracks
}

} // verus!
