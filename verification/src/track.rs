//! A track: one voice that plays queued notes into a stereo buffer.
//!
//! A track plays at most one note at a time. Notes wait in a queue in the
//! order of their start; each call to fill a buffer either carries on with
//! the note that sounds, lets it fade out, lets the next one fade in, or
//! leaves the buffer as it is.

use vstd::prelude::*;
use heapless::Deque;
use crate::queue::queue_clear;
use crate::queue::queue_is_empty;
use crate::queue::queue_is_full;
use crate::queue::queue_new;
use crate::queue::queue_pop_back;
use crate::queue::queue_pop_front;
use crate::queue::queue_push_back;
use crate::queue::queue_push_front;
use crate::queue::queued;
use crate::queue::TRACK_DEPTH;
use crate::sample::StereoSample;
use crate::tones::mixed_fading_in;
use crate::tones::mixed_fading_out;
use crate::tones::mixed_plain;
use crate::tones::phase_step;
use crate::tones::Mix;
use crate::tones::Operator;
use crate::tones::OperatorKind;
use crate::tones::Tone;
use crate::tones::ToneKind;

verus! {

/// A note to play: a tone from one sample count up to another.
pub struct Note {
    pub wave: Tone,
    pub samp_start: u32,
    pub samp_end: u32,
}

/// What a call to fill a buffer does with it.
pub enum Block {
    /// The note that sounds ends within the buffer: it fades out and is
    /// dropped.
    FadeOut,
    /// The note that sounds goes on past the buffer.
    Sustain,
    /// No note sounds and the next one has begun: it fades in.
    FadeIn,
    /// No note sounds and none has begun: the buffer stays as it is.
    Silence,
}

/// What a track stands for.
pub struct TrackView {
    /// The notes that wait, the next one first.
    pub queue: Seq<Note>,
    /// The note that sounds.
    pub current: Option<Note>,
    /// The number of samples played so far.
    pub cur_samp: int,
    /// Samples per second.
    pub sample_rate: int,
}

/// Each note ends after it starts, and none starts before the one in front
/// of it has ended.
pub open spec fn scheduled_in_order(queue: Seq<Note>) -> bool {
    &&& forall|i: int| 0 <= i < queue.len() ==> (#[trigger] queue[i]).samp_start < queue[i].samp_end
    &&& forall|i: int, j: int|
        0 <= i < j < queue.len() ==> (#[trigger] queue[i]).samp_end <= (
        #[trigger] queue[j]).samp_start
}

impl Note {
    /// The note after `k` samples of its tone.
    pub open spec fn advanced(self, k: nat) -> Note {
        Note { wave: self.wave.advanced(k), samp_start: self.samp_start, samp_end: self.samp_end }
    }
}

impl TrackView {
    /// Whether a note sounds that has not run out.
    pub open spec fn sounding(self) -> bool {
        self.current matches Some(note) && note.samp_end >= self.cur_samp
    }

    /// Whether the first note in the queue has begun.
    pub open spec fn next_has_begun(self) -> bool {
        self.queue.len() > 0 && self.queue[0].samp_start < self.cur_samp
    }

    /// What filling a buffer of `len` samples does.
    pub open spec fn block(self, len: int) -> Block {
        if self.sounding() {
            if self.cur_samp + len > self.current->Some_0.samp_end {
                Block::FadeOut
            } else {
                Block::Sustain
            }
        } else if self.next_has_begun() {
            Block::FadeIn
        } else {
            Block::Silence
        }
    }

    /// Whether filling a buffer of `len` samples fades a note in or out.
    pub open spec fn fades(self, len: int) -> bool {
        self.block(len) is FadeOut || self.block(len) is FadeIn
    }

    /// The track after filling a buffer of `len` samples.
    pub open spec fn after_block(self, len: nat) -> TrackView {
        match self.block(len as int) {
            Block::FadeOut => TrackView {
                queue: self.queue,
                current: None,
                cur_samp: self.cur_samp + len,
                sample_rate: self.sample_rate,
            },
            Block::Sustain => TrackView {
                queue: self.queue,
                current: Some(self.current->Some_0.advanced(len)),
                cur_samp: self.cur_samp + len,
                sample_rate: self.sample_rate,
            },
            Block::FadeIn => TrackView {
                queue: self.queue.drop_first(),
                current: Some(self.queue[0].advanced(len)),
                cur_samp: self.cur_samp + len,
                sample_rate: self.sample_rate,
            },
            Block::Silence => TrackView {
                queue: self.queue,
                current: None,
                cur_samp: self.cur_samp + len,
                sample_rate: self.sample_rate,
            },
        }
    }

    /// The buffer `before` after the track has filled it.
    pub open spec fn mixed_block(self, before: Seq<StereoSample>, mix: Mix) -> Seq<StereoSample> {
        match self.block(before.len() as int) {
            Block::FadeOut => mixed_fading_out(
                before,
                self.current->Some_0.wave,
                OperatorKind::Off,
                mix,
            ),
            Block::Sustain => mixed_plain(before, self.current->Some_0.wave, OperatorKind::Off, mix),
            Block::FadeIn => mixed_fading_in(before, self.queue[0].wave, OperatorKind::Off, mix),
            Block::Silence => before,
        }
    }

    /// Whether a note from `start` to `end` can join the queue: it must end
    /// after it starts, the queue must have room, and the note must not start
    /// before the last one in the queue has ended.
    pub open spec fn admits(self, start: u32, end: u32) -> bool {
        &&& start < end
        &&& self.queue.len() != TRACK_DEPTH
        &&& self.queue.len() > 0 ==> self.queue.last().samp_end <= start
    }
}

/// One voice: a queue of notes, the note that sounds, and a sample count.
pub struct Track {
    note_q: Deque<Note, TRACK_DEPTH>,
    current: Option<Note>,
    cur_samp: u32,
    sample_rate: u32,
}

impl View for Track {
    type V = TrackView;

    closed spec fn view(&self) -> TrackView {
        TrackView {
            queue: queued(self.note_q),
            current: self.current,
            cur_samp: self.cur_samp as int,
            sample_rate: self.sample_rate as int,
        }
    }
}

impl Track {
    /// A track at `sample_rate` samples per second with nothing to play.
    pub fn new(sample_rate: u32) -> (t: Track)
        ensures
            t@ == (TrackView {
                queue: Seq::empty(),
                current: None,
                cur_samp: 0,
                sample_rate: sample_rate as int,
            }),
    {
        Track { note_q: queue_new(), current: None, cur_samp: 0, sample_rate }
    }

    /// Empties the queue, drops the note that sounds and starts counting
    /// samples from zero.
    pub fn reset(&mut self)
        ensures
            final(self)@ == (TrackView {
                queue: Seq::empty(),
                current: None,
                cur_samp: 0,
                sample_rate: old(self)@.sample_rate,
            }),
    {
        queue_clear(&mut self.note_q);
        self.current = None;
        self.cur_samp = 0;
    }

    /// Mixes the next samples of the track into `samples` and moves the
    /// sample count on by their number.
    ///
    /// A note that sounds and has not run out goes on; where it ends within
    /// this buffer it fades out and is dropped, and no other note takes its
    /// place in this call. Where no note sounds, the first note of the queue
    /// fades in if it has begun; else the buffer stays as it is. A fade
    /// needs a buffer of at least thirty-two samples.
    pub fn fill_stereo_samples(&mut self, samples: &mut [StereoSample], mix: Mix)
        requires
            old(self)@.cur_samp + old(samples)@.len() <= u32::MAX,
            old(self)@.fades(old(samples)@.len() as int) ==> old(samples)@.len() >= 32,
        ensures
            final(self)@ == old(self)@.after_block(old(samples)@.len()),
            final(samples)@ == old(self)@.mixed_block(old(samples)@, mix),
            scheduled_in_order(old(self)@.queue) ==> scheduled_in_order(final(self)@.queue),
    {
        let samp_len: u32 = samples.len() as u32;
        let mut operator = Operator { kind: OperatorKind::Off };
        let need_new: bool = if let Some(mut note) = self.current.take() {
            if note.samp_end < self.cur_samp {
                true
            } else {
                if (self.cur_samp + samp_len) > note.samp_end {
                    note.wave.fill_last_stereo_samples(samples, mix, &mut operator);
                } else {
                    note.wave.fill_stereo_samples(samples, mix, &mut operator);
                    self.current = Some(note);
                }
                false
            }
        } else {
            true
        };
        if need_new {
            if let Some(mut note) = queue_pop_front(&mut self.note_q) {
                if note.samp_start < self.cur_samp {
                    note.wave.fill_first_stereo_samples(samples, mix, &mut operator);
                    self.current = Some(note);
                } else {
                    let _ = queue_push_front(&mut self.note_q, note);
                    assert(queued(self.note_q) == queued(old(self).note_q));
                }
            }
        }
        self.cur_samp += samp_len;
    }

    /// Puts a note of the given pitch and octave into the queue, to sound
    /// from sample `start` up to sample `end`.
    pub fn add_note(&mut self, kind: ToneKind, note: crate::scale::Note, start: u32, end: u32) -> (r:
        Result<(), ()>)
        ensures
            old(self)@.admits(start, end) ==> r is Ok && final(self)@.queue == old(self)@.queue.push(
                final(self)@.queue.last(),
            ) && Track::is_note(
                final(self)@.queue.last(),
                kind,
                note.millihertz(),
                old(self)@.sample_rate,
                start,
                end,
            ),
            !old(self)@.admits(start, end) ==> r is Err && final(self)@.queue == old(self)@.queue,
            final(self)@.current == old(self)@.current,
            final(self)@.cur_samp == old(self)@.cur_samp,
            final(self)@.sample_rate == old(self)@.sample_rate,
            scheduled_in_order(old(self)@.queue) ==> scheduled_in_order(final(self)@.queue),
    {
        let freq: u32 = note.freq_millihertz();
        self.add_note_freq(kind, freq, start, end)
    }

    /// Whether `note` is the note of the given shape and frequency, in
    /// millihertz, that starts its period at sample `start` and ends at
    /// sample `end`.
    pub open spec fn is_note(note: Note, kind: ToneKind, freq: int, rate: int, start: u32, end: u32) -> bool {
        &&& note.wave.kind() == kind
        &&& note.wave.phase() == 0
        &&& note.wave.step() == phase_step(freq, rate)
        &&& note.samp_start == start
        &&& note.samp_end == end
    }

    /// Puts a note of the given frequency, in millihertz, into the queue, to
    /// sound from sample `start` up to sample `end`. The note is refused,
    /// and the queue stays as it was, where it would not end after it
    /// starts, where the queue is full, and where the note would start
    /// before the last one in the queue has ended.
    pub fn add_note_freq(&mut self, kind: ToneKind, freq: u32, start: u32, end: u32) -> (r: Result<
        (),
        (),
    >)
        ensures
            old(self)@.admits(start, end) ==> r is Ok && final(self)@.queue == old(self)@.queue.push(
                final(self)@.queue.last(),
            ) && Track::is_note(
                final(self)@.queue.last(),
                kind,
                freq as int,
                old(self)@.sample_rate,
                start,
                end,
            ),
            !old(self)@.admits(start, end) ==> r is Err && final(self)@.queue == old(self)@.queue,
            final(self)@.current == old(self)@.current,
            final(self)@.cur_samp == old(self)@.cur_samp,
            final(self)@.sample_rate == old(self)@.sample_rate,
            scheduled_in_order(old(self)@.queue) ==> scheduled_in_order(final(self)@.queue),
    {
        if end <= start {
            return Err(());
        }
        if queue_is_full(&self.note_q) {
            return Err(());
        }
        let ghost before = queued(self.note_q);
        if let Some(note) = queue_pop_back(&mut self.note_q) {
            let out_of_order: bool = start < note.samp_end;
            let _ = queue_push_back(&mut self.note_q, note);
            assert(queued(self.note_q) == before);
            if out_of_order {
                return Err(());
            }
        }
        let tone: Tone = match kind {
            ToneKind::Sine => Tone::new_sine(freq, self.sample_rate),
            ToneKind::Square => Tone::new_square(freq, self.sample_rate),
            ToneKind::Saw => Tone::new_saw(freq, self.sample_rate),
        };
        match queue_push_back(&mut self.note_q, Note { wave: tone, samp_start: start, samp_end: end }) {
            Ok(()) => Ok(()),
            Err(_) => Err(()),
        }
    }

    /// Whether the track has nothing left to play: no note sounds and none
    /// waits.
    pub fn is_done(&self) -> (done: bool)
        ensures
            done == (self@.queue.len() == 0 && self@.current is None),
    {
        queue_is_empty(&self.note_q) && self.current.is_none()
    }

    /// The number of samples played so far.
    pub fn cur_samp(&self) -> (n: u32)
        ensures
            n == self@.cur_samp,
    {
        self.cur_samp
    }

    /// Samples per second.
    pub fn sample_rate(&self) -> (n: u32)
        ensures
            n == self@.sample_rate,
    {
        self.sample_rate
    }
}

} // verus!
