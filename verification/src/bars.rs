//! The bar buffer: encoded notes in order on one timeline.
//!
//! A buffer holds the bytes of its notes back to back, their number, and the
//! next free tick. A note starts at the next free tick and moves it on by its
//! length; a rest only moves it on, so rests show as gaps between notes. The
//! next free tick never passes the end of the timeline.

use vstd::prelude::*;
use vstd::std_specs::convert::FromSpecImpl;
use crate::encoding::decode_note;
use crate::encoding::lemma_note_decode_wf;
use crate::encoding::lemma_note_encode_decode;
use crate::encoding::lemma_note_encoding_len;
use crate::encoding::EncNote;
use crate::encoding::EncPitch;
use crate::encoding::NoteView;
use crate::kcint::EncError;
use crate::ppqn::Length;
use crate::ppqn::PPQN_MAX;
use crate::scale::Pitch;

verus! {

/// Why a note or a rest was not taken.
#[derive(Clone, Copy, Debug, PartialEq, Eq, Structural)]
pub enum BarError {
    /// The next free tick already stands at the end of the timeline.
    BarFull,
    /// The note or rest would end past the end of the timeline.
    ExceededBarLength,
    /// The note has no encoding.
    EncodingErr(EncError),
}

impl From<EncError> for BarError {
    fn from(e: EncError) -> (b: BarError) {
        BarError::EncodingErr(e)
    }
}

impl FromSpecImpl<EncError> for BarError {
    open spec fn obeys_from_spec() -> bool {
        true
    }

    open spec fn from_spec(e: EncError) -> BarError {
        BarError::EncodingErr(e)
    }
}

/// What a bar buffer stands for: its notes in order and the next free tick.
pub struct BarView {
    pub notes: Seq<NoteView>,
    pub ppqn_idx: int,
}

/// Why `decode_notes` comes to an end: a note that decodes takes bytes away.
#[via_fn]
proof fn decode_notes_decreases(s: Seq<u8>) {
    if decode_note(s) is Ok {
        lemma_note_decode_wf(s);
    }
}

/// The notes that stand at the front of a byte sequence, up to the first
/// place where no further note decodes.
pub open spec fn decode_notes(s: Seq<u8>) -> Seq<NoteView>
    decreases s.len(),
    via decode_notes_decreases
{
    match decode_note(s) {
        Ok((v, n)) => seq![v] + decode_notes(s.subrange(n, s.len() as int)),
        Err(_) => Seq::empty(),
    }
}

/// The bytes of a sequence of notes, one note behind the other.
pub open spec fn encode_notes(notes: Seq<NoteView>) -> Seq<u8>
    decreases notes.len(),
{
    if notes.len() == 0 {
        Seq::empty()
    } else {
        notes[0].encoding() + encode_notes(notes.drop_first())
    }
}

/// The notes follow one another on the timeline without overlap, each has
/// its fields in range, and none ends after `limit`.
pub open spec fn notes_in_order(notes: Seq<NoteView>, limit: int) -> bool {
    &&& forall|i: int| 0 <= i < notes.len() ==> (#[trigger] notes[i]).wf()
    &&& forall|i: int| 0 <= i < notes.len() ==> (#[trigger] notes[i]).end() <= limit
    &&& forall|i: int, j: int|
        0 <= i < j < notes.len() ==> (#[trigger] notes[i]).end() <= (#[trigger] notes[j]).start
}

impl BarView {
    /// The buffer that holds nothing.
    pub open spec fn empty() -> BarView {
        BarView { notes: Seq::empty(), ppqn_idx: 0 }
    }

    /// The notes are in order, and the next free tick lies behind them and
    /// on the timeline or at its end.
    pub open spec fn wf(self) -> bool {
        &&& 0 <= self.ppqn_idx <= PPQN_MAX
        &&& notes_in_order(self.notes, self.ppqn_idx)
    }

    /// The buffer after a rest of the given length, or why the rest is
    /// refused.
    pub open spec fn rested(self, length: Length) -> Result<BarView, BarError> {
        if self.ppqn_idx >= PPQN_MAX {
            Err(BarError::BarFull)
        } else if self.ppqn_idx + length.ticks() > PPQN_MAX {
            Err(BarError::ExceededBarLength)
        } else {
            Ok(BarView { notes: self.notes, ppqn_idx: self.ppqn_idx + length.ticks() })
        }
    }

    /// The buffer after a note of the given pitch, octave and length at the
    /// next free tick, or why the note is refused. A full buffer is reported
    /// first, then a pitch out of range, then a note that would end past the
    /// timeline, then a note of no length.
    pub open spec fn pushed(self, length: Length, pitch: Pitch, octave: u8) -> Result<
        BarView,
        BarError,
    > {
        if self.ppqn_idx >= PPQN_MAX {
            Err(BarError::BarFull)
        } else if !(octave <= 9 || (octave == 10 && pitch.index() <= 7)) {
            Err(BarError::EncodingErr(EncError::ValueOutOfBounds))
        } else if self.ppqn_idx + length.ticks() > PPQN_MAX {
            Err(BarError::ExceededBarLength)
        } else if length.ticks() == 0 {
            Err(BarError::EncodingErr(EncError::ValueOutOfBounds))
        } else {
            Ok(
                BarView {
                    notes: self.notes.push(
                        NoteView {
                            tone: octave * 12 + pitch.index(),
                            offset: 0,
                            start: self.ppqn_idx,
                            length: length.ticks(),
                        },
                    ),
                    ppqn_idx: self.ppqn_idx + length.ticks(),
                },
            )
        }
    }

    /// The buffer after the notes `items[from..]`, pushed in turn, or the
    /// reason why the first of them that is refused is refused.
    pub open spec fn pushed_all(self, items: Seq<(Length, Pitch, u8)>, from: int) -> Result<
        BarView,
        BarError,
    >
        decreases items.len() - from,
    {
        if from < 0 || from >= items.len() {
            Ok(self)
        } else {
            match self.pushed(items[from].0, items[from].1, items[from].2) {
                Ok(next) => next.pushed_all(items, from + 1),
                Err(e) => Err(e),
            }
        }
    }

    /// The buffer after `n` notes of the same pitch, octave and length, or
    /// the reason why the first of them that is refused is refused.
    pub open spec fn pushed_times(self, n: nat, length: Length, pitch: Pitch, octave: u8) -> Result<
        BarView,
        BarError,
    >
        decreases n,
    {
        if n == 0 {
            Ok(self)
        } else {
            match self.pushed_times((n - 1) as nat, length, pitch, octave) {
                Ok(before) => before.pushed(length, pitch, octave),
                Err(e) => Err(e),
            }
        }
    }

    /// The buffer after `n` rests of the same length, or the reason why the
    /// first of them that is refused is refused.
    pub open spec fn rested_times(self, n: nat, length: Length) -> Result<BarView, BarError>
        decreases n,
    {
        if n == 0 {
            Ok(self)
        } else {
            match self.rested_times((n - 1) as nat, length) {
                Ok(before) => before.rested(length),
                Err(e) => Err(e),
            }
        }
    }
}

/// Appends the bytes of `note` to `buf`.
fn append_note_bytes(buf: &mut Vec<u8>, note: &EncNote)
    ensures
        final(buf)@ == old(buf)@ + note@.encoding(),
{
    let mut scratch: [u8; 6] = [0, 0, 0, 0, 0, 0];
    proof {
        lemma_note_encoding_len(note@);
    }
    let room: usize = match note.write_to_slice(&mut scratch) {
        Ok(rest) => rest.len(),
        Err(_) => 6,
    };
    let used: usize = scratch.len() - room;
    assert(scratch@.subrange(0, used as int) == note@.encoding());
    let ghost before = buf@;
    let mut i: usize = 0;
    while i < used
        invariant
            i <= used <= 6,
            scratch@.len() == 6,
            buf@ == before + scratch@.subrange(0, i as int),
        decreases used - i,
    {
        buf.push(scratch[i]);
        i += 1;
    }
}

/// A buffer of encoded notes on one timeline.
pub struct BarBuf {
    ppqn_idx: u16,
    notes: usize,
    buf: Vec<u8>,
}

/// A walk over the notes of a bar buffer, front to back.
pub struct Notes<'a> {
    notes: usize,
    buf: &'a [u8],
}

impl View for BarBuf {
    type V = BarView;

    open spec fn view(&self) -> BarView {
        BarView { notes: decode_notes(self.spec_bytes()), ppqn_idx: self.spec_ppqn_idx() as int }
    }
}

impl BarBuf {
    /// The bytes of the buffer.
    pub closed spec fn spec_bytes(&self) -> Seq<u8> {
        self.buf@
    }

    /// The next free tick.
    pub closed spec fn spec_ppqn_idx(&self) -> u16 {
        self.ppqn_idx
    }

    /// The number of notes that the buffer counts.
    pub closed spec fn spec_note_count(&self) -> usize {
        self.notes
    }

    /// The bytes are the encodings of the notes and of nothing else, the
    /// count is their number, the notes are in order, and the next free tick
    /// lies behind them.
    #[verifier::type_invariant]
    pub open spec fn wf(&self) -> bool {
        &&& self@.wf()
        &&& self.spec_bytes() == encode_notes(self@.notes)
        &&& self.spec_note_count() == self@.notes.len()
    }

    /// An empty buffer.
    pub fn new() -> (b: BarBuf)
        ensures
            b.wf(),
            b@ == BarView::empty(),
            b.spec_bytes() == Seq::<u8>::empty(),
    {
        let b = BarBuf { ppqn_idx: 0, notes: 0, buf: Vec::new() };
        assert(b.buf@ == Seq::<u8>::empty());
        assert(decode_notes(b.buf@) == Seq::<NoteView>::empty());
        b
    }

    /// Whether the next free tick stands at the end of the timeline.
    fn check_full(&self) -> (r: Result<(), BarError>)
        ensures
            self.spec_ppqn_idx() >= PPQN_MAX ==> r == Err::<(), BarError>(BarError::BarFull),
            self.spec_ppqn_idx() < PPQN_MAX ==> r is Ok,
    {
        if self.ppqn_idx >= PPQN_MAX {
            return Err(BarError::BarFull);
        } else {
            Ok(())
        }
    }

    /// The bytes of the buffer: the encodings of its notes, back to back.
    pub fn bytes(&self) -> (b: &[u8])
        ensures
            b@ == self.spec_bytes(),
    {
        self.buf.as_slice()
    }

    /// The next free tick.
    #[verifier::when_used_as_spec(spec_ppqn_idx)]
    pub fn ppqn_idx(&self) -> (t: u16)
        ensures
            t == self.spec_ppqn_idx(),
    {
        self.ppqn_idx
    }

    /// The number of notes in the buffer.
    #[verifier::when_used_as_spec(spec_note_count)]
    pub fn note_count(&self) -> (n: usize)
        ensures
            n == self.spec_note_count(),
    {
        self.notes
    }

    /// Moves the next free tick on by `length`, unless that would pass the
    /// end of the timeline.
    fn increment_ppqn(&mut self, length: Length) -> (r: Result<(), BarError>)
        ensures
            final(self).spec_bytes() == old(self).spec_bytes(),
            final(self).spec_note_count() == old(self).spec_note_count(),
            old(self).spec_ppqn_idx() + length.ticks() > PPQN_MAX ==> r == Err::<(), BarError>(
                BarError::ExceededBarLength,
            ) && final(self).spec_ppqn_idx() == old(self).spec_ppqn_idx(),
            old(self).spec_ppqn_idx() + length.ticks() <= PPQN_MAX ==> {
                &&& r is Ok
                &&& final(self).spec_ppqn_idx() == old(self).spec_ppqn_idx() + length.ticks()
            },
    {
        proof {
            use_type_invariant(&*self);
        }
        let len: u16 = length.to_ppqn();
        if len > PPQN_MAX - self.ppqn_idx {
            return Err(BarError::ExceededBarLength);
        }
        self.ppqn_idx = self.ppqn_idx + len;
        Ok(())
    }

    /// Appends a rest: the next free tick moves on, the notes stay.
    pub fn push_rest_simple(&mut self, length: Length) -> (r: Result<(), BarError>)
        ensures
            final(self).spec_bytes() == old(self).spec_bytes(),
            match old(self)@.rested(length) {
                Ok(after) => r is Ok && final(self)@ == after,
                Err(e) => r == Err::<(), BarError>(e) && final(self)@ == old(self)@,
            },
    {
        self.check_full()?;
        self.increment_ppqn(length)
    }

    /// A buffer of the given notes, each pushed at the tick where the one
    /// before it ends. The first note that is refused ends the attempt.
    pub fn from_notes_simple(items: &[(Length, Pitch, u8)]) -> (r: Result<BarBuf, BarError>)
        ensures
            match BarView::empty().pushed_all(items@, 0) {
                Ok(after) => r is Ok && r->Ok_0@ == after,
                Err(e) => r matches Err(err) && err == e,
            },
    {
        let mut bbuf = BarBuf::new();
        let mut i: usize = 0;
        while i < items.len()
            invariant
                i <= items.len(),
                BarView::empty().pushed_all(items@, 0) == bbuf@.pushed_all(items@, i as int),
            decreases items.len() - i,
        {
            let (l, p, o) = items[i];
            bbuf.push_note_simple(l, p, o)?;
            i += 1;
        }
        Ok(bbuf)
    }

    /// Appends a note of the given length, pitch and octave at the next free
    /// tick. A note that is refused leaves the buffer as it was.
    pub fn push_note_simple(&mut self, length: Length, pitch: Pitch, octave: u8) -> (r: Result<
        (),
        BarError,
    >)
        ensures
            match old(self)@.pushed(length, pitch, octave) {
                Ok(after) => {
                    &&& r is Ok
                    &&& final(self)@ == after
                    &&& final(self).spec_bytes() == old(self).spec_bytes()
                        + after.notes.last().encoding()
                },
                Err(e) => {
                    &&& r == Err::<(), BarError>(e)
                    &&& final(self)@ == old(self)@
                    &&& final(self).spec_bytes() == old(self).spec_bytes()
                },
            },
    {
        proof {
            use_type_invariant(&*self);
        }
        self.check_full()?;
        if let Err(e) = EncPitch::from_pitch_octave(pitch, octave) {
            return Err(BarError::EncodingErr(e));
        }
        let len: u16 = length.to_ppqn();
        if len > PPQN_MAX - self.ppqn_idx {
            return Err(BarError::ExceededBarLength);
        }
        let note = match EncNote::new_simple(pitch, octave, self.ppqn_idx, length) {
            Ok(note) => note,
            Err(e) => {
                return Err(BarError::EncodingErr(e));
            },
        };
        proof {
            lemma_encode_notes_len(self@.notes);
            lemma_push_note(self@, self.buf@, note@);
            assert(self.buf@.len() == self.buf.len() <= usize::MAX);
        }
        let mut taken = BarBuf::new();
        core::mem::swap(self, &mut taken);
        let BarBuf { ppqn_idx, notes, buf } = taken;
        let mut buf = buf;
        append_note_bytes(&mut buf, &note);
        *self = BarBuf { ppqn_idx: ppqn_idx + len, notes: notes + 1, buf };
        Ok(())
    }

    /// A walk over the notes of the buffer, front to back.
    pub fn notes<'a>(&'a self) -> (walk: Notes<'a>)
        ensures
            walk.upcoming() == self@.notes,
            walk.remaining() == self.spec_bytes(),
            walk.promised() == self.spec_note_count(),
    {
        Notes { notes: self.notes, buf: self.buf.as_slice() }
    }
}

impl Clone for BarBuf {
    fn clone(&self) -> (copy: BarBuf)
        ensures
            copy@ == self@,
            copy.spec_bytes() == self.spec_bytes(),
    {
        proof {
            use_type_invariant(self);
        }
        let mut buf: Vec<u8> = Vec::new();
        let mut i: usize = 0;
        while i < self.buf.len()
            invariant
                i <= self.buf@.len(),
                buf@ == self.buf@.subrange(0, i as int),
            decreases self.buf@.len() - i,
        {
            buf.push(self.buf[i]);
            i += 1;
        }
        assert(buf@ == self.buf@);
        BarBuf { ppqn_idx: self.ppqn_idx, notes: self.notes, buf }
    }
}

impl<'a> Notes<'a> {
    /// The bytes that the walk has not read yet.
    pub closed spec fn remaining(&self) -> Seq<u8> {
        self.buf@
    }

    /// The number of notes that the walk still promises.
    pub closed spec fn promised(&self) -> usize {
        self.notes
    }

    /// The notes that the walk will still hand out, in order: those that
    /// decode from the bytes not read yet.
    pub open spec fn upcoming(&self) -> Seq<NoteView> {
        decode_notes(self.remaining())
    }

    /// The next note, or `None` at the end of the bytes or where the bytes
    /// stop decoding.
    pub fn next(&mut self) -> (r: Option<EncNote>)
        ensures
            match r {
                Some(note) => {
                    &&& old(self).upcoming().len() > 0
                    &&& note@ == old(self).upcoming()[0]
                    &&& final(self).upcoming() == old(self).upcoming().drop_first()
                    &&& final(self).promised() == if old(self).promised() == 0 {
                        0
                    } else {
                        old(self).promised() - 1
                    }
                },
                None => old(self).upcoming().len() == 0 && *final(self) == *old(self),
            },
    {
        match EncNote::take_from_slice(self.buf) {
            Ok((note, rem)) => {
                proof {
                    let rest = decode_notes(rem@);
                    assert((seq![note@] + rest).drop_first() == rest);
                }
                self.buf = rem;
                self.notes = if self.notes == 0 {
                    0
                } else {
                    self.notes - 1
                };
                Some(note)
            },
            Err(_) => None,
        }
    }

    /// The number of notes still to come, as lower and upper bound: the
    /// number that the buffer counted, less those handed out.
    pub fn size_hint(&self) -> (r: (usize, Option<usize>))
        ensures
            r.0 == self.promised(),
            r.1 == Some(self.promised()),
    {
        (self.notes, Some(self.notes))
    }
}

/// The encodings of the notes, one behind the other, take at least three
/// bytes for each note.
pub proof fn lemma_encode_notes_len(notes: Seq<NoteView>)
    ensures
        3 * notes.len() <= encode_notes(notes).len() <= 6 * notes.len(),
    decreases notes.len(),
{
    if notes.len() > 0 {
        lemma_note_encoding_len(notes[0]);
        lemma_encode_notes_len(notes.drop_first());
    }
}

/// The encoding of a sequence with one more note at its end is the encoding
/// of the sequence with the bytes of that note behind it.
pub proof fn lemma_encode_notes_push(notes: Seq<NoteView>, v: NoteView)
    ensures
        encode_notes(notes.push(v)) == encode_notes(notes) + v.encoding(),
    decreases notes.len(),
{
    if notes.len() == 0 {
        assert(notes.push(v).drop_first() == Seq::<NoteView>::empty());
        assert(encode_notes(notes.push(v).drop_first()) == Seq::<u8>::empty());
    } else {
        assert(notes.push(v).drop_first() == notes.drop_first().push(v));
        lemma_encode_notes_push(notes.drop_first(), v);
    }
}

/// Decoding the encodings of notes with their fields in range gives the
/// notes back: what is pushed is what a walk over the bytes finds.
pub proof fn lemma_decode_encoded_notes(notes: Seq<NoteView>)
    requires
        forall|i: int| 0 <= i < notes.len() ==> (#[trigger] notes[i]).wf(),
    ensures
        decode_notes(encode_notes(notes)) == notes,
    decreases notes.len(),
{
    if notes.len() == 0 {
    } else {
        let rest = encode_notes(notes.drop_first());
        lemma_note_encode_decode(notes[0], rest);
        let all = notes[0].encoding() + rest;
        assert(all.subrange(notes[0].encoding().len() as int, all.len() as int) == rest);
        lemma_decode_encoded_notes(notes.drop_first());
        assert(seq![notes[0]] + notes.drop_first() == notes);
    }
}

/// The bytes of a buffer are stable: read as notes, they give the notes of
/// the buffer, each with its fields in range, and the notes written out
/// again, one behind the other, give the same bytes.
pub proof fn lemma_bar_bytes_stable(b: BarBuf)
    requires
        b.wf(),
    ensures
        decode_notes(b.spec_bytes()) == b@.notes,
        encode_notes(decode_notes(b.spec_bytes())) == b.spec_bytes(),
        b.spec_bytes().len() <= 6 * b@.notes.len(),
        forall|i: int| 0 <= i < b@.notes.len() ==> (#[trigger] b@.notes[i]).wf(),
{
    lemma_encode_notes_len(b@.notes);
}

/// Appending the bytes of a note to the bytes of a well-formed buffer gives
/// the bytes of the buffer with that note at its end.
proof fn lemma_push_note(bar: BarView, bytes: Seq<u8>, v: NoteView)
    requires
        bar.wf(),
        bytes == encode_notes(bar.notes),
        decode_notes(bytes) == bar.notes,
        v.wf(),
        v.start == bar.ppqn_idx,
        v.end() <= PPQN_MAX,
    ensures
        encode_notes(bar.notes.push(v)) == bytes + v.encoding(),
        decode_notes(bytes + v.encoding()) == bar.notes.push(v),
        (BarView { notes: bar.notes.push(v), ppqn_idx: v.end() }).wf(),
{
    lemma_encode_notes_push(bar.notes, v);
    lemma_decode_encoded_notes(bar.notes.push(v));
}

/// A buffer that takes `n` notes of one length, where `n` such lengths make
/// up the timeline exactly, is full after them: it holds `n` notes, its next
/// free tick stands at the end of the timeline, and it refuses every further
/// note and rest as full.
pub proof fn lemma_bar_fill(n: nat, length: Length, pitch: Pitch, octave: u8)
    requires
        n * length.ticks() == PPQN_MAX,
        octave <= 9 || (octave == 10 && pitch.index() <= 7),
    ensures
        BarView::empty().pushed_times(n, length, pitch, octave) is Ok,
        BarView::empty().pushed_times(n, length, pitch, octave)->Ok_0.notes.len() == n,
        BarView::empty().pushed_times(n, length, pitch, octave)->Ok_0.ppqn_idx == PPQN_MAX,
        forall|l: Length, p: Pitch, o: u8|
            #[trigger] BarView::empty().pushed_times(n, length, pitch, octave)->Ok_0.pushed(l, p, o)
                == Err::<BarView, BarError>(BarError::BarFull),
        forall|l: Length| #[trigger]
            BarView::empty().pushed_times(n, length, pitch, octave)->Ok_0.rested(l) == Err::<
                BarView,
                BarError,
            >(BarError::BarFull),
{
    assert(n > 0 && length.ticks() > 0) by (nonlinear_arith)
        requires
            n * length.ticks() == PPQN_MAX,
            length.ticks() >= 0,
    ;
    lemma_pushed_times(n, n, length, pitch, octave);
}

/// The first `k` of `n` equal notes that fill the timeline are all taken.
proof fn lemma_pushed_times(k: nat, n: nat, length: Length, pitch: Pitch, octave: u8)
    requires
        k <= n,
        length.ticks() > 0,
        n * length.ticks() == PPQN_MAX,
        octave <= 9 || (octave == 10 && pitch.index() <= 7),
    ensures
        BarView::empty().pushed_times(k, length, pitch, octave) is Ok,
        BarView::empty().pushed_times(k, length, pitch, octave)->Ok_0.notes.len() == k,
        BarView::empty().pushed_times(k, length, pitch, octave)->Ok_0.ppqn_idx == k
            * length.ticks(),
    decreases k,
{
    if k > 0 {
        lemma_pushed_times((k - 1) as nat, n, length, pitch, octave);
        let t = length.ticks();
        assert((k - 1) * t + t == k * t && k * t <= n * t) by (nonlinear_arith)
            requires
                0 < k <= n,
                t > 0,
        ;
    }
}

/// A buffer that takes `n` rests of one length, where `n` such lengths make
/// up the timeline exactly, is full after them and holds no note.
pub proof fn lemma_bar_fill_rests(n: nat, length: Length)
    requires
        n * length.ticks() == PPQN_MAX,
    ensures
        BarView::empty().rested_times(n, length) is Ok,
        BarView::empty().rested_times(n, length)->Ok_0.notes.len() == 0,
        BarView::empty().rested_times(n, length)->Ok_0.ppqn_idx == PPQN_MAX,
        forall|l: Length| #[trigger]
            BarView::empty().rested_times(n, length)->Ok_0.rested(l) == Err::<BarView, BarError>(
                BarError::BarFull,
            ),
{
    assert(n > 0 && length.ticks() > 0) by (nonlinear_arith)
        requires
            n * length.ticks() == PPQN_MAX,
            length.ticks() >= 0,
    ;
    lemma_rested_times(n, n, length);
}

/// The first `k` of `n` equal rests that fill the timeline are all taken.
proof fn lemma_rested_times(k: nat, n: nat, length: Length)
    requires
        k <= n,
        length.ticks() > 0,
        n * length.ticks() == PPQN_MAX,
    ensures
        BarView::empty().rested_times(k, length) is Ok,
        BarView::empty().rested_times(k, length)->Ok_0.notes.len() == 0,
        BarView::empty().rested_times(k, length)->Ok_0.ppqn_idx == k * length.ticks(),
    decreases k,
{
    if k > 0 {
        lemma_rested_times((k - 1) as nat, n, length);
        let t = length.ticks();
        assert((k - 1) * t + t == k * t && k * t <= n * t) by (nonlinear_arith)
            requires
                0 < k <= n,
                t > 0,
        ;
    }
}

} // verus!
