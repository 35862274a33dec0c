//! The note queue of a track: a ring of fixed depth from `heapless`.
//!
//! Verus does not look inside the ring. Its contents have a name, `queued`,
//! and each operation on it is a small function whose contract says, over
//! that name, what `heapless` does. These contracts are believed, not
//! proved.

use vstd::prelude::*;
use heapless::Deque;
use crate::track::Note;

verus! {

/// The number of notes that the queue of a track can hold.
pub const TRACK_DEPTH: usize = 128;

/// `heapless::Deque`, a double-ended queue of fixed capacity. Nothing is
/// known of its fields.
#[verifier::external_type_specification]
#[verifier::external_body]
#[verifier::reject_recursive_types(T)]
pub struct ExDeque<T, const N: usize>(Deque<T, N>);

/// The notes in the queue, front first.
pub uninterp spec fn queued(q: Deque<Note, 128>) -> Seq<Note>;

/// `Deque::new`: a queue that holds nothing.
#[verifier::external_body]
pub(crate) fn queue_new() -> (q: Deque<Note, TRACK_DEPTH>)
    ensures
        queued(q) == Seq::<Note>::empty(),
{
    Deque::new()
}

/// `Deque::clear`: afterwards the queue holds nothing.
#[verifier::external_body]
pub(crate) fn queue_clear(q: &mut Deque<Note, TRACK_DEPTH>)
    ensures
        queued(*final(q)) == Seq::<Note>::empty(),
{
    q.clear()
}

/// `Deque::is_empty`: whether the queue holds nothing.
#[verifier::external_body]
pub(crate) fn queue_is_empty(q: &Deque<Note, TRACK_DEPTH>) -> (b: bool)
    ensures
        b == (queued(*q).len() == 0),
{
    q.is_empty()
}

/// `Deque::is_full`: whether the queue holds as many notes as it has room
/// for.
#[verifier::external_body]
pub(crate) fn queue_is_full(q: &Deque<Note, TRACK_DEPTH>) -> (b: bool)
    ensures
        b == (queued(*q).len() == TRACK_DEPTH),
{
    q.is_full()
}

/// `Deque::pop_front`: takes the first note out of the queue, if there is
/// one. A queue that a note was taken from is not full.
#[verifier::external_body]
pub(crate) fn queue_pop_front(q: &mut Deque<Note, TRACK_DEPTH>) -> (r: Option<Note>)
    ensures
        queued(*old(q)).len() == 0 ==> r is None && queued(*final(q)) == queued(*old(q)),
        queued(*old(q)).len() > 0 ==> r == Some(queued(*old(q)).first()) && queued(*final(q))
            == queued(*old(q)).drop_first() && queued(*final(q)).len() < TRACK_DEPTH,
{
    q.pop_front()
}

/// `Deque::pop_back`: takes the last note out of the queue, if there is one.
/// A queue that a note was taken from is not full.
#[verifier::external_body]
pub(crate) fn queue_pop_back(q: &mut Deque<Note, TRACK_DEPTH>) -> (r: Option<Note>)
    ensures
        queued(*old(q)).len() == 0 ==> r is None && queued(*final(q)) == queued(*old(q)),
        queued(*old(q)).len() > 0 ==> r == Some(queued(*old(q)).last()) && queued(*final(q))
            == queued(*old(q)).drop_last() && queued(*final(q)).len() < TRACK_DEPTH,
{
    q.pop_back()
}

/// `Deque::push_front`: puts a note before the first. A full queue hands the
/// note back and stays as it was.
#[verifier::external_body]
pub(crate) fn queue_push_front(q: &mut Deque<Note, TRACK_DEPTH>, item: Note) -> (r: Result<
    (),
    Note,
>)
    ensures
        queued(*old(q)).len() == TRACK_DEPTH ==> r is Err && r->Err_0 == item && queued(
            *final(q),
        ) == queued(*old(q)),
        queued(*old(q)).len() != TRACK_DEPTH ==> r is Ok && queued(*final(q)) == seq![item]
            + queued(*old(q)),
{
    q.push_front(item)
}

/// `Deque::push_back`: puts a note behind the last. A full queue hands the
/// note back and stays as it was.
#[verifier::external_body]
pub(crate) fn queue_push_back(q: &mut Deque<Note, TRACK_DEPTH>, item: Note) -> (r: Result<
    (),
    Note,
>)
    ensures
        queued(*old(q)).len() == TRACK_DEPTH ==> r is Err && r->Err_0 == item && queued(
            *final(q),
        ) == queued(*old(q)),
        queued(*old(q)).len() != TRACK_DEPTH ==> r is Ok && queued(*final(q)) == queued(
            *old(q),
        ).push(item),
{
    q.push_back(item)
}

} // verus!
