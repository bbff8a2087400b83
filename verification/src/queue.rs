//! The bounded queue of frames that wait for the bulk IN endpoint:
//! `heapless::spsc::Queue`, used from one context through `&mut`.
//!
//! The queue's code is not verified here. What this module says of it is
//! taken on trust from its source: a ring buffer of `N` slots that keeps one
//! slot free, so that a queue of 65 slots holds up to 64 frames, takes them
//! at the tail and gives them out at the head.

use crate::frame::Frame;
use heapless::spsc::Queue;
use vstd::prelude::*;

verus! {

/// `heapless::spsc::Queue`, opaque to the verifier: nothing is known of a
/// queue but what the functions below say.
#[verifier::external_type_specification]
#[verifier::external_body]
#[verifier::reject_recursive_types(T)]
pub struct ExQueue<T, const N: usize>(Queue<T, N>);

/// The frames that a `heapless::spsc::Queue` holds, the one that leaves
/// next first.
pub uninterp spec fn queued(q: Queue<Frame, 65>) -> Seq<Frame>;

/// `Queue::new`: the new queue holds nothing.
#[verifier::external_body]
pub(crate) fn queue_new() -> (q: Queue<Frame, 65>)
    ensures
        queued(q) == Seq::<Frame>::empty(),
{
    Queue::new()
}

/// `Queue::enqueue`: a queue made for 65 slots takes a frame at its tail
/// while it holds fewer than 64, and says `Ok`; one that holds 64 is left
/// as it was and hands the frame back in `Err`.
#[verifier::external_body]
pub(crate) fn queue_enqueue(q: &mut Queue<Frame, 65>, frame: Frame) -> (r: Result<(), Frame>)
    ensures
        r is Ok <==> queued(*old(q)).len() < 64,
        r matches Err(back) ==> back == frame,
        queued(*final(q)) == if r is Ok {
            queued(*old(q)).push(frame)
        } else {
            queued(*old(q))
        },
{
    q.enqueue(frame)
}

/// `Queue::dequeue`: the frame at the head leaves the queue and is
/// returned; an empty queue gives `None` and stays empty.
#[verifier::external_body]
pub(crate) fn queue_dequeue(q: &mut Queue<Frame, 65>) -> (r: Option<Frame>)
    ensures
        r == if queued(*old(q)).len() > 0 {
            Some(queued(*old(q))[0])
        } else {
            None
        },
        queued(*final(q)) == if queued(*old(q)).len() > 0 {
            queued(*old(q)).drop_first()
        } else {
            queued(*old(q))
        },
{
    q.dequeue()
}

/// `Queue::peek`: a copy of the frame at the head, `None` for an empty
/// queue.
#[verifier::external_body]
pub(crate) fn queue_peek(q: &Queue<Frame, 65>) -> (r: Option<Frame>)
    ensures
        r == if queued(*q).len() > 0 {
            Some(queued(*q)[0])
        } else {
            None
        },
{
    q.peek().copied()
}

/// `Queue::len`: the number of frames in the queue.
#[verifier::external_body]
pub(crate) fn queue_len(q: &Queue<Frame, 65>) -> (r: usize)
    ensures
        r == queued(*q).len(),
{
    q.len()
}

} // verus!
