//! The two frame queues, both built on `crossbeam_channel` unbounded
//! channels.
//!
//! The recording queue is used from the capture context alone: both channel
//! endpoints live in one [`FrameQueue`], so it behaves as a plain FIFO queue
//! and its contents can be named and reasoned about.  The playback queue
//! crosses execution contexts — the capture side holds the sender, the
//! playback side the receiver — so nothing about its contents is a function
//! of either endpoint alone, and its wrappers promise nothing beyond their
//! types.

use vstd::prelude::*;

verus! {

#[verifier::external_type_specification]
#[verifier::external_body]
#[verifier::reject_recursive_types(T)]
pub struct ExSender<T>(crossbeam_channel::Sender<T>);

#[verifier::external_type_specification]
#[verifier::external_body]
#[verifier::reject_recursive_types(T)]
pub struct ExReceiver<T>(crossbeam_channel::Receiver<T>);

/// The recording queue: an unbounded FIFO of frames, drained only in bulk
/// when the activity machine flushes.  Holds both endpoints of one
/// `crossbeam_channel` unbounded channel, so no other handle to the channel
/// exists and the queue is used from a single context.
#[verifier::external_body]
pub struct FrameQueue {
    sender: crossbeam_channel::Sender<Vec<i16>>,
    receiver: crossbeam_channel::Receiver<Vec<i16>>,
}

/// The frames a [`FrameQueue`] holds, oldest first.
pub uninterp spec fn queue_frames(q: FrameQueue) -> Seq<Seq<i16>>;

impl FrameQueue {
    /// Relies on `crossbeam_channel::unbounded`: a fresh channel holds no
    /// messages.
    #[verifier::external_body]
    pub fn new() -> (q: FrameQueue)
        ensures
            queue_frames(q) == Seq::<Seq<i16>>::empty(),
    {
        let (sender, receiver) = crossbeam_channel::unbounded();
        FrameQueue { sender, receiver }
    }

    /// Relies on `crossbeam_channel::Sender::send`: on an unbounded channel
    /// the message is appended to the channel's buffer without blocking, and
    /// the call fails only when the receiver has been dropped — ours lives in
    /// the same struct.
    #[verifier::external_body]
    pub fn push(&mut self, frame: Vec<i16>)
        ensures
            queue_frames(*final(self)) == queue_frames(*old(self)).push(frame@),
    {
        let _ = self.sender.send(frame);
    }

    /// Relies on `crossbeam_channel::Receiver::try_recv`: without blocking it
    /// returns the oldest buffered message, or an error when the channel is
    /// empty.
    #[verifier::external_body]
    pub fn try_pop(&mut self) -> (r: Option<Vec<i16>>)
        ensures
            queue_frames(*old(self)).len() == 0 ==> r is None && queue_frames(*final(self))
                == queue_frames(*old(self)),
            queue_frames(*old(self)).len() > 0 ==> r is Some && r->Some_0@ == queue_frames(
                *old(self),
            )[0] && queue_frames(*final(self)) == queue_frames(*old(self)).skip(1),
    {
        self.receiver.try_recv().ok()
    }
}

/// Remove every frame from the queue and return them oldest first.
pub fn drain(q: &mut FrameQueue) -> (out: Vec<Vec<i16>>)
    ensures
        out.deep_view() == queue_frames(*old(q)),
        queue_frames(*final(q)).len() == 0,
{
    let mut out: Vec<Vec<i16>> = Vec::new();
    let ghost orig: Seq<Seq<i16>> = queue_frames(*q);
    loop
        invariant
            out.deep_view() + queue_frames(*q) == orig,
        ensures
            out.deep_view() == orig,
            queue_frames(*q).len() == 0,
        decreases queue_frames(*q).len(),
    {
        match q.try_pop() {
            Some(frame) => {
                out.push(frame);
                proof {
                    assert(out.deep_view() + queue_frames(*q) =~~= orig);
                }
            },
            None => {
                proof {
                    assert(out.deep_view() + queue_frames(*q) =~~= out.deep_view());
                }
                break ;
            },
        }
    }
    out
}

/// The pair of endpoints of the playback queue.  Relies on
/// `crossbeam_channel::unbounded`: a fresh channel holds no messages and
/// delivers them in the order sent.
#[verifier::external_body]
pub fn playback_channel() -> (pair: (
    crossbeam_channel::Sender<Vec<i16>>,
    crossbeam_channel::Receiver<Vec<i16>>,
))
{
    crossbeam_channel::unbounded()
}

/// Relies on `crossbeam_channel::Sender::send`: on an unbounded channel the
/// call never blocks and fails only when the receiver has been dropped.  The
/// channel is shared with the playback context, so nothing about its contents
/// can be promised here.
#[verifier::external_body]
pub fn send_frame(out: &crossbeam_channel::Sender<Vec<i16>>, frame: Vec<i16>) -> (ok: bool) {
    out.send(frame).is_ok()
}

/// Relies on `crossbeam_channel::Receiver::try_recv`: without blocking it
/// returns the oldest buffered message, or nothing when the channel is empty
/// or the sender has been dropped.  The channel is shared with the capture
/// context, so which of the two happens cannot be promised here.
#[verifier::external_body]
pub fn try_recv_frame(input: &crossbeam_channel::Receiver<Vec<i16>>) -> (frame: Option<Vec<i16>>) {
    input.try_recv().ok()
}

/// Send the frames to the playback queue in index order, stopping early if
/// the playback side has gone away; how many were handed to the channel.
pub fn send_all(out: &crossbeam_channel::Sender<Vec<i16>>, frames: Vec<Vec<i16>>) -> (sent: usize)
    ensures
        sent <= frames@.len(),
{
    let n: usize = frames.len();
    let mut pending = frames;
    let mut i: usize = 0;
    while pending.len() > 0
        invariant
            i + pending@.len() == n,
            n == frames@.len(),
        decreases pending@.len(),
    {
        let frame = pending.remove(0);
        if !send_frame(out, frame) {
            return i;
        }
        i = i + 1;
    }
    i
}

} // verus!
