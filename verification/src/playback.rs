//! The playback stage decision: what one playback cycle writes to the output
//! device.  The dequeue attempt never blocks; when nothing is queued the
//! cycle writes a frame of silence, so the device is continuously fed and
//! never starves.

use vstd::prelude::*;

verus! {

/// A frame of nothing but zero samples.
pub open spec fn is_silence(s: Seq<i16>) -> bool {
    forall|i: int| 0 <= i < s.len() ==> s[i] == 0i16
}

/// A frame of `len` zero samples.
pub fn silence_frame(len: usize) -> (out: Vec<i16>)
    ensures
        out@.len() == len,
        is_silence(out@),
{
    let mut out: Vec<i16> = Vec::new();
    while out.len() < len
        invariant
            out@.len() <= len,
            is_silence(out@),
        decreases len - out@.len(),
    {
        out.push(0i16);
    }
    out
}

/// What one playback cycle writes: the dequeued frame when there is one,
/// else a frame of silence of the configured length.
pub fn playback_frame(next: Option<Vec<i16>>, silence_len: usize) -> (out: Vec<i16>)
    ensures
        next is Some ==> out == next->Some_0,
        next is None ==> out@.len() == silence_len && is_silence(out@),
{
    match next {
        Some(frame) => frame,
        None => silence_frame(silence_len),
    }
}

} // verus!
