//! A mathematical model of the whole pipeline — activity machine, recording
//! queue and playback queue — and the laws it obeys: what one captured frame
//! does to the queues, and what a whole run of frames leaves in them.

use vstd::prelude::*;
use crate::activity::ActivityState;
use crate::activity::step_flushes;
use crate::activity::step_records;
use crate::activity::step_state;
use crate::level::peak_level;

verus! {

/// The pipeline as one value: the activity machine's state and the contents
/// of the two queues, oldest frame first.
#[verifier::ext_equal]
pub struct Pipeline {
    pub state: ActivityState,
    pub recording: Seq<Seq<i16>>,
    pub playback: Seq<Seq<i16>>,
}

/// The pipeline before the first frame: machine inactive, both queues empty.
pub open spec fn pipeline_init() -> Pipeline {
    Pipeline {
        state: ActivityState::initial(),
        recording: Seq::empty(),
        playback: Seq::empty(),
    }
}

/// The pipeline after one captured frame, for threshold `t` and hysteresis
/// `h`: an OFF transition moves the whole recording queue, in order, onto the
/// playback queue; otherwise the frame is appended to the recording queue
/// exactly when the machine is active once the frame has been accounted for.
pub open spec fn pipeline_step(p: Pipeline, frame: Seq<i16>, t: i16, h: usize) -> Pipeline {
    let loud = peak_level(frame) > t;
    let next = step_state(p.state, loud, h);
    if step_flushes(p.state, loud) {
        Pipeline { state: next, recording: Seq::empty(), playback: p.playback + p.recording }
    } else if step_records(p.state, loud, h) {
        Pipeline { state: next, recording: p.recording.push(frame), playback: p.playback }
    } else {
        Pipeline { state: next, recording: p.recording, playback: p.playback }
    }
}

/// The pipeline after a sequence of captured frames, oldest first.
pub open spec fn pipeline_run(p: Pipeline, frames: Seq<Seq<i16>>, t: i16, h: usize) -> Pipeline
    decreases frames.len(),
{
    if frames.len() == 0 {
        p
    } else {
        pipeline_run(pipeline_step(p, frames[0], t, h), frames.skip(1), t, h)
    }
}

/// The frames the activity machine records along `frames`, in capture order.
pub open spec fn recorded_frames(st: ActivityState, frames: Seq<Seq<i16>>, t: i16, h: usize) -> Seq<
    Seq<i16>,
>
    decreases frames.len(),
{
    if frames.len() == 0 {
        Seq::empty()
    } else {
        let loud = peak_level(frames[0]) > t;
        let head = if step_records(st, loud, h) {
            seq![frames[0]]
        } else {
            Seq::<Seq<i16>>::empty()
        };
        head + recorded_frames(step_state(st, loud, h), frames.skip(1), t, h)
    }
}

/// Flush completeness and ordering: over any run, the playback queue followed
/// by the recording queue holds exactly what was there before plus every
/// frame recorded along the run, in capture order — nothing is dropped,
/// duplicated or reordered anywhere in the pipeline.
pub proof fn lemma_flush_complete(p: Pipeline, frames: Seq<Seq<i16>>, t: i16, h: usize)
    ensures
        pipeline_run(p, frames, t, h).playback + pipeline_run(p, frames, t, h).recording
            == p.playback + p.recording + recorded_frames(p.state, frames, t, h),
    decreases frames.len(),
{
    if frames.len() == 0 {
        assert(p.playback + p.recording + recorded_frames(p.state, frames, t, h) =~= p.playback
            + p.recording);
    } else {
        let loud = peak_level(frames[0]) > t;
        let p1 = pipeline_step(p, frames[0], t, h);
        lemma_flush_complete(p1, frames.skip(1), t, h);
        let rest = recorded_frames(p1.state, frames.skip(1), t, h);
        if step_flushes(p.state, loud) {
            assert(p1.playback + p1.recording =~= p.playback + p.recording);
            assert(p.playback + p.recording + rest =~= p.playback + p.recording
                + recorded_frames(p.state, frames, t, h));
        } else if step_records(p.state, loud, h) {
            assert(p1.playback + p1.recording =~= p.playback + p.recording + seq![frames[0]]);
            assert(p.playback + p.recording + (seq![frames[0]] + rest) =~= (p.playback + p.recording
                + seq![frames[0]]) + rest);
        } else {
            assert(p.playback + p.recording + rest =~= p.playback + p.recording
                + recorded_frames(p.state, frames, t, h));
        }
    }
}

/// A run followed by one more frame is the run's result stepped by that
/// frame; and the frames recorded along it are those recorded along the run,
/// then the last frame exactly when the machine, as the run left it, records
/// it.
pub proof fn lemma_run_snoc(p: Pipeline, frames: Seq<Seq<i16>>, last: Seq<i16>, t: i16, h: usize)
    ensures
        pipeline_run(p, frames.push(last), t, h) == pipeline_step(
            pipeline_run(p, frames, t, h),
            last,
            t,
            h,
        ),
        recorded_frames(p.state, frames.push(last), t, h) == recorded_frames(p.state, frames, t, h)
            + (if step_records(pipeline_run(p, frames, t, h).state, peak_level(last) > t, h) {
            seq![last]
        } else {
            Seq::<Seq<i16>>::empty()
        }),
    decreases frames.len(),
{
    reveal_with_fuel(pipeline_run, 2);
    reveal_with_fuel(recorded_frames, 2);
    if frames.len() == 0 {
        let s1 = frames.push(last);
        assert(s1[0] == last);
        assert(s1.skip(1) =~= Seq::<Seq<i16>>::empty());
        assert(recorded_frames(p.state, s1, t, h) =~= recorded_frames(p.state, frames, t, h) + (
        if step_records(p.state, peak_level(last) > t, h) {
            seq![last]
        } else {
            Seq::<Seq<i16>>::empty()
        }));
    } else {
        let p1 = pipeline_step(p, frames[0], t, h);
        lemma_run_snoc(p1, frames.skip(1), last, t, h);
        assert(frames.push(last)[0] == frames[0]);
        assert(frames.push(last).skip(1) =~= frames.skip(1).push(last));
        let loud0 = peak_level(frames[0]) > t;
        let head = if step_records(p.state, loud0, h) {
            seq![frames[0]]
        } else {
            Seq::<Seq<i16>>::empty()
        };
        let tailrec = if step_records(
            pipeline_run(p, frames, t, h).state,
            peak_level(last) > t,
            h,
        ) {
            seq![last]
        } else {
            Seq::<Seq<i16>>::empty()
        };
        assert(head + (recorded_frames(p1.state, frames.skip(1), t, h) + tailrec) =~= (head
            + recorded_frames(p1.state, frames.skip(1), t, h)) + tailrec);
    }
}

/// The whole-utterance law: if the frame after a run is the OFF transition,
/// stepping by it empties the recording queue and leaves on the playback
/// queue, after whatever was there at the start, every frame recorded along
/// the run, in capture order.
pub proof fn lemma_utterance_replayed(
    p: Pipeline,
    frames: Seq<Seq<i16>>,
    last: Seq<i16>,
    t: i16,
    h: usize,
)
    requires
        step_flushes(pipeline_run(p, frames, t, h).state, peak_level(last) > t),
    ensures
        pipeline_run(p, frames.push(last), t, h).recording.len() == 0,
        pipeline_run(p, frames.push(last), t, h).playback == p.playback + p.recording
            + recorded_frames(p.state, frames, t, h),
    decreases frames.len(),
{
    lemma_run_snoc(p, frames, last, t, h);
    lemma_flush_complete(p, frames, t, h);
}

/// A frame observed while the pipeline is fully off — the machine inactive
/// and the frame quiet — is neither recorded nor ever played: both queues are
/// left exactly as they were, and the machine stays inactive.
pub proof fn lemma_idle_frame_discarded(p: Pipeline, frame: Seq<i16>, t: i16, h: usize)
    requires
        !p.state.is_active,
        peak_level(frame) <= t,
    ensures
        pipeline_step(p, frame, t, h).recording == p.recording,
        pipeline_step(p, frame, t, h).playback == p.playback,
        !pipeline_step(p, frame, t, h).state.is_active,
{
}

} // verus!
