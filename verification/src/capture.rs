//! The capture stage: per-frame bookkeeping on the capture context.  Each
//! captured frame is metered, run through the activity machine, recorded
//! while the machine is active, and — on the OFF transition — the whole
//! recording queue is handed back, oldest first, to be sent to playback.

use vstd::prelude::*;
use crate::activity::ActivityState;
use crate::activity::step_flushes;
use crate::activity::step_state;
use crate::activity::step_turns_on;
use crate::level::audio_level;
use crate::level::peak_level;
use crate::model::Pipeline;
use crate::model::pipeline_step;
use crate::queue::FrameQueue;
use crate::queue::drain;
use crate::queue::queue_frames;

verus! {

/// The capture-side state: the activity machine and the recording queue.
pub struct Capture {
    pub state: ActivityState,
    pub recording: FrameQueue,
}

/// What one captured frame made the capture stage do.
pub struct FrameOutcome {
    /// The machine just turned on; "ON" is to be reported once.
    pub on_edge: bool,
    /// The machine just turned off; "OFF" is to be reported once.
    pub off_edge: bool,
    /// The frames flushed by this frame's OFF transition, in capture order;
    /// empty when no flush happened.
    pub flushed: Vec<Vec<i16>>,
}

impl Capture {
    /// A capture stage before the first frame: machine inactive, recording
    /// queue empty.
    pub fn new() -> (c: Capture)
        ensures
            c.state == ActivityState::initial(),
            queue_frames(c.recording) == Seq::<Seq<i16>>::empty(),
    {
        Capture { state: ActivityState::new(), recording: FrameQueue::new() }
    }

    /// Meter one captured frame and advance the pipeline by it: exactly
    /// `pipeline_step` on the machine's state and the recording queue, with
    /// the flushed frames — what that step moves to playback — handed back in
    /// capture order.
    pub fn handle_frame(&mut self, frame: Vec<i16>, threshold: i16, hysteresis: usize) -> (r:
        FrameOutcome)
        ensures
            pipeline_step(
                Pipeline {
                    state: old(self).state,
                    recording: queue_frames(old(self).recording),
                    playback: Seq::empty(),
                },
                frame@,
                threshold,
                hysteresis,
            ) == (Pipeline {
                state: final(self).state,
                recording: queue_frames(final(self).recording),
                playback: r.flushed.deep_view(),
            }),
            final(self).state == step_state(
                old(self).state,
                peak_level(frame@) > threshold,
                hysteresis,
            ),
            r.on_edge == step_turns_on(old(self).state, peak_level(frame@) > threshold),
            r.off_edge == step_flushes(old(self).state, peak_level(frame@) > threshold),
            old(self).state.wf(hysteresis) ==> final(self).state.wf(hysteresis),
    {
        let level: i16 = audio_level(frame.as_slice());
        let step = self.state.step(level, threshold, hysteresis);
        let mut flushed: Vec<Vec<i16>> = Vec::new();
        if step.record {
            self.recording.push(frame);
        } else if step.flush {
            flushed = drain(&mut self.recording);
        }
        proof {
            let before = Pipeline {
                state: old(self).state,
                recording: queue_frames(old(self).recording),
                playback: Seq::empty(),
            };
            let after = Pipeline {
                state: self.state,
                recording: queue_frames(self.recording),
                playback: flushed.deep_view(),
            };
            assert(pipeline_step(before, frame@, threshold, hysteresis) =~~= after);
        }
        FrameOutcome { on_edge: step.on_edge, off_edge: step.off_edge, flushed }
    }
}

} // verus!
