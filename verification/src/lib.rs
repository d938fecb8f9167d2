//! A voice-activated record-and-replay pipeline: frames of 16-bit audio are
//! metered, buffered while the source is loud (plus a hysteresis grace
//! window), and flushed in order to a playback stage once the source has
//! been quiet long enough.  The playback stage feeds the output a frame of
//! silence whenever nothing is queued.

pub mod activity;
pub mod capture;
pub mod level;
pub mod model;
pub mod playback;
pub mod queue;
