use echoback::activity::ActivityState;
use echoback::capture::Capture;
use echoback::level::audio_level;
use echoback::playback::playback_frame;
use echoback::playback::silence_frame;
use echoback::queue::playback_channel;
use echoback::queue::send_all;
use echoback::queue::try_recv_frame;
use echoback::queue::FrameQueue;

#[test]
fn level_of_empty_frame_is_zero() {
    let samples: Vec<i16> = Vec::new();
    assert_eq!(audio_level(&samples), 0);
}

#[test]
fn level_is_max_absolute_sample() {
    assert_eq!(audio_level(&[3, -7, 5]), 7);
    assert_eq!(audio_level(&[0, 0, 0]), 0);
    assert_eq!(audio_level(&[-1, -2, -3]), 3);
    assert_eq!(audio_level(&[1500, 200, -900]), 1500);
    assert_eq!(audio_level(&[32767, -32767]), 32767);
}

#[test]
fn level_saturates_on_most_negative_sample() {
    assert_eq!(audio_level(&[i16::MIN]), i16::MAX);
    assert_eq!(audio_level(&[100, i16::MIN, -200]), i16::MAX);
    assert!(audio_level(&[i16::MIN, i16::MIN]) >= 0);
}

#[test]
fn loud_frame_turns_machine_on_once() {
    let mut st = ActivityState::new();
    let r = st.step(1500, 1000, 2);
    assert!(r.on_edge);
    assert!(r.record);
    assert!(!r.off_edge);
    assert!(!r.flush);
    assert!(st.is_active);
    assert_eq!(st.grace_remaining, 2);
    // A second loud frame rearms the grace counter but is not a new edge.
    let r2 = st.step(2000, 1000, 2);
    assert!(!r2.on_edge);
    assert!(r2.record);
    assert_eq!(st.grace_remaining, 2);
}

#[test]
fn level_equal_to_threshold_is_quiet() {
    let mut st = ActivityState::new();
    let r = st.step(1000, 1000, 2);
    assert!(!r.on_edge);
    assert!(!r.record);
    assert!(!st.is_active);
}

#[test]
fn quiet_machine_stays_off_without_edges() {
    let mut st = ActivityState::new();
    for _ in 0..5 {
        let r = st.step(0, 1000, 3);
        assert!(!r.on_edge);
        assert!(!r.off_edge);
        assert!(!r.record);
        assert!(!r.flush);
        assert!(!st.is_active);
    }
}

#[test]
fn grace_window_absorbs_quiet_frames_then_turns_off() {
    let mut st = ActivityState::new();
    st.step(1500, 1000, 2);
    // Two quiet frames run the counter down but produce no OFF edge.
    let r1 = st.step(200, 1000, 2);
    assert!(!r1.off_edge);
    assert!(r1.record);
    assert_eq!(st.grace_remaining, 1);
    let r2 = st.step(200, 1000, 2);
    assert!(!r2.off_edge);
    assert!(r2.record);
    assert_eq!(st.grace_remaining, 0);
    assert!(st.is_active);
    // The quiet frame after the window is the one OFF transition.
    let r3 = st.step(200, 1000, 2);
    assert!(r3.off_edge);
    assert!(r3.flush);
    assert!(!r3.record);
    assert!(!st.is_active);
    // And it happens only once.
    let r4 = st.step(200, 1000, 2);
    assert!(!r4.off_edge);
    assert!(!r4.flush);
}

#[test]
fn loud_frame_inside_grace_window_rearms_counter() {
    let mut st = ActivityState::new();
    st.step(1500, 1000, 3);
    st.step(0, 1000, 3);
    st.step(0, 1000, 3);
    assert_eq!(st.grace_remaining, 1);
    st.step(1200, 1000, 3);
    assert_eq!(st.grace_remaining, 3);
    assert!(st.is_active);
}

#[test]
fn example_scenario_flushes_first_three_frames_in_order() {
    // Threshold 1000, block size 4, hysteresis 2; frame levels
    // 1500, 200, 200, 200.
    let f1: Vec<i16> = vec![1500, 0, 0, 0];
    let f2: Vec<i16> = vec![200, -200, 0, 0];
    let f3: Vec<i16> = vec![0, 0, 200, 0];
    let f4: Vec<i16> = vec![0, 0, 0, -200];
    let mut cap = Capture::new();

    let r1 = cap.handle_frame(f1.clone(), 1000, 2);
    assert!(r1.on_edge);
    assert!(!r1.off_edge);
    assert!(r1.flushed.is_empty());

    let r2 = cap.handle_frame(f2.clone(), 1000, 2);
    assert!(!r2.on_edge);
    assert!(!r2.off_edge);
    assert!(r2.flushed.is_empty());

    let r3 = cap.handle_frame(f3.clone(), 1000, 2);
    assert!(!r3.on_edge);
    assert!(!r3.off_edge);
    assert!(r3.flushed.is_empty());

    let r4 = cap.handle_frame(f4.clone(), 1000, 2);
    assert!(!r4.on_edge);
    assert!(r4.off_edge);
    // Frames 1 to 3 are flushed in capture order; the OFF frame itself is
    // excluded.
    assert_eq!(r4.flushed, vec![f1, f2, f3]);

    // Nothing is left behind to be flushed twice.
    let r5 = cap.handle_frame(f4.clone(), 1000, 2);
    assert!(!r5.off_edge);
    assert!(r5.flushed.is_empty());
}

#[test]
fn frames_while_fully_off_are_never_recorded() {
    let quiet: Vec<i16> = vec![100, -100, 50, 0];
    let loud: Vec<i16> = vec![2000, 0, 0, 0];
    let off1: Vec<i16> = vec![0, 0, 0, 0];
    let mut cap = Capture::new();
    // Quiet frames before any ON are discarded.
    for _ in 0..3 {
        let r = cap.handle_frame(quiet.clone(), 1000, 0);
        assert!(!r.on_edge && !r.off_edge && r.flushed.is_empty());
    }
    // One loud frame, then the OFF frame: only the loud frame was recorded.
    let r_on = cap.handle_frame(loud.clone(), 1000, 0);
    assert!(r_on.on_edge);
    let r_off = cap.handle_frame(off1, 1000, 0);
    assert!(r_off.off_edge);
    assert_eq!(r_off.flushed, vec![loud]);
}

#[test]
fn recording_queue_preserves_order() {
    let mut q = FrameQueue::new();
    assert!(q.try_pop().is_none());
    q.push(vec![1, 2]);
    q.push(vec![3]);
    q.push(vec![4, 5, 6]);
    assert_eq!(q.try_pop(), Some(vec![1, 2]));
    assert_eq!(q.try_pop(), Some(vec![3]));
    assert_eq!(q.try_pop(), Some(vec![4, 5, 6]));
    assert!(q.try_pop().is_none());
}

#[test]
fn playback_channel_delivers_in_send_order() {
    let (s, r) = playback_channel();
    let sent: usize = send_all(&s, vec![vec![1], vec![2], vec![3]]);
    assert_eq!(sent, 3);
    assert_eq!(try_recv_frame(&r), Some(vec![1]));
    assert_eq!(try_recv_frame(&r), Some(vec![2]));
    assert_eq!(try_recv_frame(&r), Some(vec![3]));
    assert_eq!(try_recv_frame(&r), None);
}

#[test]
fn send_all_stops_when_playback_side_is_gone() {
    let (s, r) = playback_channel();
    drop(r);
    let sent: usize = send_all(&s, vec![vec![1], vec![2]]);
    assert_eq!(sent, 0);
}

#[test]
fn empty_playback_queue_yields_silence() {
    let frame = playback_frame(None, 4800);
    assert_eq!(frame.len(), 4800);
    assert!(frame.iter().all(|&s| s == 0));
}

#[test]
fn queued_frame_is_played_unchanged() {
    let f: Vec<i16> = vec![7, -8, 9];
    let frame = playback_frame(Some(f.clone()), 4800);
    assert_eq!(frame, f);
}

#[test]
fn silence_frame_has_requested_length() {
    assert_eq!(silence_frame(0).len(), 0);
    let s = silence_frame(5);
    assert_eq!(s, vec![0, 0, 0, 0, 0]);
}
