use copper_engine::driver::{Control, Entity, FrameDriver, LoopEvent, Phase, Submission};

fn running(objects: usize) -> FrameDriver {
    let mut d = FrameDriver::new();
    d.awake(objects);
    d.begin_frame(1_000, objects);
    d
}

#[test]
fn new_driver_is_uninitialized() {
    let d = FrameDriver::new();
    assert_eq!(d.phase, Phase::Uninitialized);
    assert_eq!(d.window_size, [0, 0]);
    assert_eq!(d.drawn_frames, 0);
}

#[test]
fn awake_runs_camera_then_objects_once() {
    let mut d = FrameDriver::new();
    assert_eq!(d.awake(2), vec![Entity::Camera, Entity::Object(0), Entity::Object(1)]);
    assert_eq!(d.phase, Phase::Awake);
    assert_eq!(d.awake(2), vec![]);
    assert_eq!(d.phase, Phase::Awake);
}

#[test]
fn no_frame_before_awake() {
    let mut d = FrameDriver::new();
    assert_eq!(d.handle(LoopEvent::RedrawRequested), Control::Continue);
    assert_eq!(d.begin_frame(5, 3), vec![]);
    assert_eq!(d.phase, Phase::Uninitialized);
    assert_eq!(d.clock.time_since_start, 0);
}

#[test]
fn redraw_after_awake_runs_a_frame() {
    let mut d = FrameDriver::new();
    d.awake(0);
    assert_eq!(d.handle(LoopEvent::RedrawRequested), Control::RunFrame);
}

#[test]
fn begin_frame_ticks_camera_then_objects() {
    let mut d = FrameDriver::new();
    d.awake(3);
    let order = d.begin_frame(2_500, 3);
    assert_eq!(order, vec![Entity::Camera, Entity::Object(0), Entity::Object(1), Entity::Object(2)]);
    assert_eq!(d.phase, Phase::Running);
    assert_eq!(d.clock.time_since_start, 2_500);
    assert_eq!(d.clock.delta_time, 2_500);
}

#[test]
fn resize_records_window_size() {
    let mut d = FrameDriver::new();
    assert_eq!(d.handle(LoopEvent::Resized { width: 800, height: 600 }), Control::Continue);
    assert_eq!(d.window_size, [800, 600]);
}

#[test]
fn resume_time_asks_for_redraw() {
    let mut d = running(0);
    assert_eq!(d.handle(LoopEvent::ResumeTimeReached), Control::RequestRedraw);
    assert_eq!(d.handle(LoopEvent::Other), Control::Continue);
}

#[test]
fn close_terminates_the_run() {
    let mut d = running(1);
    assert_eq!(d.handle(LoopEvent::CloseRequested), Control::Exit);
    assert_eq!(d.phase, Phase::Terminated);
    assert_eq!(d.handle(LoopEvent::RedrawRequested), Control::Exit);
    assert_eq!(d.handle(LoopEvent::Resized { width: 1, height: 1 }), Control::Exit);
    assert_eq!(d.window_size, [0, 0]);
    assert_eq!(d.begin_frame(9_000, 1), vec![]);
}

#[test]
fn destroy_terminates_the_run() {
    let mut d = running(0);
    assert_eq!(d.handle(LoopEvent::Destroyed), Control::Exit);
    assert_eq!(d.phase, Phase::Terminated);
}

#[test]
fn empty_frame_submits_nothing_and_time_advances() {
    let mut d = FrameDriver::new();
    d.awake(0);
    assert_eq!(d.begin_frame(10, 0), vec![Entity::Camera]);
    let mut triggered: Vec<bool> = vec![];
    assert_eq!(d.end_frame(0, &mut triggered), vec![]);
    assert_eq!(d.drawn_frames, 1);
    let before = d.clock.time_since_start;
    d.begin_frame(25, 0);
    assert!(d.clock.time_since_start >= before);
    assert_eq!(d.clock.delta_time, 15);
}

#[test]
fn end_frame_draws_then_plays_triggered_sources() {
    let mut d = running(2);
    let mut triggered = vec![true, false, true];
    let out = d.end_frame(2, &mut triggered);
    assert_eq!(
        out,
        vec![Submission::Draw(0), Submission::Draw(1), Submission::Play(0), Submission::Play(2)]
    );
    assert_eq!(triggered, vec![false, false, false]);
    assert_eq!(d.drawn_frames, 1);
}

#[test]
fn triggered_source_plays_once() {
    let mut d = running(0);
    let mut triggered = vec![false, true];
    assert_eq!(d.end_frame(0, &mut triggered), vec![Submission::Play(1)]);
    assert!(!triggered[1]);
    d.begin_frame(2_000, 0);
    assert_eq!(d.end_frame(0, &mut triggered), vec![]);
    triggered[1] = true;
    d.begin_frame(3_000, 0);
    assert_eq!(d.end_frame(0, &mut triggered), vec![Submission::Play(1)]);
}

#[test]
fn end_frame_outside_running_changes_nothing() {
    let mut d = FrameDriver::new();
    d.awake(1);
    let mut triggered = vec![true];
    assert_eq!(d.end_frame(1, &mut triggered), vec![]);
    assert_eq!(triggered, vec![true]);
    assert_eq!(d.drawn_frames, 0);
}

#[test]
fn frame_count_stays_at_largest_value() {
    let mut d = running(0);
    d.drawn_frames = u64::MAX;
    let mut triggered: Vec<bool> = vec![];
    d.end_frame(0, &mut triggered);
    assert_eq!(d.drawn_frames, u64::MAX);
}

#[test]
fn each_object_ticks_once_per_frame_for_n_frames() {
    let mut d = FrameDriver::new();
    d.awake(1);
    let step: u64 = 20_000_000;
    let mut ticks = 0u64;
    for n in 1..=5u64 {
        let order = d.begin_frame(n * step, 1);
        ticks += order.iter().filter(|e| **e == Entity::Object(0)).count() as u64;
        assert_eq!(d.clock.delta_time, step);
        let mut triggered: Vec<bool> = vec![];
        d.end_frame(1, &mut triggered);
    }
    assert_eq!(ticks, 5);
    assert_eq!(d.clock.time_since_start, 5 * step);
    assert_eq!(d.drawn_frames, 5);
}

#[test]
fn frames_per_second_over_whole_seconds_plus_one() {
    let mut d = running(0);
    d.drawn_frames = 300;
    d.clock.time_since_start = 2_500_000_000;
    assert_eq!(d.frames_per_second(), 100);
    d.clock.time_since_start = 999_999_999;
    assert_eq!(d.frames_per_second(), 300);
}
