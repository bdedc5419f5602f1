use js_native::timer::{frame_due, reading_millis, span_millis, FrameStep, Stopwatch, TimeType, Timers, FPS};
use std::time::{Duration, Instant};

#[test]
fn timer_test() {
    let mut timers = Timers::new();
    let id = timers.request_animation_frame(None);
    assert_eq!(id, Some(1));
    let frame = timers.animation_frame().unwrap();
    assert_eq!(frame.delay(), 1000 / FPS);
    assert_eq!(frame.kind(), TimeType::Loop);

    let began = Instant::now();
    let mut frames = 0;
    while began.elapsed() < Duration::from_secs(5) {
        timers.take_due();
        match timers.frame_step() {
            FrameStep::Fire { id, .. } => {
                assert_eq!(id, 1);
                timers.frame_done();
                frames += 1;
                if frames == 2 {
                    timers.stop_frames(true);
                }
            }
            FrameStep::Stopped => break,
            FrameStep::Wait => {}
            FrameStep::Idle => panic!("a frame callback was requested"),
        }
    }
    assert_eq!(frames, 2);
    assert!(matches!(timers.frame_step(), FrameStep::Stopped));
}

#[test]
fn ids_count_up_from_one() {
    let mut timers = Timers::new();
    assert_eq!(timers.generator_id(), 1);
    assert_eq!(timers.set_timeout(10), 2);
    assert_eq!(timers.set_interval(10), 3);
    let kinds: Vec<TimeType> = timers.events().iter().map(|t| t.kind()).collect();
    assert_eq!(kinds, vec![TimeType::Timeout, TimeType::Interval]);
}

#[test]
fn only_one_animation_frame() {
    let mut timers = Timers::new();
    assert_eq!(timers.request_animation_frame(Some(120)), Some(1));
    assert_eq!(timers.animation_frame().unwrap().delay(), 1000 / 120);
    assert_eq!(timers.request_animation_frame(None), None);
    assert_eq!(timers.generator_id(), 2);
}

#[test]
fn slow_frame_rate_is_raised_to_the_default() {
    let mut timers = Timers::new();
    timers.request_animation_frame(Some(10));
    assert_eq!(timers.animation_frame().unwrap().delay(), 16);
}

#[test]
fn no_frame_callback_is_idle() {
    let mut timers = Timers::new();
    assert!(matches!(timers.frame_step(), FrameStep::Idle));
}

#[test]
fn timeout_fires_once_interval_repeats() {
    let mut timers = Timers::new();
    let t = timers.set_timeout(0);
    let i = timers.set_interval(0);
    assert_eq!(timers.take_due(), vec![t, i]);
    assert_eq!(timers.take_due(), vec![i]);
    assert_eq!(timers.take_due(), vec![i]);
    let runs: Vec<u32> = timers.events().iter().map(|e| e.execute_num()).collect();
    assert_eq!(runs, vec![1, 3]);
}

#[test]
fn long_delay_does_not_fire() {
    let mut timers = Timers::new();
    timers.set_timeout(1_000_000);
    assert!(timers.take_due().is_empty());
    assert_eq!(timers.events()[0].execute_num(), 0);
}

#[test]
fn cleared_timers_are_dropped() {
    let mut timers = Timers::new();
    let t = timers.set_timeout(0);
    let i = timers.set_interval(0);
    // clearing by the wrong kind changes nothing
    timers.clear_interval(t);
    assert!(!timers.events()[0].is_deleted());
    timers.clear_timeout(t);
    assert!(timers.events()[0].is_deleted());
    assert_eq!(timers.take_due(), vec![i]);
    timers.clear_interval(i);
    assert!(timers.take_due().is_empty());
    assert!(timers.events().is_empty());
}

#[test]
fn millisecond_arithmetic() {
    assert_eq!(span_millis(1_000_000, 3_999_999), Some(2));
    assert_eq!(span_millis(5, 5), Some(0));
    assert_eq!(span_millis(6, 5), None);
    assert_eq!(reading_millis(Some(12_345_678)), 12);
    assert_eq!(reading_millis(None), 0);
    assert!(frame_due(40, 20, 16));
    assert!(!frame_due(36, 20, 16));
    assert!(!frame_due(10, 20, 16));
}

#[test]
fn stopwatch_marks_and_spans() {
    let mut w = Stopwatch::new();
    assert!(!w.is_stop());
    assert_eq!(w.mark(Some(5_000_000)), 5);
    assert_eq!(w.get_last(), 5);
    assert_eq!(w.advance(Some(25_500_000)), Some(20));
    assert_eq!(w.advance(Some(1_000_000)), None);
    assert_eq!(w.advance(None), None);
    assert_eq!(w.mark(None), 0);
    assert_eq!(w.get_last(), 5);
    w.stop(true);
    assert!(w.is_stop());
    w.stop(false);
    assert!(!w.is_stop());
}

#[test]
fn stopwatch_reads_the_clock() {
    let mut w = Stopwatch::new();
    let began = Instant::now();
    while began.elapsed() < Duration::from_millis(6) {}
    assert!(w.elapsed() >= 5);
    let now = w.get_current();
    assert!(now >= 5);
    assert_eq!(w.get_last(), now);
    assert!(w.update() < 1000);
}
