//! Frame-rate throttle tests: target interval, due-frame decision, sleep
//! remainder, and frame commits.

use scene2d::frame::{FrameTimer, MICROS_PER_SECOND};

#[test]
fn minimum_frame_time_at_sixty_fps() {
    let t = FrameTimer::new(60);
    assert_eq!(t.get_minimum_frame_time(), 16_666);
}

#[test]
fn minimum_frame_time_at_one_fps() {
    let t = FrameTimer::new(1);
    assert_eq!(t.get_minimum_frame_time(), MICROS_PER_SECOND);
}

#[test]
fn frame_is_due_only_strictly_after_the_interval() {
    let t = FrameTimer::new(60);
    assert!(!t.is_frame_time_right(16_666));
    assert!(t.is_frame_time_right(16_667));
}

#[test]
fn sleep_covers_the_remaining_interval() {
    let t = FrameTimer::new(60);
    assert_eq!(t.time_to_sleep_micros(10_000), 6_666);
    assert_eq!(t.time_to_sleep_micros(16_666), 0);
    assert_eq!(t.time_to_sleep_micros(20_000), 0);
}

#[test]
fn record_frame_restarts_the_interval() {
    let mut t = FrameTimer::new(60);
    t.record_frame(1_000_000);
    assert_eq!(t.get_frame_time(1_000_050), 50);
    assert!(!t.is_frame_time_right(1_000_050));
    assert!(t.is_frame_time_right(1_016_667));
}

#[test]
fn clock_jumping_backwards_counts_as_no_time() {
    let mut t = FrameTimer::new(60);
    t.record_frame(5_000_000);
    assert_eq!(t.get_frame_time(4_000_000), 0);
    assert!(!t.is_frame_time_right(4_000_000));
    assert_eq!(t.time_to_sleep_micros(4_000_000), 16_666);
}
