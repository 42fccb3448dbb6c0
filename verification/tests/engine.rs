use std::time::Duration;

use hermes_tui_rust::engine::{
    animation_end, animation_start, poll_timeout, poll_timeout_ms, AnimationCounter,
};
use hermes_tui_rust::ui::wave::{segment_widths, WaveTicker};

#[test]
fn test_animation_counter() {
    let mut counter = AnimationCounter::new();
    assert_eq!(counter.active(), 0);
    animation_start(&mut counter);
    assert_eq!(counter.active(), 1);
    animation_start(&mut counter);
    assert_eq!(counter.active(), 2);
    animation_end(&mut counter);
    assert_eq!(counter.active(), 1);
    animation_end(&mut counter);
    assert_eq!(counter.active(), 0);
}

#[test]
fn test_poll_timeout() {
    let mut counter = AnimationCounter::new();
    let before = counter.active();
    assert_eq!(poll_timeout(&counter), Duration::from_millis(100));
    counter.set_active(5);
    assert_eq!(poll_timeout(&counter), Duration::from_millis(16));
    counter.set_active(before);
    assert_eq!(poll_timeout_ms(&counter), 100);
}

#[test]
fn test_wave_ticker_lifecycle() {
    let mut counter = AnimationCounter::new();
    let mut ticker = WaveTicker::new();
    assert!(!ticker.is_active());

    let t1 = ticker.advance(&mut counter);
    assert!(ticker.is_active());
    assert_eq!(t1, 1);

    let t2 = ticker.advance(&mut counter);
    assert_eq!(t2, 2);

    ticker.stop(&mut counter);
    assert!(!ticker.is_active());
    assert_eq!(ticker.current_tick(), 0);
}

#[test]
fn wave_ticker_counts_one_animation_per_run() {
    let mut counter = AnimationCounter::new();
    let mut ticker = WaveTicker::default();
    ticker.advance(&mut counter);
    ticker.advance(&mut counter);
    ticker.advance(&mut counter);
    assert_eq!(counter.active(), 1);
    ticker.stop(&mut counter);
    assert_eq!(counter.active(), 0);
    ticker.stop(&mut counter);
    assert_eq!(counter.active(), 0);
}

#[test]
fn counter_wraps_below_zero() {
    let mut counter = AnimationCounter::new();
    animation_end(&mut counter);
    assert_eq!(counter.active(), u64::MAX);
    animation_start(&mut counter);
    assert_eq!(counter.active(), 0);
}

#[test]
fn wave_segments_share_the_width() {
    assert_eq!(segment_widths(10), vec![2, 2, 2, 2, 2]);
    assert_eq!(segment_widths(7), vec![2, 1, 2, 1, 1]);
    assert_eq!(segment_widths(0), vec![0, 0, 0, 0, 0]);
    assert_eq!(segment_widths(3), vec![1, 1, 0, 1, 0]);
}
