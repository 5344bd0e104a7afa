//! Tests for playhead bookkeeping, playback advancement and the clock.

use egui_timeline::playhead::{clock_display, PlayheadState};

const MAX: i64 = 501 * 3_840_000;

#[test]
fn new_playhead_rests_at_origin() {
    let ph = PlayheadState::new(MAX);
    assert_eq!(ph.position, 0);
    assert!(!ph.playing);
}

#[test]
fn set_playhead_adds_scroll_offset() {
    let mut ph = PlayheadState::new(MAX);
    ph.set_playhead_ticks(5_000, 36_000_000);
    assert_eq!(ph.position, 36_005_000);
    assert_eq!(ph.playhead_ticks(5_000), 36_000_000);
    assert_eq!(ph.playhead_ticks(40_000_000), 36_005_000 - 40_000_000);
}

#[test]
fn set_playhead_clamps_negative_targets_to_zero() {
    let mut ph = PlayheadState::new(MAX);
    ph.set_playhead_ticks(1_000, -5_000);
    assert_eq!(ph.position, 0);
}

#[test]
fn playback_advances_by_elapsed_wall_clock() {
    let mut ph = PlayheadState::new(MAX);
    ph.set_playhead_ticks(0, 100_000);
    ph.start_playback();
    ph.advance_playback(0, 960);
    // 2.5 seconds at one bar (3 840 000 units) per second.
    ph.advance_playback(2_500, 960);
    assert_eq!(ph.position, 100_000 + 9_600_000);
    assert!(ph.playing);
}

#[test]
fn playback_recomputes_from_the_epoch_without_drift() {
    let mut ph = PlayheadState::new(MAX);
    ph.start_playback();
    ph.advance_playback(0, 960);
    for elapsed in [1, 2, 3, 500, 501, 2_500] {
        ph.advance_playback(elapsed, 960);
    }
    let mut direct = PlayheadState::new(MAX);
    direct.start_playback();
    direct.advance_playback(0, 960);
    direct.advance_playback(2_500, 960);
    assert_eq!(ph.position, direct.position);
}

#[test]
fn playback_stops_exactly_at_the_maximum() {
    // 250 PPQN advances 1 000 units per millisecond.
    let mut ph = PlayheadState::new(1_000_000);
    ph.start_playback();
    ph.advance_playback(0, 250);
    ph.advance_playback(999, 250);
    assert_eq!(ph.position, 999_000);
    assert!(ph.playing);
    ph.advance_playback(1_000, 250);
    assert_eq!(ph.position, 1_000_000);
    assert!(!ph.playing);
}

#[test]
fn playback_clamps_overshoot_to_the_maximum() {
    let mut ph = PlayheadState::new(1_000_000);
    ph.start_playback();
    ph.advance_playback(0, 250);
    ph.advance_playback(10_000, 250);
    assert_eq!(ph.position, 1_000_000);
    assert!(!ph.playing);
}

#[test]
fn dragging_while_playing_rebases_the_epoch() {
    let mut ph = PlayheadState::new(MAX);
    ph.start_playback();
    ph.advance_playback(0, 960);
    ph.advance_playback(1_000, 960);
    assert_eq!(ph.position, 3_840_000);
    // The user drags the playhead to a new spot mid-run.
    ph.set_playhead_ticks(0, 10_000_000);
    assert!(ph.playing);
    assert!(!ph.epoch_started);
    // The next frame re-bases and motion continues from the new position.
    ph.advance_playback(0, 960);
    ph.advance_playback(500, 960);
    assert_eq!(ph.position, 10_000_000 + 1_920_000);
}

#[test]
fn stopping_discards_the_epoch() {
    let mut ph = PlayheadState::new(MAX);
    ph.start_playback();
    ph.advance_playback(0, 960);
    ph.advance_playback(1_000, 960);
    ph.stop_playback();
    assert!(!ph.playing);
    let frozen = ph.position;
    ph.advance_playback(2_000, 960);
    assert_eq!(ph.position, frozen);
}

#[test]
fn clock_shows_minutes_seconds_centiseconds() {
    // 61.25 seconds at 960 PPQN: one minute, one second, 25 centiseconds.
    let position = 235_200_000;
    assert_eq!(clock_display(position, 960), (1, 1, 25));
    assert_eq!(clock_display(0, 960), (0, 0, 0));
    // Half a second.
    assert_eq!(clock_display(1_920_000, 960), (0, 0, 50));
    // Exactly one minute.
    assert_eq!(clock_display(60 * 3_840_000, 960), (1, 0, 0));
}
