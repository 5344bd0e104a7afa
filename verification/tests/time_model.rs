//! Tests for the tick/pixel coordinate transform.

use egui_timeline::time::{
    absolute_tick, clamp_to_visible, hit_test_tick, relative_tick, tick_to_x, ticks_per_bar,
    ticks_per_point, ticks_per_second, visible_ticks, x_to_tick,
};

#[test]
fn ticks_per_point_standard_zoom() {
    // 960 PPQN at neutral zoom: 60 ticks (60 000 units) per point.
    assert_eq!(ticks_per_point(960, 1000), 60_000);
}

#[test]
fn ticks_per_point_monotone_in_zoom() {
    let mut last = 0;
    for zoom in [100, 250, 500, 1000, 1500, 2000, 3000] {
        let tpp = ticks_per_point(960, zoom);
        assert!(tpp > last);
        last = tpp;
    }
}

#[test]
fn ticks_per_point_scales_multiplicatively() {
    assert_eq!(ticks_per_point(960, 2000), 120_000);
    assert_eq!(ticks_per_point(960, 500), 30_000);
    assert_eq!(ticks_per_point(960, 100), 6_000);
}

#[test]
fn visible_ticks_of_standard_viewport() {
    // A 1200 point wide timeline at 60 ticks per point shows 72 000 ticks.
    assert_eq!(visible_ticks(60_000, 1200), 72_000_000);
}

#[test]
fn pixel_tick_round_trip_is_exact() {
    for x in [0, 1, 17, 599, 600, 1199] {
        let t = x_to_tick(x, 60_000);
        assert_eq!(tick_to_x(t, 60_000), x);
    }
}

#[test]
fn tick_pixel_round_trip_within_one_point() {
    for t in [0, 1, 59_999, 60_000, 123_456, 71_999_999] {
        let x = tick_to_x(t, 60_000);
        let back = x_to_tick(x, 60_000);
        assert!(back <= t);
        assert!(t - back < 60_000);
    }
}

#[test]
fn click_at_600_points_hits_tick_36000() {
    // The end-to-end figure: pixel 600 at 60 ticks per point is tick 36 000.
    assert_eq!(hit_test_tick(600, 0, 60_000), 36_000_000);
    assert_eq!(hit_test_tick(700, 100, 60_000), 36_000_000);
}

#[test]
fn hit_test_clamps_left_of_timeline_to_zero() {
    assert_eq!(hit_test_tick(40, 100, 60_000), 0);
}

#[test]
fn clamping_into_visible_range() {
    assert_eq!(clamp_to_visible(-5, 100), 0);
    assert_eq!(clamp_to_visible(0, 100), 0);
    assert_eq!(clamp_to_visible(55, 100), 55);
    assert_eq!(clamp_to_visible(100, 100), 100);
    assert_eq!(clamp_to_visible(101, 100), 100);
}

#[test]
fn absolute_and_relative_conversion() {
    assert_eq!(absolute_tick(5_000, 36_000_000), 36_005_000);
    assert_eq!(relative_tick(5_000, 36_005_000), 36_000_000);
    assert_eq!(relative_tick(36_005_000, 5_000), -36_000_000);
}

#[test]
fn one_bar_is_one_second() {
    assert_eq!(ticks_per_bar(960), 3_840_000);
    assert_eq!(ticks_per_second(960), 3_840_000);
    assert_eq!(ticks_per_bar(480), 1_920_000);
}
