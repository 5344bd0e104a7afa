//! Tests for the scroll/zoom viewport controller.

use egui_timeline::viewport::{handle_scroll_and_zoom, ScrollBound, ScrollInput, ViewportState};

fn scroll_input(dx: i64) -> ScrollInput {
    ScrollInput {
        ctrl: false,
        shift: false,
        smooth_x: dx,
        smooth_y: 0,
        raw_x: 0,
        raw_y: 0,
        pointer_over: true,
    }
}

fn zoom_input(raw_dx: i64, raw_dy: i64) -> ScrollInput {
    ScrollInput {
        ctrl: true,
        shift: false,
        smooth_x: 0,
        smooth_y: 0,
        raw_x: raw_dx,
        raw_y: raw_dy,
        pointer_over: true,
    }
}

#[test]
fn negative_shifts_never_go_below_zero() {
    let mut state = ViewportState::new();
    for _ in 0..8 {
        let applied =
            handle_scroll_and_zoom(&mut state, scroll_input(-100), ScrollBound::Unbounded, 960, 1200);
        assert!(state.timeline_start >= 0);
        assert_eq!(state.timeline_start, 0);
        assert_eq!(applied, 0);
    }
}

#[test]
fn scroll_right_then_back_is_clamped_at_zero() {
    let mut state = ViewportState::new();
    // One point of scroll is 60 000 units at neutral zoom.
    let applied =
        handle_scroll_and_zoom(&mut state, scroll_input(10), ScrollBound::Unbounded, 960, 1200);
    assert_eq!(applied, 600_000);
    assert_eq!(state.timeline_start, 600_000);
    let applied =
        handle_scroll_and_zoom(&mut state, scroll_input(-100), ScrollBound::Unbounded, 960, 1200);
    assert_eq!(applied, -600_000);
    assert_eq!(state.timeline_start, 0);
}

#[test]
fn bounded_timeline_clamps_at_last_bar() {
    let mut state = ViewportState::new();
    // 501 bars of 3 840 000 units minus the 72 000 000 visible units.
    let max_start = 501 * 3_840_000 - 72_000_000;
    for _ in 0..3 {
        handle_scroll_and_zoom(&mut state, scroll_input(40_000), ScrollBound::Bars(501), 960, 1200);
        assert!(state.timeline_start <= max_start);
    }
    assert_eq!(state.timeline_start, max_start);
}

#[test]
fn applied_delta_is_the_clamped_difference() {
    let mut state = ViewportState::new();
    let max_start = 501 * 3_840_000 - 72_000_000;
    let applied =
        handle_scroll_and_zoom(&mut state, scroll_input(40_000), ScrollBound::Bars(501), 960, 1200);
    assert_eq!(applied, max_start);
    let applied =
        handle_scroll_and_zoom(&mut state, scroll_input(40_000), ScrollBound::Bars(501), 960, 1200);
    assert_eq!(applied, 0);
}

#[test]
fn zoom_multiplies_by_one_plus_hundredth_of_delta() {
    let mut state = ViewportState::new();
    handle_scroll_and_zoom(&mut state, zoom_input(0, 10), ScrollBound::Unbounded, 960, 1200);
    assert_eq!(state.zoom, 1100);
    assert_eq!(state.timeline_start, 0);
}

#[test]
fn zoom_clamps_to_bounds() {
    let mut state = ViewportState::new();
    handle_scroll_and_zoom(&mut state, zoom_input(0, -300), ScrollBound::Unbounded, 960, 1200);
    assert_eq!(state.zoom, 100);
    let mut state = ViewportState::new();
    for _ in 0..30 {
        handle_scroll_and_zoom(&mut state, zoom_input(0, 50), ScrollBound::Unbounded, 960, 1200);
    }
    assert_eq!(state.zoom, 3000);
}

#[test]
fn zoom_uses_vertical_minus_horizontal_delta() {
    let mut state = ViewportState::new();
    handle_scroll_and_zoom(&mut state, zoom_input(10, 10), ScrollBound::Unbounded, 960, 1200);
    assert_eq!(state.zoom, 1000);
}

#[test]
fn zoom_prefers_raw_delta_when_modifier_held() {
    let mut state = ViewportState::new();
    let inp = ScrollInput { smooth_y: 999, ..zoom_input(0, 10) };
    handle_scroll_and_zoom(&mut state, inp, ScrollBound::Unbounded, 960, 1200);
    assert_eq!(state.zoom, 1100);
}

#[test]
fn direct_shift_clamps_at_zero() {
    let mut state = ViewportState::new();
    state.shift_timeline_start(250_000);
    assert_eq!(state.timeline_start, 250_000);
    state.shift_timeline_start(-1_000_000);
    assert_eq!(state.timeline_start, 0);
}

#[test]
fn direct_zoom_applies_the_multiplicative_step() {
    let mut state = ViewportState::new();
    state.zoom(25);
    assert_eq!(state.zoom, 1250);
    state.zoom(-40);
    assert_eq!(state.zoom, 750);
}

#[test]
fn no_effect_when_pointer_not_over_timeline() {
    let mut state = ViewportState::new();
    let inp = ScrollInput { pointer_over: false, ..scroll_input(10) };
    let applied = handle_scroll_and_zoom(&mut state, inp, ScrollBound::Unbounded, 960, 1200);
    assert_eq!(applied, 0);
    assert_eq!(state, ViewportState::new());
}
