//! Tests for the selection and drag state machine.

use egui_timeline::playhead::PlayheadState;
use egui_timeline::selection::{
    handle_track_interaction, handle_track_playhead_interaction, PointerPos, SelectionState,
    TrackFrameInput, TrackHitContext,
};
use egui_timeline::types::Rect;

fn ctx(timeline_start: i64, ticks_per_point: i64) -> TrackHitContext {
    TrackHitContext {
        track_rect: Rect { min_x: 0, min_y: 100, max_x: 1200, max_y: 140 },
        timeline_rect: Rect { min_x: 0, min_y: 0, max_x: 1200, max_y: 400 },
        timeline_start,
        ticks_per_point,
        visible_ticks: ticks_per_point * 1200,
    }
}

fn idle() -> TrackFrameInput {
    TrackFrameInput {
        pressed: false,
        released: false,
        down: false,
        secondary_pressed: false,
        pointer: None,
    }
}

fn press_at(x: i64, y: i64) -> TrackFrameInput {
    TrackFrameInput {
        pressed: true,
        down: true,
        pointer: Some(PointerPos { x, y }),
        ..idle()
    }
}

fn drag_at(x: i64, y: i64) -> TrackFrameInput {
    TrackFrameInput { down: true, pointer: Some(PointerPos { x, y }), ..idle() }
}

fn release_at(x: i64, y: i64) -> TrackFrameInput {
    TrackFrameInput { released: true, pointer: Some(PointerPos { x, y }), ..idle() }
}

#[test]
fn press_drag_release_commits_one_selection() {
    // Press at relative tick 100, drag to relative tick 500, release.
    let c = ctx(5_000, 1_000);
    let mut state = SelectionState::new();
    let mut playhead = PlayheadState::new(2_000_000_000);
    handle_track_interaction(&mut state, &mut playhead, &c, "track_A", press_at(100, 120), true, true);
    assert_eq!(state.get_drag_start().map(|(id, t)| (id, t)), Some(("track_A".to_string(), 105_000)));
    handle_track_interaction(&mut state, &mut playhead, &c, "track_A", drag_at(300, 120), true, true);
    assert_eq!(state.get_selection("track_A"), Some((105_000, 305_000)));
    handle_track_interaction(&mut state, &mut playhead, &c, "track_A", release_at(500, 120), true, true);
    assert_eq!(state.get_selection("track_A"), Some((105_000, 505_000)));
    assert_eq!(state.get_selected_track_id(), Some("track_A".to_string()));
    assert_eq!(state.get_selection("track_B"), None);
    assert!(state.get_drag_start().is_none());
}

#[test]
fn short_press_release_is_a_click_and_selects_nothing() {
    // One point of movement at 999 units per point stays under one tick.
    let c = ctx(0, 999);
    let mut state = SelectionState::new();
    let mut playhead = PlayheadState::new(2_000_000_000);
    handle_track_interaction(&mut state, &mut playhead, &c, "track_A", press_at(100, 120), true, true);
    handle_track_interaction(&mut state, &mut playhead, &c, "track_A", release_at(101, 120), true, true);
    assert_eq!(state.get_selection("track_A"), None);
    assert!(state.get_drag_start().is_none());
}

#[test]
fn one_tick_of_movement_selects() {
    // One point of movement at exactly 1000 units per point is one tick.
    let c = ctx(0, 1_000);
    let mut state = SelectionState::new();
    let mut playhead = PlayheadState::new(2_000_000_000);
    handle_track_interaction(&mut state, &mut playhead, &c, "track_A", press_at(100, 120), true, true);
    handle_track_interaction(&mut state, &mut playhead, &c, "track_A", release_at(101, 120), true, true);
    assert_eq!(state.get_selection("track_A"), Some((100_000, 101_000)));
}

#[test]
fn leftward_drag_produces_ordered_range() {
    let c = ctx(0, 1_000);
    let mut state = SelectionState::new();
    let mut playhead = PlayheadState::new(2_000_000_000);
    handle_track_interaction(&mut state, &mut playhead, &c, "track_A", press_at(500, 120), true, true);
    handle_track_interaction(&mut state, &mut playhead, &c, "track_A", release_at(100, 120), true, true);
    assert_eq!(state.get_selection("track_A"), Some((100_000, 500_000)));
}

#[test]
fn selecting_on_a_second_track_replaces_the_first() {
    let c = ctx(0, 1_000);
    let mut state = SelectionState::new();
    let mut playhead = PlayheadState::new(2_000_000_000);
    handle_track_interaction(&mut state, &mut playhead, &c, "track_A", press_at(100, 120), true, true);
    handle_track_interaction(&mut state, &mut playhead, &c, "track_A", release_at(500, 120), true, true);
    handle_track_interaction(&mut state, &mut playhead, &c, "track_B", press_at(200, 120), true, true);
    assert_eq!(state.get_selection("track_A"), None);
    handle_track_interaction(&mut state, &mut playhead, &c, "track_B", release_at(400, 120), true, true);
    assert_eq!(state.get_selection("track_A"), None);
    assert_eq!(state.get_selection("track_B"), Some((200_000, 400_000)));
    assert_eq!(state.get_selected_track_id(), Some("track_B".to_string()));
}

#[test]
fn secondary_press_clears_all_selections() {
    let c = ctx(0, 1_000);
    let mut state = SelectionState::new();
    let mut playhead = PlayheadState::new(2_000_000_000);
    handle_track_interaction(&mut state, &mut playhead, &c, "track_A", press_at(100, 120), true, true);
    handle_track_interaction(&mut state, &mut playhead, &c, "track_A", release_at(500, 120), true, true);
    let secondary = TrackFrameInput {
        secondary_pressed: true,
        pointer: Some(PointerPos { x: 600, y: 300 }),
        ..idle()
    };
    handle_track_interaction(&mut state, &mut playhead, &c, "track_A", secondary, true, true);
    assert_eq!(state.get_selection("track_A"), None);
    assert_eq!(state.get_selected_track_id(), None);
}

#[test]
fn release_outside_timeline_discards_the_drag() {
    let c = ctx(0, 1_000);
    let mut state = SelectionState::new();
    let mut playhead = PlayheadState::new(2_000_000_000);
    handle_track_interaction(&mut state, &mut playhead, &c, "track_A", press_at(100, 120), true, true);
    // Release below the timeline rectangle: the end falls back to the drag
    // start, so the gesture resolves as a click.
    handle_track_interaction(&mut state, &mut playhead, &c, "track_A", release_at(500, 500), true, true);
    assert_eq!(state.get_selection("track_A"), None);
    assert!(state.get_drag_start().is_none());
}

#[test]
fn release_without_pointer_still_resolves_the_drag() {
    let c = ctx(0, 1_000);
    let mut state = SelectionState::new();
    let mut playhead = PlayheadState::new(2_000_000_000);
    handle_track_interaction(&mut state, &mut playhead, &c, "track_A", press_at(100, 120), true, true);
    let blind_release = TrackFrameInput { released: true, ..idle() };
    handle_track_interaction(&mut state, &mut playhead, &c, "track_A", blind_release, true, true);
    assert!(state.get_drag_start().is_none());
    assert_eq!(state.get_selection("track_A"), None);
}

#[test]
fn drag_clamps_to_the_visible_range() {
    let c = ctx(0, 1_000);
    let mut state = SelectionState::new();
    let mut playhead = PlayheadState::new(2_000_000_000);
    handle_track_interaction(&mut state, &mut playhead, &c, "track_A", press_at(100, 120), true, true);
    // Drag far to the right, outside the track but still pressed: the end
    // clamps to the 1 200 000 visible units.
    handle_track_interaction(&mut state, &mut playhead, &c, "track_A", drag_at(5_000, 120), true, true);
    assert_eq!(state.get_selection("track_A"), Some((100_000, 1_200_000)));
}

#[test]
fn press_moves_the_playhead() {
    let c = ctx(5_000, 1_000);
    let mut state = SelectionState::new();
    let mut playhead = PlayheadState::new(2_000_000_000);
    handle_track_interaction(&mut state, &mut playhead, &c, "track_A", press_at(100, 120), true, true);
    assert_eq!(playhead.position, 105_000);
}

#[test]
fn secondary_press_does_not_move_the_playhead() {
    let c = ctx(0, 1_000);
    let mut state = SelectionState::new();
    let mut playhead = PlayheadState::new(2_000_000_000);
    let both = TrackFrameInput {
        pressed: true,
        down: true,
        secondary_pressed: true,
        pointer: Some(PointerPos { x: 100, y: 120 }),
        ..idle()
    };
    handle_track_interaction(&mut state, &mut playhead, &c, "track_A", both, true, true);
    assert_eq!(playhead.position, 0);
}

#[test]
fn disabled_capabilities_leave_state_untouched() {
    let c = ctx(0, 1_000);
    let mut state = SelectionState::new();
    let mut playhead = PlayheadState::new(2_000_000_000);
    handle_track_interaction(&mut state, &mut playhead, &c, "track_A", press_at(100, 120), false, false);
    assert!(state.get_drag_start().is_none());
    assert_eq!(playhead.position, 0);
}

#[test]
fn whole_timeline_playhead_interaction() {
    let timeline_rect = Rect { min_x: 0, min_y: 0, max_x: 1200, max_y: 400 };
    let mut playhead = PlayheadState::new(2_000_000_000);
    let press = TrackFrameInput {
        pressed: true,
        down: true,
        pointer: Some(PointerPos { x: 600, y: 350 }),
        ..idle()
    };
    handle_track_playhead_interaction(&mut playhead, timeline_rect, 0, 60_000, press);
    assert_eq!(playhead.position, 36_000_000);
}

#[test]
fn direct_selection_api_round_trip() {
    let mut state = SelectionState::new();
    state.start_selection_drag("track_A", 42_000);
    assert_eq!(state.get_drag_start(), Some(("track_A".to_string(), 42_000)));
    state.update_selection_drag("track_B", 50_000);
    assert_eq!(state.get_selection("track_B"), None);
    state.update_selection_drag("track_A", 30_000);
    assert_eq!(state.get_selection("track_A"), Some((30_000, 42_000)));
    state.end_selection_drag();
    assert!(state.get_drag_start().is_none());
    state.set_selection("track_C", 1_000, 2_000);
    assert_eq!(state.get_selected_track_id(), Some("track_C".to_string()));
    state.clear_selection("track_D");
    assert_eq!(state.get_selection("track_C"), Some((1_000, 2_000)));
    state.clear_selection("track_C");
    assert_eq!(state.get_selection("track_C"), None);
    state.set_selection("track_C", 1_000, 2_000);
    state.clear_all_selections();
    assert_eq!(state.get_selected_track_id(), None);
}
