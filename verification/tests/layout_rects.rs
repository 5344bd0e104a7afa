//! Tests for the track layout engine and the standard host time model.

use egui_timeline::host::FourFourBars;
use egui_timeline::layout::{
    full_track_rect, playhead_draw_x, row_height, selection_draw_span, tracks_bottom, Timeline,
};
use egui_timeline::ruler::MusicalInfo;
use egui_timeline::types::{Rect, TimeSig};

#[test]
fn split_reserves_top_panel_and_bottom_bar() {
    let full = Rect { min_x: 0, min_y: 0, max_x: 1350, max_y: 800 };
    let layout = Timeline::new().header(150).split(full);
    assert_eq!(layout.top_panel, Rect { min_x: 0, min_y: 0, max_x: 1350, max_y: 40 });
    assert_eq!(layout.content, Rect { min_x: 0, min_y: 40, max_x: 1350, max_y: 780 });
    assert_eq!(layout.header, Some(Rect { min_x: 0, min_y: 40, max_x: 150, max_y: 780 }));
    assert_eq!(layout.timeline, Rect { min_x: 150, min_y: 40, max_x: 1350, max_y: 780 });
    assert_eq!(layout.bottom_bar, Rect { min_x: 0, min_y: 780, max_x: 1350, max_y: 800 });
}

#[test]
fn split_without_header_gives_the_timeline_the_whole_content() {
    let full = Rect { min_x: 10, min_y: 20, max_x: 1210, max_y: 620 };
    let layout = Timeline::new().split(full);
    assert_eq!(layout.header, None);
    assert_eq!(layout.timeline, layout.content);
    assert_eq!(layout.timeline.min_x, 10);
}

#[test]
fn track_rows_take_the_taller_half() {
    assert_eq!(row_height(30, 40), 40);
    assert_eq!(row_height(50, 40), 50);
    assert_eq!(row_height(0, 0), 0);
}

#[test]
fn track_row_rectangle_spans_the_full_width() {
    let full = Rect { min_x: 0, min_y: 40, max_x: 1350, max_y: 780 };
    let row = full_track_rect(full, 100, 40);
    assert_eq!(row, Rect { min_x: 0, min_y: 100, max_x: 1350, max_y: 140 });
}

#[test]
fn selection_span_converts_absolute_ticks_to_pixels() {
    let timeline = Rect { min_x: 150, min_y: 40, max_x: 1350, max_y: 780 };
    // 1200 points at 60 000 units per point; scrolled to 6 000 000.
    let span = selection_draw_span(12_000_000, 18_000_000, 6_000_000, 60_000, timeline);
    assert_eq!(span, Some((150 + 100, 150 + 200)));
}

#[test]
fn selection_span_clamps_partially_visible_selections() {
    let timeline = Rect { min_x: 0, min_y: 0, max_x: 1200, max_y: 400 };
    let span = selection_draw_span(0, 100_000_000, 6_000_000, 60_000, timeline);
    assert_eq!(span, Some((0, 1200)));
}

#[test]
fn selection_span_culls_offscreen_selections() {
    let timeline = Rect { min_x: 0, min_y: 0, max_x: 1200, max_y: 400 };
    // Entirely left of the viewport.
    assert_eq!(selection_draw_span(0, 1_000_000, 6_000_000, 60_000, timeline), None);
    // Entirely right of the visible 72 000 000 units.
    assert_eq!(
        selection_draw_span(90_000_000, 95_000_000, 6_000_000, 60_000, timeline),
        None
    );
}

#[test]
fn playhead_column_tracks_the_scroll_position() {
    let timeline = Rect { min_x: 150, min_y: 40, max_x: 1350, max_y: 780 };
    assert_eq!(playhead_draw_x(36_000_000, 60_000, timeline), Some(150 + 600));
    assert_eq!(playhead_draw_x(0, 60_000, timeline), Some(150));
    assert_eq!(playhead_draw_x(-1, 60_000, timeline), None);
    assert_eq!(playhead_draw_x(72_000_001, 60_000, timeline), None);
}

#[test]
fn tracks_bottom_stops_at_the_scroll_area() {
    assert_eq!(tracks_bottom(100, 700, 250), 350);
    assert_eq!(tracks_bottom(100, 700, 900), 700);
}

#[test]
fn host_reports_four_four_bars() {
    let host = FourFourBars { ticks_per_beat: 960, zoom: 1000, timeline_start: 0, total_bars: 501 };
    let bar = host.bar_at_ticks(0);
    assert_eq!(bar.tick_range.start, 0);
    assert_eq!(bar.tick_range.end, 3_840_000);
    assert_eq!(bar.time_sig, TimeSig { top: 4, bottom: 4 });
    let bar = host.bar_at_ticks(3_840_500);
    assert_eq!(bar.tick_range.start, 3_840_000);
}

#[test]
fn host_clamps_bars_past_the_end() {
    let host = FourFourBars { ticks_per_beat: 960, zoom: 1000, timeline_start: 0, total_bars: 501 };
    let bar = host.bar_at_ticks(600 * 3_840_000);
    assert_eq!(bar.tick_range.start, 500 * 3_840_000);
    assert_eq!(bar.tick_range.end, 501 * 3_840_000);
}

#[test]
fn host_offsets_bars_by_the_scroll_position() {
    let host = FourFourBars {
        ticks_per_beat: 960,
        zoom: 1000,
        timeline_start: 1_920_000,
        total_bars: 501,
    };
    let bar = host.bar_at_ticks(0);
    assert_eq!(bar.tick_range.start, -1_920_000);
    assert_eq!(bar.tick_range.end, 1_920_000);
}

#[test]
fn host_scale_and_span() {
    let host = FourFourBars { ticks_per_beat: 960, zoom: 1000, timeline_start: 0, total_bars: 501 };
    assert_eq!(host.ticks_per_point(), 60_000);
    assert_eq!(host.ticks_per_beat(), 960);
    assert_eq!(host.timeline_start(), Some(0));
    assert_eq!(host.max_playhead_position(), 501 * 3_840_000);
}

#[test]
fn time_signature_beats_per_bar() {
    assert_eq!(TimeSig { top: 4, bottom: 4 }.beats_per_bar(), 4000);
    assert_eq!(TimeSig { top: 6, bottom: 8 }.beats_per_bar(), 3000);
    assert_eq!(TimeSig { top: 3, bottom: 4 }.beats_per_bar(), 3000);
    assert_eq!(TimeSig { top: 7, bottom: 16 }.beats_per_bar(), 1750);
}
