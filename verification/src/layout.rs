//! The track layout engine: splits the available rectangle into the top
//! panel, the optional header column, the timeline column and the bottom
//! bar, stacks track rows, and converts selections and the playhead into
//! pixel spans for drawing.

use vstd::prelude::*;

use crate::time;
use crate::types::{
    MAX_POINTS, MAX_TICKS_PER_POINT, MAX_TICK_UNITS, MAX_TIMELINE_START, Rect,
};

verus! {

use vstd::arithmetic::div_mod::{lemma_div_is_ordered, lemma_div_nonincreasing};
use vstd::arithmetic::mul::lemma_mul_is_commutative;

/// Height of the panel reserved at the top of the widget, in points.
pub const TOP_PANEL_HEIGHT: i64 = 40;

/// Height of the bar reserved at the bottom of the widget, in points.
pub const BOTTOM_BAR_HEIGHT: i64 = 20;

/// Left padding applied to track header content, in points.
pub const HEADER_LEFT_PADDING: i64 = 4;

/// Fixed height of the ruler track, in points.
pub const RULER_HEIGHT: i64 = 20;

/// The timeline widget's configuration: an optional fixed-width track
/// header column on the left.
#[derive(Clone, Copy, Debug, PartialEq, Eq, Structural)]
pub struct Timeline {
    /// The width of the header side panel, if one is shown.
    pub header: Option<i64>,
}

/// The rectangles a timeline widget splits its available area into.
#[derive(Clone, Copy, Debug, PartialEq, Eq, Structural)]
pub struct TimelineLayout {
    /// The top panel strip, spanning the full width.
    pub top_panel: Rect,
    /// The content area between the top panel and the bottom bar,
    /// including any header column.
    pub content: Rect,
    /// The header column at the left of the content area, if configured.
    pub header: Option<Rect>,
    /// The timeline column: the content area right of the header.  Tick
    /// zero of the viewport renders at this rectangle's left edge.
    pub timeline: Rect,
    /// The bottom bar strip, spanning the full width.
    pub bottom_bar: Rect,
}

impl Timeline {
    /// Begins building the timeline widget, without a header column.
    pub fn new() -> (r: Timeline)
        ensures
            r.header is None,
    {
        Timeline { header: None }
    }

    /// Adds a track header side panel of the given width.
    pub fn header(self, width: i64) -> (r: Timeline)
        ensures
            r.header == Some(width),
    {
        Timeline { header: Some(width), ..self }
    }

    /// Splits the available rectangle: the top panel strip, then the
    /// content area (header column plus timeline column), then the bottom
    /// bar strip.  The rectangle must be tall enough for both strips and,
    /// when a header is configured, wide enough for the header column.
    pub fn split(&self, full: Rect) -> (r: TimelineLayout)
        requires
            full.wf(),
            full.spec_height() >= TOP_PANEL_HEIGHT + BOTTOM_BAR_HEIGHT,
            match self.header {
                Some(w) => 0 <= w <= full.spec_width(),
                None => true,
            },
        ensures
            r.top_panel.min_x == full.min_x && r.top_panel.min_y == full.min_y,
        r.top_panel.max_x == full.max_x && r.top_panel.max_y == full.min_y + TOP_PANEL_HEIGHT,
        r.content.min_x == full.min_x && r.content.min_y == full.min_y + TOP_PANEL_HEIGHT,
        r.content.max_x == full.max_x && r.content.max_y == full.max_y - BOTTOM_BAR_HEIGHT,
        r.bottom_bar.min_x == full.min_x && r.bottom_bar.min_y == full.max_y - BOTTOM_BAR_HEIGHT,
        r.bottom_bar.max_x == full.max_x && r.bottom_bar.max_y == full.max_y,
        r.timeline.min_y == r.content.min_y && r.timeline.max_y == r.content.max_y,
        r.timeline.max_x == r.content.max_x,
        match self.header {
            Some(w) => r.header matches Some(h) && h.min_x == full.min_x && h.max_x == full.min_x
                + w && h.min_y == r.content.min_y && h.max_y == r.content.max_y
                && r.timeline.min_x == full.min_x + w,
            None => r.header is None && r.timeline == r.content,
        },
        r.top_panel.wf(),
        r.content.wf(),
        r.timeline.wf(),
        r.bottom_bar.wf(),
    {
        let content = Rect {
            min_x: full.min_x,
            min_y: full.min_y + TOP_PANEL_HEIGHT,
            max_x: full.max_x,
            max_y: full.max_y - BOTTOM_BAR_HEIGHT,
        };
        let top_panel = Rect {
            min_x: full.min_x,
            min_y: full.min_y,
            max_x: full.max_x,
            max_y: full.min_y + TOP_PANEL_HEIGHT,
        };
        let bottom_bar = Rect {
            min_x: full.min_x,
            min_y: full.max_y - BOTTOM_BAR_HEIGHT,
            max_x: full.max_x,
            max_y: full.max_y,
        };
        match self.header {
            Some(w) => {
                let header = Rect { max_x: full.min_x + w, ..content };
                let timeline = Rect { min_x: full.min_x + w, ..content };
                TimelineLayout {
                    top_panel,
                    content,
                    header: Some(header),
                    timeline,
                    bottom_bar,
                }
            },
            None => TimelineLayout {
                top_panel,
                content,
                header: None,
                timeline: content,
                bottom_bar,
            },
        }
    }
}

/// The rendered height of one track row: its header half and its timeline
/// half are laid out independently and then unified to a single height, so
/// both occupy the same vertical span.
pub fn row_height(header_height: i64, track_height: i64) -> (r: i64)
    requires
        0 <= header_height,
        0 <= track_height,
    ensures
        r == vstd::math::max(header_height as int, track_height as int),
{
    if header_height >= track_height {
        header_height
    } else {
        track_height
    }
}

/// The full rectangle of one track row — header and timeline halves, the
/// widget's whole width — stacked below the previous row at `top_y`.
pub fn full_track_rect(full: Rect, top_y: i64, height: i64) -> (r: Rect)
    requires
        full.wf(),
        full.min_y <= top_y <= full.max_y,
        0 <= height <= full.max_y - top_y,
    ensures
        r.min_x == full.min_x && r.min_y == top_y && r.max_x == full.max_x && r.max_y == top_y
            + height,
        r.wf(),
{
    Rect { min_x: full.min_x, min_y: top_y, max_x: full.max_x, max_y: top_y + height }
}

/// The pixel span of a selection within the timeline rectangle, for
/// drawing: the selection's absolute tick range converted back to viewport
/// coordinates, clamped to the visible range — or nothing when the
/// selection lies entirely outside the viewport.
pub fn selection_draw_span(
    selection_start: i64,
    selection_end: i64,
    timeline_start: i64,
    ticks_per_point: i64,
    timeline_rect: Rect,
) -> (r: Option<(i64, i64)>)
    requires
        timeline_rect.wf(),
        timeline_rect.spec_width() <= MAX_POINTS,
        0 <= selection_start <= selection_end <= MAX_TICK_UNITS,
        0 <= timeline_start <= MAX_TIMELINE_START,
        1 <= ticks_per_point <= MAX_TICKS_PER_POINT,
    ensures
        ({
            let rel_start = selection_start - timeline_start;
            let rel_end = selection_end - timeline_start;
            let visible = (ticks_per_point as int) * timeline_rect.spec_width();
            let lo = timeline_rect.min_x + (if rel_start >= 0 {
                rel_start
            } else {
                0
            }) / (ticks_per_point as int);
            let hi = timeline_rect.min_x + (if rel_end <= visible {
                rel_end
            } else {
                visible
            }) / (ticks_per_point as int);
            &&& (r is Some <==> rel_end >= 0 && rel_start <= visible)
            &&& r matches Some(span) ==> span.0 == lo && span.1 == hi && timeline_rect.min_x
                <= span.0 <= span.1 <= timeline_rect.max_x
        }),
{
    let width = timeline_rect.width();
    let visible = time::visible_ticks(ticks_per_point, width);
    let rel_start = selection_start - timeline_start;
    let rel_end = selection_end - timeline_start;
    if rel_end >= 0 && rel_start <= visible {
        let clamped_start = if rel_start >= 0 {
            rel_start
        } else {
            0
        };
        let clamped_end = if rel_end <= visible {
            rel_end
        } else {
            visible
        };
        proof {
            lemma_div_is_ordered(0, clamped_start as int, ticks_per_point as int);
            lemma_div_is_ordered(
                clamped_start as int,
                clamped_end as int,
                ticks_per_point as int,
            );
            lemma_div_nonincreasing(clamped_end as int, ticks_per_point as int);
            time::lemma_point_tick_round_trip(width as int, ticks_per_point as int);
            lemma_div_is_ordered(
                clamped_end as int,
                ticks_per_point as int * width as int,
                ticks_per_point as int,
            );
            lemma_mul_is_commutative(width as int, ticks_per_point as int);
        }
        let lo = timeline_rect.min_x + clamped_start / ticks_per_point;
        let hi = timeline_rect.min_x + clamped_end / ticks_per_point;
        Some((lo, hi))
    } else {
        None
    }
}

/// The pixel column at which the playhead renders, when it is inside the
/// viewport: its tick offset relative to the scroll position converted to
/// points from the timeline's left edge.
pub fn playhead_draw_x(
    relative_tick: i64,
    ticks_per_point: i64,
    timeline_rect: Rect,
) -> (r: Option<i64>)
    requires
        timeline_rect.wf(),
        timeline_rect.spec_width() <= MAX_POINTS,
        -2 * MAX_TICK_UNITS <= relative_tick <= 2 * MAX_TICK_UNITS,
        1 <= ticks_per_point <= MAX_TICKS_PER_POINT,
    ensures
        ({
            let visible = (ticks_per_point as int) * timeline_rect.spec_width();
            &&& (r is Some <==> 0 <= relative_tick <= visible)
            &&& r matches Some(x) ==> x == timeline_rect.min_x + relative_tick as int
                / (ticks_per_point as int) && timeline_rect.min_x <= x <= timeline_rect.max_x
        }),
{
    let width = timeline_rect.width();
    let visible = time::visible_ticks(ticks_per_point, width);
    if 0 <= relative_tick && relative_tick <= visible {
        proof {
            lemma_div_is_ordered(0, relative_tick as int, ticks_per_point as int);
            time::lemma_point_tick_round_trip(width as int, ticks_per_point as int);
            lemma_div_is_ordered(
                relative_tick as int,
                ticks_per_point as int * width as int,
                ticks_per_point as int,
            );
            lemma_mul_is_commutative(width as int, ticks_per_point as int);
        }
        Some(timeline_rect.min_x + relative_tick / ticks_per_point)
    } else {
        None
    }
}

/// The vertical extent of the stacked tracks: the bottom of the last track,
/// or the bottom of the scrollable area when the tracks overflow it.
pub fn tracks_bottom(inner_top: i64, inner_bottom: i64, content_height: i64) -> (r: i64)
    requires
        -MAX_POINTS <= inner_top <= inner_bottom <= MAX_POINTS,
        0 <= content_height <= MAX_POINTS,
    ensures
        r == vstd::math::min(inner_bottom as int, inner_top + content_height),
{
    let stacked = inner_top + content_height;
    if inner_bottom <= stacked {
        inner_bottom
    } else {
        stacked
    }
}

} // verus!
