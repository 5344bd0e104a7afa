//! The viewport controller: clamped horizontal scrolling and multiplicative
//! zooming driven by decomposed scroll-wheel deltas.

use vstd::prelude::*;

use crate::time;
use crate::types::{
    MAX_POINTS, MAX_TICKS_PER_BEAT, MAX_TICK_UNITS, MAX_TIMELINE_START, ZOOM_MAX, ZOOM_MIN,
    ZOOM_UNIT,
};

verus! {

/// Largest number of bars a bounded timeline may be configured with.
pub const MAX_TOTAL_BARS: u32 = 100_000;

/// The scroll state of the timeline: how far it is scrolled and how far it
/// is zoomed.  Mutated only through [`handle_scroll_and_zoom`].
#[derive(Clone, Copy, Debug, PartialEq, Eq, Structural)]
pub struct ViewportState {
    /// The scroll offset: the absolute tick position, in tick units, shown
    /// at the left edge of the timeline.  Never negative.
    pub timeline_start: i64,
    /// The zoom level, in units of [`ZOOM_UNIT`] thousandths.  Always within
    /// `[ZOOM_MIN, ZOOM_MAX]`.
    pub zoom: u32,
}

/// How horizontal scrolling is clamped on the right: either only the machine
/// limit applies, or the timeline ends after a fixed number of four-four
/// bars and the last bar glues to the right edge.
#[derive(Clone, Copy, Debug, PartialEq, Eq, Structural)]
pub enum ScrollBound {
    /// Scrolling to the right is unbounded (up to the machine limit on tick
    /// magnitudes).
    Unbounded,
    /// The timeline spans this many bars in total; scrolling stops once the
    /// end of the last bar reaches the right edge.
    Bars(u32),
}

impl ScrollBound {
    pub open spec fn wf(self) -> bool {
        match self {
            ScrollBound::Unbounded => true,
            ScrollBound::Bars(total) => 1 <= total <= MAX_TOTAL_BARS,
        }
    }
}

/// One frame's worth of scroll input, as decomposed deltas in points.
/// Smooth deltas give better feel for scrolling; raw deltas respond faster
/// while the zoom modifier is held.
#[derive(Clone, Copy, Debug, PartialEq, Eq, Structural)]
pub struct ScrollInput {
    /// The zoom modifier key is held.
    pub ctrl: bool,
    /// The horizontal-scroll modifier key is held.  Recorded with the
    /// decomposed input; a non-zero horizontal delta alone already scrolls.
    pub shift: bool,
    /// Smoothed scroll delta, horizontal component.
    pub smooth_x: i64,
    /// Smoothed scroll delta, vertical component.
    pub smooth_y: i64,
    /// Raw scroll delta, horizontal component.
    pub raw_x: i64,
    /// Raw scroll delta, vertical component.
    pub raw_y: i64,
    /// The pointer is over the timeline content area.
    pub pointer_over: bool,
}

impl ScrollInput {
    /// All delta components stay within the supported pixel magnitude.
    pub open spec fn wf(self) -> bool {
        &&& -MAX_POINTS <= self.smooth_x <= MAX_POINTS
        &&& -MAX_POINTS <= self.smooth_y <= MAX_POINTS
        &&& -MAX_POINTS <= self.raw_x <= MAX_POINTS
        &&& -MAX_POINTS <= self.raw_y <= MAX_POINTS
    }
}

impl ViewportState {
    /// The scroll offset is a valid tick position and the zoom level within
    /// its bounds.
    pub open spec fn wf(self) -> bool {
        &&& 0 <= self.timeline_start <= MAX_TIMELINE_START
        &&& ZOOM_MIN <= self.zoom <= ZOOM_MAX
    }

    /// The initial viewport: scrolled to the origin at neutral zoom.
    pub fn new() -> (r: ViewportState)
        ensures
            r.wf(),
            r.timeline_start == 0,
            r.zoom == ZOOM_UNIT,
    {
        ViewportState { timeline_start: 0, zoom: ZOOM_UNIT }
    }

    /// Shifts the scroll offset by the given number of tick units,
    /// clamping so it never drops below zero (nor passes the machine
    /// limit).  [`handle_scroll_and_zoom`] pre-clamps its shifts, so for
    /// scroll gestures the clamp here never bites.
    pub fn shift_timeline_start(&mut self, ticks: i64)
        requires
            old(self).wf(),
            -MAX_TICK_UNITS <= ticks <= MAX_TICK_UNITS,
        ensures
            final(self).wf(),
            final(self).zoom == old(self).zoom,
            final(self).timeline_start == spec_scroll_after(
                old(self).timeline_start as int,
                ticks as int,
                MAX_TIMELINE_START as int,
            ),
    {
        let requested = self.timeline_start + ticks;
        self.timeline_start = if requested < 0 {
            0
        } else if requested > MAX_TIMELINE_START {
            MAX_TIMELINE_START
        } else {
            requested
        };
    }

    /// Applies a zoom gesture of `y_delta` points: the zoom level is
    /// multiplied by `1 + y_delta / 100` and clamped into its bounds.
    pub fn zoom(&mut self, y_delta: i64)
        requires
            old(self).wf(),
            -2 * MAX_POINTS <= y_delta <= 2 * MAX_POINTS,
        ensures
            final(self).wf(),
            final(self).timeline_start == old(self).timeline_start,
            final(self).zoom == spec_zoom_after(old(self).zoom as int, y_delta as int),
    {
        self.zoom = apply_zoom(self.zoom, y_delta);
    }
}

/// Which delta pair a frame of input acts on: the raw pair is preferred
/// while the zoom modifier is held (for immediate response), the smoothed
/// pair otherwise, in each case falling back to the other pair when the
/// preferred one is zero.
pub open spec fn spec_picked_delta(inp: ScrollInput) -> (int, int) {
    if inp.ctrl {
        if inp.raw_x != 0 || inp.raw_y != 0 {
            (inp.raw_x as int, inp.raw_y as int)
        } else {
            (inp.smooth_x as int, inp.smooth_y as int)
        }
    } else {
        if inp.smooth_x != 0 || inp.smooth_y != 0 {
            (inp.smooth_x as int, inp.smooth_y as int)
        } else {
            (inp.raw_x as int, inp.raw_y as int)
        }
    }
}

/// The zoom level after a zoom gesture of `delta` points: multiplied by
/// `1 + delta / 100` and clamped into `[ZOOM_MIN, ZOOM_MAX]`.  A factor of
/// zero or less collapses to the minimum zoom, as the clamp demands.
pub open spec fn spec_zoom_after(zoom: int, delta: int) -> int {
    if 100 + delta <= 0 {
        ZOOM_MIN as int
    } else if zoom * (100 + delta) / 100 < ZOOM_MIN {
        ZOOM_MIN as int
    } else if zoom * (100 + delta) / 100 > ZOOM_MAX {
        ZOOM_MAX as int
    } else {
        zoom * (100 + delta) / 100
    }
}

/// The largest permitted scroll offset for a configuration: the total tick
/// span minus the visible span for a bounded timeline (floored at zero), or
/// the machine limit when unbounded.
pub open spec fn spec_max_start(bound: ScrollBound, ticks_per_beat: int, visible: int) -> int {
    match bound {
        ScrollBound::Unbounded => MAX_TIMELINE_START as int,
        ScrollBound::Bars(total) => {
            let total_ticks = total * ticks_per_beat * 4000;
            if total_ticks - visible > 0 {
                total_ticks - visible
            } else {
                0
            }
        },
    }
}

/// The scroll offset after a shift: the requested offset clamped into
/// `[0, max_start]`.
pub open spec fn spec_scroll_after(start: int, shift: int, max_start: int) -> int {
    if start + shift < 0 {
        0
    } else if start + shift > max_start {
        max_start
    } else {
        start + shift
    }
}

/// The full viewport transition for one frame of scroll input, as a pair of
/// the new scroll offset and the new zoom level.  With the zoom modifier
/// held and any delta present, the vertical-minus-horizontal delta zooms;
/// otherwise a horizontal delta scrolls by that many points' worth of ticks.
pub open spec fn spec_scroll_zoom_step(
    state: ViewportState,
    inp: ScrollInput,
    bound: ScrollBound,
    ticks_per_beat: int,
    width: int,
) -> (int, int) {
    let (dx, dy) = spec_picked_delta(inp);
    if !inp.pointer_over {
        (state.timeline_start as int, state.zoom as int)
    } else if inp.ctrl {
        if dx != 0 || dy != 0 {
            (state.timeline_start as int, spec_zoom_after(state.zoom as int, dy - dx))
        } else {
            (state.timeline_start as int, state.zoom as int)
        }
    } else if dx != 0 {
        let tpp = time::spec_ticks_per_point(ticks_per_beat, state.zoom as int);
        let max_start = spec_max_start(bound, ticks_per_beat, tpp * width);
        (
            spec_scroll_after(state.timeline_start as int, dx * tpp, max_start),
            state.zoom as int,
        )
    } else {
        (state.timeline_start as int, state.zoom as int)
    }
}

/// Applies a zoom gesture of `delta` points to the zoom level.
fn apply_zoom(zoom: u32, delta: i64) -> (r: u32)
    requires
        ZOOM_MIN <= zoom <= ZOOM_MAX,
        -2 * MAX_POINTS <= delta <= 2 * MAX_POINTS,
    ensures
        r == spec_zoom_after(zoom as int, delta as int),
        ZOOM_MIN <= r <= ZOOM_MAX,
{
    let factor = 100 + delta;
    if factor <= 0 {
        ZOOM_MIN
    } else {
        proof {
            vstd::arithmetic::mul::lemma_mul_nonnegative(zoom as int, factor as int);
            vstd::arithmetic::mul::lemma_mul_upper_bound(
                zoom as int,
                ZOOM_MAX as int,
                factor as int,
                (2 * MAX_POINTS + 100) as int,
            );
        }
        let scaled = zoom as i64 * factor / 100;
        if scaled < ZOOM_MIN as i64 {
            ZOOM_MIN
        } else if scaled > ZOOM_MAX as i64 {
            ZOOM_MAX
        } else {
            scaled as u32
        }
    }
}

/// The largest permitted scroll offset under the given configuration and
/// visible span.
fn max_timeline_start(bound: ScrollBound, ticks_per_beat: u32, visible: i64) -> (r: i64)
    requires
        bound.wf(),
        1 <= ticks_per_beat <= MAX_TICKS_PER_BEAT,
        0 <= visible <= MAX_TIMELINE_START,
    ensures
        r == spec_max_start(bound, ticks_per_beat as int, visible as int),
        0 <= r <= MAX_TIMELINE_START,
{
    match bound {
        ScrollBound::Unbounded => MAX_TIMELINE_START,
        ScrollBound::Bars(total) => {
            proof {
                vstd::arithmetic::mul::lemma_mul_upper_bound(
                    total as int,
                    MAX_TOTAL_BARS as int,
                    ticks_per_beat as int,
                    MAX_TICKS_PER_BEAT as int,
                );
                vstd::arithmetic::mul::lemma_mul_nonnegative(total as int, ticks_per_beat as int);
            }
            let total_ticks = total as i64 * ticks_per_beat as i64 * 4000;
            if total_ticks - visible > 0 {
                total_ticks - visible
            } else {
                0
            }
        },
    }
}

/// Resolves one frame of scroll/zoom input against the viewport, mutating it
/// in place.  Returns the applied scroll delta in tick units — the clamped
/// difference actually added to `timeline_start`, never the raw request —
/// so the host never needs to re-clamp.
pub fn handle_scroll_and_zoom(
    state: &mut ViewportState,
    inp: ScrollInput,
    bound: ScrollBound,
    ticks_per_beat: u32,
    width: i64,
) -> (applied: i64)
    requires
        old(state).wf(),
        inp.wf(),
        bound.wf(),
        1 <= ticks_per_beat <= MAX_TICKS_PER_BEAT,
        0 <= width <= MAX_POINTS,
    ensures
        final(state).wf(),
        (final(state).timeline_start as int, final(state).zoom as int)
            == spec_scroll_zoom_step(*old(state), inp, bound, ticks_per_beat as int, width as int),
        applied == final(state).timeline_start - old(state).timeline_start,
{
    if !inp.pointer_over {
        return 0;
    }
    let (dx, dy): (i64, i64) = if inp.ctrl {
        if inp.raw_x != 0 || inp.raw_y != 0 {
            (inp.raw_x, inp.raw_y)
        } else {
            (inp.smooth_x, inp.smooth_y)
        }
    } else {
        if inp.smooth_x != 0 || inp.smooth_y != 0 {
            (inp.smooth_x, inp.smooth_y)
        } else {
            (inp.raw_x, inp.raw_y)
        }
    };
    if inp.ctrl {
        if dx != 0 || dy != 0 {
            state.zoom = apply_zoom(state.zoom, dy - dx);
        }
        0
    } else if dx != 0 {
        let tpp = time::ticks_per_point(ticks_per_beat, state.zoom);
        let visible = time::visible_ticks(tpp, width);
        let max_start = max_timeline_start(bound, ticks_per_beat, visible);
        let shift = time::x_to_tick(dx, tpp);
        let current = state.timeline_start;
        let requested = current + shift;
        let new_start = if requested < 0 {
            0
        } else if requested > max_start {
            max_start
        } else {
            requested
        };
        state.timeline_start = new_start;
        new_start - current
    } else {
        0
    }
}

/// The scroll offset that results from folding a whole sequence of shift
/// requests through the clamp, in order.
pub open spec fn spec_scroll_fold(start: int, shifts: Seq<int>, max_start: int) -> int
    decreases shifts.len(),
{
    if shifts.len() == 0 {
        start
    } else {
        spec_scroll_fold(spec_scroll_after(start, shifts[0], max_start), shifts.skip(1), max_start)
    }
}

/// However many scroll gestures are applied, and however large or negative
/// each requested shift is, the scroll offset never leaves `[0, max_start]`:
/// negative shifts cannot drive it below zero and, on a bounded timeline,
/// positive shifts cannot push it past the end.
pub proof fn lemma_scroll_fold_stays_clamped(start: int, shifts: Seq<int>, max_start: int)
    requires
        0 <= start <= max_start,
    ensures
        0 <= spec_scroll_fold(start, shifts, max_start) <= max_start,
    decreases shifts.len(),
{
    if shifts.len() > 0 {
        lemma_scroll_fold_stays_clamped(
            spec_scroll_after(start, shifts[0], max_start),
            shifts.skip(1),
            max_start,
        );
    }
}

} // verus!
