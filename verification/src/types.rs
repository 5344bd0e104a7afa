//! Shared data types and the fixed-point units used throughout the crate.

use vstd::prelude::*;

verus! {

/// Number of fixed-point units in one tick.  Every tick position, tick range
/// and tick delta in this crate is measured in these units (thousandths of a
/// tick), so that fractional tick values of the musical model stay exact.
pub const TICK_UNIT: i64 = 1000;

/// Number of fixed-point units in a zoom factor of one.  A zoom level of
/// `1500` means the timeline is zoomed in by a factor of one and a half.
pub const ZOOM_UNIT: u32 = 1000;

/// Smallest zoom level (a factor of one tenth).
pub const ZOOM_MIN: u32 = 100;

/// Largest zoom level (a factor of three).
pub const ZOOM_MAX: u32 = 3000;

/// Minimum gap between adjacent step or grid marks, in points.
pub const MIN_STEP_GAP: i64 = 4;

/// Largest supported ticks-per-beat (PPQN) value.  Real hosts use a few
/// hundred to a few thousand; the bound keeps every product in these
/// computations inside `i64`.
pub const MAX_TICKS_PER_BEAT: u32 = 1_000_000;

/// Largest tick magnitude, in fixed-point units, that tick positions handed
/// to or returned from this crate may reach.  The bound keeps sums and
/// products of tick values inside `i64`.
pub const MAX_TICK_UNITS: i64 = 0x8_0000_0000_0000;

/// Largest pixel coordinate or width, in points, that the layout and
/// hit-testing functions accept.
pub const MAX_POINTS: i64 = 1_000_000;

/// Largest scroll offset, in tick units, the viewport may reach.  Half of
/// [`MAX_TICK_UNITS`], so that a scroll offset plus any pointer-derived tick
/// offset still fits inside the supported tick magnitude.
pub const MAX_TIMELINE_START: i64 = 0x4_0000_0000_0000;

/// Largest possible ticks-per-point value, in units per point:
/// `MAX_TICKS_PER_BEAT * ZOOM_MAX / 16`.
pub const MAX_TICKS_PER_POINT: i64 = 187_500_000;

/// An axis-aligned pixel rectangle, in points.  `min` is the top-left
/// corner, `max` the bottom-right; containment is inclusive on all edges.
#[derive(Clone, Copy, Debug, PartialEq, Eq, Structural)]
pub struct Rect {
    pub min_x: i64,
    pub min_y: i64,
    pub max_x: i64,
    pub max_y: i64,
}

impl Rect {
    /// A rectangle is well formed when its corners are ordered and stay
    /// inside the supported pixel magnitude.
    pub open spec fn wf(self) -> bool {
        &&& -MAX_POINTS <= self.min_x <= self.max_x <= MAX_POINTS
        &&& -MAX_POINTS <= self.min_y <= self.max_y <= MAX_POINTS
    }

    /// The rectangle's width in points.
    pub open spec fn spec_width(self) -> int {
        self.max_x - self.min_x
    }

    /// The rectangle's height in points.
    pub open spec fn spec_height(self) -> int {
        self.max_y - self.min_y
    }

    /// The rectangle's width in points.
    pub fn width(&self) -> (r: i64)
        requires
            self.wf(),
        ensures
            r == self.spec_width(),
    {
        self.max_x - self.min_x
    }

    /// The rectangle's height in points.
    pub fn height(&self) -> (r: i64)
        requires
            self.wf(),
        ensures
            r == self.spec_height(),
    {
        self.max_y - self.min_y
    }

    /// Whether the point at `(x, y)` lies inside the rectangle (edges
    /// included).
    pub fn contains(&self, x: i64, y: i64) -> (r: bool)
        requires
            self.wf(),
        ensures
            r == self.spec_contains(x as int, y as int),
    {
        self.min_x <= x && x <= self.max_x && self.min_y <= y && y <= self.max_y
    }

    /// Whether the point at `(x, y)` lies inside the rectangle (edges
    /// included).
    pub open spec fn spec_contains(self, x: int, y: int) -> bool {
        self.min_x <= x <= self.max_x && self.min_y <= y <= self.max_y
    }
}

/// A musical time signature.
#[derive(Clone, Copy, Debug, PartialEq, Eq, Structural)]
pub struct TimeSig {
    /// The numerator: beats per bar in the signature's own counting unit.
    pub top: u16,
    /// The denominator: which note value counts as one beat.
    pub bottom: u16,
}

impl TimeSig {
    /// Both components of a time signature must be positive.
    pub open spec fn wf(self) -> bool {
        self.top > 0 && self.bottom > 0
    }

    /// The number of quarter-note beats per bar of this time signature, in
    /// thousandths of a beat: `4 * top / bottom`.
    pub fn beats_per_bar(&self) -> (r: u32)
        requires
            self.wf(),
        ensures
            r == 4000 * self.top as int / self.bottom as int,
    {
        4000 * self.top as u32 / self.bottom as u32
    }
}

/// A half-open range of tick positions, in fixed-point units.
#[derive(Clone, Copy, Debug, PartialEq, Eq, Structural)]
pub struct TickRange {
    pub start: i64,
    pub end: i64,
}

impl TickRange {
    /// A range is well formed when it is non-empty and stays inside the
    /// supported tick magnitude.
    pub open spec fn wf(self) -> bool {
        -MAX_TICK_UNITS <= self.start < self.end <= MAX_TICK_UNITS
    }
}

/// One musical bar: the tick range it spans and its time signature.
///
/// Bars are produced on demand by the host (they are not stored); the range
/// is relative to the left edge of the current viewport.
#[derive(Clone, Copy, Debug, PartialEq, Eq, Structural)]
pub struct Bar {
    /// The start and end offsets of the bar.
    pub tick_range: TickRange,
    /// The time signature of this bar.
    pub time_sig: TimeSig,
}

impl Bar {
    /// A bar is well formed when its range is non-empty and its time
    /// signature valid.
    pub open spec fn wf(self) -> bool {
        self.tick_range.wf() && self.time_sig.wf()
    }
}

} // verus!
