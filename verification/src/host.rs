//! The standard host time model: a timeline of four-four bars, one bar per
//! second, with a fixed total bar count.
//!
//! This is the concrete [`crate::ruler::MusicalInfo`] implementation a
//! host application uses when it does not bring its own: bars all share the
//! four-four signature, span `ticks_per_beat * 4` ticks each, and the bar
//! index reported for an offset beyond the final bar clamps to the final
//! bar.

use vstd::prelude::*;

use crate::ruler::MusicalInfo;
use crate::time;
use crate::types::{
    Bar, MAX_TICKS_PER_BEAT, MAX_TICK_UNITS, MAX_TIMELINE_START, TickRange, TimeSig, ZOOM_MAX,
    ZOOM_MIN,
};
use crate::viewport::MAX_TOTAL_BARS;

verus! {

use vstd::arithmetic::div_mod::{lemma_div_is_ordered, lemma_fundamental_div_mod,
    lemma_mod_division_less_than_divisor};
use vstd::arithmetic::mul::{lemma_mul_inequality, lemma_mul_is_commutative, lemma_mul_nonnegative};

/// A host time model over a fixed count of four-four bars.
#[derive(Clone, Copy, Debug, PartialEq, Eq, Structural)]
pub struct FourFourBars {
    /// Ticks per beat (PPQN).
    pub ticks_per_beat: u32,
    /// The zoom level, in thousandths of the neutral zoom.
    pub zoom: u32,
    /// The scroll offset, in tick units.
    pub timeline_start: i64,
    /// How many bars the timeline spans in total.
    pub total_bars: u32,
}

impl FourFourBars {
    /// The tick units one bar (and one second) spans.
    pub open spec fn spec_bar_units(self) -> int {
        self.ticks_per_beat * 4000
    }

    /// The bar index containing the given tick offset, clamped into the
    /// configured bar range.
    pub open spec fn spec_bar_number(self, tick: int) -> int {
        let absolute = self.timeline_start + tick;
        let raw = if absolute < 0 {
            0
        } else {
            absolute / self.spec_bar_units()
        };
        if raw > self.total_bars - 1 {
            self.total_bars - 1
        } else {
            raw
        }
    }
}

impl FourFourBars {
    /// The largest playhead position: the end of the final bar, in tick
    /// units.
    pub fn max_playhead_position(&self) -> (r: i64)
        requires
            self.inv(),
        ensures
            r == self.total_bars * self.spec_bar_units(),
            0 <= r <= MAX_TICK_UNITS,
    {
        proof {
            lemma_mul_nonnegative(self.total_bars as int, self.spec_bar_units());
            lemma_mul_inequality(self.total_bars as int, MAX_TOTAL_BARS as int,
                self.spec_bar_units());
            lemma_mul_is_commutative(MAX_TOTAL_BARS as int, self.spec_bar_units());
            lemma_mul_inequality(self.spec_bar_units(), MAX_TICKS_PER_BEAT as int * 4000,
                MAX_TOTAL_BARS as int);
        }
        self.total_bars as i64 * (self.ticks_per_beat as i64 * 4000)
    }
}

impl MusicalInfo for FourFourBars {
    open spec fn inv(&self) -> bool {
        &&& 1 <= self.ticks_per_beat <= MAX_TICKS_PER_BEAT
        &&& ZOOM_MIN <= self.zoom <= ZOOM_MAX
        &&& 0 <= self.timeline_start <= MAX_TIMELINE_START
        &&& 1 <= self.total_bars <= MAX_TOTAL_BARS
    }

    open spec fn spec_ticks_per_beat(&self) -> int {
        self.ticks_per_beat as int
    }

    open spec fn spec_ticks_per_point(&self) -> int {
        time::spec_ticks_per_point(self.ticks_per_beat as int, self.zoom as int)
    }

    open spec fn spec_bar_start(&self, tick: int) -> int {
        self.spec_bar_number(tick) * self.spec_bar_units() - self.timeline_start
    }

    open spec fn spec_bar_end(&self, tick: int) -> int {
        self.spec_bar_start(tick) + self.spec_bar_units()
    }

    open spec fn spec_bar_sig(&self, tick: int) -> TimeSig {
        TimeSig { top: 4, bottom: 4 }
    }

    fn ticks_per_beat(&self) -> (r: u32) {
        self.ticks_per_beat
    }

    fn bar_at_ticks(&self, tick: i64) -> (b: Bar) {
        let bar_units = time::ticks_per_bar(self.ticks_per_beat);
        let absolute = self.timeline_start + tick;
        let raw = if absolute < 0 {
            0
        } else {
            absolute / bar_units
        };
        let last = (self.total_bars - 1) as i64;
        let bar_number = if raw > last {
            last
        } else {
            raw
        };
        proof {
            if absolute >= 0 {
                lemma_div_is_ordered(0, absolute as int, bar_units as int);
            }
            lemma_mul_nonnegative(bar_number as int, bar_units as int);
            lemma_mul_inequality(bar_number as int, MAX_TOTAL_BARS as int, bar_units as int);
            lemma_mul_is_commutative(MAX_TOTAL_BARS as int, bar_units as int);
            lemma_mul_inequality(bar_units as int, MAX_TICKS_PER_BEAT as int * 4000,
                MAX_TOTAL_BARS as int);
            if tick >= 0 {
                let a = absolute as int;
                let u = bar_units as int;
                lemma_fundamental_div_mod(a, u);
                lemma_mod_division_less_than_divisor(a, u);
                assert((a / u) * u <= a) by (nonlinear_arith)
                    requires
                        a == u * (a / u) + a % u,
                        a % u >= 0,
                ;
                lemma_mul_inequality(bar_number as int, a / u, u);
            }
        }
        let start = bar_number * bar_units;
        Bar {
            tick_range: TickRange {
                start: start - self.timeline_start,
                end: start + bar_units - self.timeline_start,
            },
            time_sig: TimeSig { top: 4, bottom: 4 },
        }
    }

    fn ticks_per_point(&self) -> (r: i64) {
        time::ticks_per_point(self.ticks_per_beat, self.zoom)
    }

    fn timeline_start(&self) -> (r: Option<i64>) {
        Some(self.timeline_start)
    }
}

} // verus!
