//! The time model: conversions between ticks, pixels, bars and seconds.
//!
//! One "point" (pixel) of timeline width always covers `ticks_per_point`
//! tick units, so pixel-to-tick conversion is a single multiplication and
//! tick-to-pixel conversion a single division.  Tick zero always maps to the
//! left edge of the timeline content area.

use vstd::prelude::*;

use crate::types::{
    MAX_POINTS, MAX_TICKS_PER_BEAT, MAX_TICKS_PER_POINT, MAX_TICK_UNITS, ZOOM_MAX, ZOOM_MIN,
};

verus! {

use vstd::arithmetic::div_mod::{
    lemma_div_is_ordered, lemma_div_multiples_vanish, lemma_fundamental_div_mod,
    lemma_mod_division_less_than_divisor,
};
use vstd::arithmetic::mul::{
    lemma_mul_inequality, lemma_mul_is_associative, lemma_mul_is_commutative,
    lemma_mul_strict_inequality,
};

/// The number of tick units one point of timeline width covers, as a
/// function of the host's ticks-per-beat and the current zoom level:
/// sixteen points show one beat at neutral zoom, and zooming multiplies
/// the scale.
pub open spec fn spec_ticks_per_point(ticks_per_beat: int, zoom: int) -> int {
    ticks_per_beat * zoom / 16
}

/// How many tick units one point covers at the given zoom level.
///
/// At the neutral zoom level this is one sixteenth of a beat per point, so a
/// beat spans sixteen points.
pub fn ticks_per_point(ticks_per_beat: u32, zoom: u32) -> (r: i64)
    requires
        1 <= ticks_per_beat <= MAX_TICKS_PER_BEAT,
        ZOOM_MIN <= zoom <= ZOOM_MAX,
    ensures
        r == spec_ticks_per_point(ticks_per_beat as int, zoom as int),
        1 <= r <= MAX_TICKS_PER_POINT,
{
    proof {
        lemma_mul_inequality(ticks_per_beat as int, MAX_TICKS_PER_BEAT as int, zoom as int);
        lemma_mul_inequality(zoom as int, ZOOM_MAX as int, MAX_TICKS_PER_BEAT as int);
        lemma_mul_is_commutative(zoom as int, MAX_TICKS_PER_BEAT as int);
        lemma_mul_inequality(1, ticks_per_beat as int, zoom as int);
        lemma_mul_is_commutative(ticks_per_beat as int, zoom as int);
        lemma_div_is_ordered(zoom as int, ticks_per_beat as int * zoom as int, 16);
        lemma_div_is_ordered(
            ticks_per_beat as int * zoom as int,
            MAX_TICKS_PER_BEAT as int * ZOOM_MAX as int,
            16,
        );
    }
    ticks_per_beat as i64 * zoom as i64 / 16
}

/// The number of tick units visible across a timeline of the given width.
pub fn visible_ticks(ticks_per_point: i64, width: i64) -> (r: i64)
    requires
        1 <= ticks_per_point <= MAX_TICKS_PER_POINT,
        0 <= width <= MAX_POINTS,
    ensures
        r == ticks_per_point * width,
        0 <= r <= MAX_TICKS_PER_POINT * MAX_POINTS,
{
    proof {
        lemma_mul_inequality(width as int, MAX_POINTS as int, ticks_per_point as int);
        lemma_mul_is_commutative(ticks_per_point as int, width as int);
        lemma_mul_inequality(ticks_per_point as int, MAX_TICKS_PER_POINT as int, MAX_POINTS as int);
        vstd::arithmetic::mul::lemma_mul_nonnegative(ticks_per_point as int, width as int);
    }
    ticks_per_point * width
}

/// Converts a pixel offset from the timeline's left edge into a tick offset
/// from the viewport start.  Exact: one point covers `ticks_per_point` units.
pub fn x_to_tick(x: i64, ticks_per_point: i64) -> (r: i64)
    requires
        1 <= ticks_per_point <= MAX_TICKS_PER_POINT,
        -2 * MAX_POINTS <= x <= 2 * MAX_POINTS,
    ensures
        r == x * ticks_per_point,
        -MAX_TICK_UNITS <= r <= MAX_TICK_UNITS,
{
    proof {
        lemma_bounded_mul(x as int, ticks_per_point as int, 2 * MAX_POINTS as int,
            MAX_TICKS_PER_POINT as int);
    }
    x * ticks_per_point
}

/// The tick offset at which a pointer over pixel column `px` hits a
/// timeline whose content area starts at pixel column `left`: the pixel
/// distance converted to ticks, floored at zero.
pub open spec fn spec_hit_tick(px: int, left: int, ticks_per_point: int) -> int {
    if (px - left) * ticks_per_point >= 0 {
        (px - left) * ticks_per_point
    } else {
        0
    }
}

/// A pointer and a left edge within the pixel bounds hit a tick offset of at
/// most two screens' worth of ticks at maximal zoom.
pub proof fn lemma_hit_tick_bounds(px: int, left: int, ticks_per_point: int)
    requires
        -MAX_POINTS <= px <= MAX_POINTS,
        -MAX_POINTS <= left <= MAX_POINTS,
        1 <= ticks_per_point <= MAX_TICKS_PER_POINT,
    ensures
        0 <= spec_hit_tick(px, left, ticks_per_point) <= 2 * MAX_POINTS * MAX_TICKS_PER_POINT,
{
    lemma_bounded_mul(px - left, ticks_per_point, 2 * MAX_POINTS as int,
        MAX_TICKS_PER_POINT as int);
}

/// Converts a non-negative tick offset from the viewport start into the
/// pixel column (from the timeline's left edge) in which it falls.
pub fn tick_to_x(tick: i64, ticks_per_point: i64) -> (r: i64)
    requires
        1 <= ticks_per_point <= MAX_TICKS_PER_POINT,
        0 <= tick <= MAX_TICK_UNITS,
    ensures
        r == tick as int / ticks_per_point as int,
        0 <= r <= tick,
{
    proof {
        lemma_div_is_ordered(0, tick as int, ticks_per_point as int);
        vstd::arithmetic::div_mod::lemma_div_nonincreasing(tick as int, ticks_per_point as int);
    }
    tick / ticks_per_point
}

/// The tick offset hit by a pointer at pixel column `pointer_x` when the
/// timeline content area starts at pixel column `left_edge`: the pixel
/// distance from the left edge converted to ticks, floored at zero.
pub fn hit_test_tick(pointer_x: i64, left_edge: i64, ticks_per_point: i64) -> (r: i64)
    requires
        1 <= ticks_per_point <= MAX_TICKS_PER_POINT,
        -MAX_POINTS <= pointer_x <= MAX_POINTS,
        -MAX_POINTS <= left_edge <= MAX_POINTS,
    ensures
        r == spec_hit_tick(pointer_x as int, left_edge as int, ticks_per_point as int),
        0 <= r <= 2 * MAX_POINTS * MAX_TICKS_PER_POINT,
{
    proof {
        lemma_hit_tick_bounds(pointer_x as int, left_edge as int, ticks_per_point as int);
    }
    let t = x_to_tick(pointer_x - left_edge, ticks_per_point);
    if t >= 0 {
        t
    } else {
        0
    }
}

/// Clamps a tick offset into the visible range `[0, visible]`.
pub fn clamp_to_visible(tick: i64, visible: i64) -> (r: i64)
    requires
        0 <= visible,
    ensures
        r == if tick < 0 {
            0
        } else if tick > visible {
            visible as int
        } else {
            tick as int
        },
        0 <= r <= visible,
{
    if tick < 0 {
        0
    } else if tick > visible {
        visible
    } else {
        tick
    }
}

/// Converts a tick offset relative to the viewport into an absolute tick
/// position: `absolute = timeline_start + relative`.
pub fn absolute_tick(timeline_start: i64, relative: i64) -> (r: i64)
    requires
        0 <= timeline_start <= MAX_TICK_UNITS,
        -MAX_TICK_UNITS <= relative <= MAX_TICK_UNITS,
    ensures
        r == timeline_start + relative,
{
    timeline_start + relative
}

/// Converts an absolute tick position into an offset relative to the
/// viewport: `relative = absolute - timeline_start`.
pub fn relative_tick(timeline_start: i64, absolute: i64) -> (r: i64)
    requires
        0 <= timeline_start <= MAX_TICK_UNITS,
        -MAX_TICK_UNITS <= absolute <= MAX_TICK_UNITS,
    ensures
        r == absolute - timeline_start,
{
    absolute - timeline_start
}

/// Tick units per bar under the fixed four-four assumption used by the grid,
/// the clock display and playback: four beats of `ticks_per_beat` ticks.
pub fn ticks_per_bar(ticks_per_beat: u32) -> (r: i64)
    requires
        1 <= ticks_per_beat <= MAX_TICKS_PER_BEAT,
    ensures
        r == ticks_per_beat * 4000,
        4000 <= r <= MAX_TICKS_PER_BEAT * 4000,
{
    ticks_per_beat as i64 * 4000
}

/// Tick units per second of wall-clock time: one bar is defined to last one
/// second for playback and display purposes.
pub fn ticks_per_second(ticks_per_beat: u32) -> (r: i64)
    requires
        1 <= ticks_per_beat <= MAX_TICKS_PER_BEAT,
    ensures
        r == ticks_per_beat * 4000,
        4000 <= r <= MAX_TICKS_PER_BEAT * 4000,
{
    ticks_per_bar(ticks_per_beat)
}

/// Helper: `|a| <= abound` and `0 <= b <= bbound` bound the product.
proof fn lemma_bounded_mul(a: int, b: int, abound: int, bbound: int)
    requires
        -abound <= a <= abound,
        0 <= b <= bbound,
        0 <= abound,
    ensures
        -(abound * bbound) <= a * b <= abound * bbound,
{
    lemma_mul_inequality(a, abound, b);
    lemma_mul_is_commutative(abound, b);
    lemma_mul_inequality(b, bbound, abound);
    lemma_mul_is_commutative(bbound, abound);
    lemma_mul_inequality(-abound, a, b);
    lemma_mul_is_commutative(-abound, b);
    assert((-abound) * b == -(abound * b)) by (nonlinear_arith);
}

/// The pixel-to-tick conversion scaled by a larger zoom level never covers
/// fewer ticks per point: `ticks_per_point` is monotone in the zoom level.
pub proof fn lemma_ticks_per_point_monotone(ticks_per_beat: int, zoom1: int, zoom2: int)
    requires
        1 <= ticks_per_beat,
        0 <= zoom1 <= zoom2,
    ensures
        spec_ticks_per_point(ticks_per_beat, zoom1) <= spec_ticks_per_point(ticks_per_beat, zoom2),
{
    lemma_mul_inequality(zoom1, zoom2, ticks_per_beat);
    lemma_mul_is_commutative(zoom1, ticks_per_beat);
    lemma_mul_is_commutative(zoom2, ticks_per_beat);
    lemma_div_is_ordered(ticks_per_beat * zoom1, ticks_per_beat * zoom2, 16);
}

/// When the ticks-per-beat value is a positive multiple of sixteen (as with
/// the common nine-hundred-sixty PPQN), `ticks_per_point` is strictly
/// increasing in the zoom level.
pub proof fn lemma_ticks_per_point_strictly_monotone(ticks_per_beat: int, zoom1: int, zoom2: int)
    requires
        16 <= ticks_per_beat,
        ticks_per_beat % 16 == 0,
        0 <= zoom1 < zoom2,
    ensures
        spec_ticks_per_point(ticks_per_beat, zoom1) < spec_ticks_per_point(ticks_per_beat, zoom2),
{
    let k = ticks_per_beat / 16;
    lemma_fundamental_div_mod(ticks_per_beat, 16);
    assert(ticks_per_beat == 16 * k);
    assert(ticks_per_beat * zoom1 == 16 * (k * zoom1)) by {
        lemma_mul_is_associative(16, k, zoom1);
    }
    assert(ticks_per_beat * zoom2 == 16 * (k * zoom2)) by {
        lemma_mul_is_associative(16, k, zoom2);
    }
    lemma_div_multiples_vanish(k * zoom1, 16);
    lemma_div_multiples_vanish(k * zoom2, 16);
    lemma_mul_strict_inequality(zoom1, zoom2, k);
    lemma_mul_is_commutative(zoom1, k);
    lemma_mul_is_commutative(zoom2, k);
}

/// Dividing a sum by a positive divisor yields at least the sum of the
/// divided parts.
pub proof fn lemma_div_add_ge(a: int, b: int, d: int)
    requires
        0 <= a,
        0 <= b,
        1 <= d,
    ensures
        (a + b) / d >= a / d + b / d,
{
    let q = a / d;
    let r = a % d;
    lemma_fundamental_div_mod(a, d);
    lemma_mod_division_less_than_divisor(a, d);
    vstd::arithmetic::div_mod::lemma_hoist_over_denominator(r + b, q, d as nat);
    lemma_div_is_ordered(b, r + b, d);
    vstd::arithmetic::mul::lemma_mul_is_commutative(q, d);
}

/// Converting a pixel column to ticks and back returns the same column
/// exactly: `tick_to_x` inverts `x_to_tick`.
pub proof fn lemma_point_tick_round_trip(x: int, ticks_per_point: int)
    requires
        1 <= ticks_per_point,
    ensures
        (x * ticks_per_point) / ticks_per_point == x,
{
    lemma_div_multiples_vanish(x, ticks_per_point);
    lemma_mul_is_commutative(x, ticks_per_point);
}

/// Converting a tick offset to its pixel column and back lands within one
/// point's worth of ticks below the original offset: `x_to_tick` inverts
/// `tick_to_x` up to the sub-pixel remainder.
pub proof fn lemma_tick_point_round_trip(tick: int, ticks_per_point: int)
    requires
        0 <= tick,
        1 <= ticks_per_point,
    ensures
        tick - ticks_per_point < (tick / ticks_per_point) * ticks_per_point <= tick,
{
    lemma_fundamental_div_mod(tick, ticks_per_point);
    lemma_mod_division_less_than_divisor(tick, ticks_per_point);
    lemma_mul_is_commutative(tick / ticks_per_point, ticks_per_point);
}

} // verus!
