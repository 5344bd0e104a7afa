//! The time-based grid: marks snapped to fixed tenth-of-a-second intervals
//! across the visible range, regardless of musical time signature.
//!
//! One bar is defined to last one second, so with ten lines per second the
//! marks sit every `ticks_per_beat * 400` tick units.  A mark closer than
//! the minimum gap to the previously drawn mark is suppressed — except, in
//! ruler mode, a whole-second mark, which is never suppressed, so at least
//! one label per second survives even under extreme zoom-out.

use vstd::prelude::*;

use crate::types::{
    MAX_POINTS, MAX_TICKS_PER_BEAT, MAX_TICKS_PER_POINT, MAX_TIMELINE_START,
};
use crate::viewport::MAX_TOTAL_BARS;

verus! {

use vstd::arithmetic::div_mod::{
    lemma_div_is_ordered, lemma_fundamental_div_mod, lemma_fundamental_div_mod_converse,
    lemma_mod_division_less_than_divisor,
};
use vstd::arithmetic::mul::{
    lemma_mul_inequality, lemma_mul_is_commutative, lemma_mul_is_distributive_add_other_way,
    lemma_mul_nonnegative,
};

/// Tick units between adjacent grid lines: a tenth of a second.
pub open spec fn spec_line_units(ticks_per_beat: int) -> int {
    ticks_per_beat * 400
}

/// Tick units in one whole second (= one four-four bar).
pub open spec fn spec_second_units(ticks_per_beat: int) -> int {
    ticks_per_beat * 4000
}

/// One grid or ruler mark.
#[derive(Clone, Copy, Debug, PartialEq, Eq, Structural)]
pub struct GridMark {
    /// The mark's pixel column relative to the timeline's left edge.  The
    /// lead-in mark (the lattice point at or just before the viewport
    /// start) may sit at a negative column.
    pub x: i64,
    /// The mark's tick offset relative to the viewport start, in tick
    /// units.
    pub tick: i64,
    /// Whether the mark sits on a whole second (a bar boundary), which
    /// gives it the heavier visual weight and a number label.
    pub whole_second: bool,
    /// The whole seconds elapsed at this mark, capped at the final bar
    /// number: the number drawn beside a whole-second mark.
    pub bar_number: u32,
    /// Which tenth of its second the mark sits on (zero to nine); even and
    /// odd tenths get different visual weights.
    pub subdivision_index: u8,
}

/// Signed flooring division: the mathematical quotient, also for negative
/// numerators.
fn div_floor(a: i64, b: i64) -> (r: i64)
    requires
        1 <= b <= 0x1000_0000_0000_0000,
        -0x2000_0000_0000_0000 <= a <= 0x2000_0000_0000_0000,
    ensures
        r == a as int / b as int,
        a >= 0 ==> 0 <= r <= a,
        a < 0 ==> a <= r <= 0,
{
    if a >= 0 {
        proof {
            lemma_div_is_ordered(0, a as int, b as int);
            vstd::arithmetic::div_mod::lemma_div_nonincreasing(a as int, b as int);
        }
        a / b
    } else {
        let n = -a;
        let q = (n + b - 1) / b;
        proof {
            let ni = n as int;
            let bi = b as int;
            let qi = q as int;
            lemma_fundamental_div_mod(ni + bi - 1, bi);
            lemma_mod_division_less_than_divisor(ni + bi - 1, bi);
            let r0 = (ni + bi - 1) % bi;
            assert(ni + bi - 1 == bi * qi + r0);
            let s = bi - 1 - r0;
            assert(a as int == (-qi) * bi + s) by (nonlinear_arith)
                requires
                    ni + bi - 1 == bi * qi + r0,
                    s == bi - 1 - r0,
                    a as int == -ni,
            ;
            lemma_fundamental_div_mod_converse(a as int, bi, -qi, s);
            lemma_div_is_ordered(0, ni + bi - 1, bi);
            assert(-qi >= a) by (nonlinear_arith)
                requires
                    a as int == (-qi) * bi + s,
                    0 <= s < bi,
                    1 <= bi,
                    a < 0,
            ;
        }
        -q
    }
}

/// Produces the tenth-of-a-second marks across the visible range, in
/// order, beginning with the lattice point at or just before the viewport
/// start and suppressing marks that crowd the previously drawn one.
///
/// With `keep_whole_seconds` set (ruler mode), whole-second marks are
/// exempt from suppression, so consecutive marks may crowd only when the
/// later one is a whole second; without it (grid mode), every pair of
/// consecutive drawn marks is at least `min_gap` points apart.
///
/// The contract pins every mark's fields to its tick position, keeps the
/// marks strictly ordered on the tenth-second lattice, and — in ruler mode
/// — guarantees that every whole second of the visible range is present.
#[verifier::loop_isolation(false)]
#[verifier::rlimit(60)]
pub fn grid_marks(
    timeline_start: i64,
    ticks_per_beat: u32,
    ticks_per_point: i64,
    visible: i64,
    min_gap: i64,
    max_bar: u32,
    keep_whole_seconds: bool,
) -> (marks: Vec<GridMark>)
    requires
        0 <= timeline_start <= MAX_TIMELINE_START,
        1 <= ticks_per_beat <= MAX_TICKS_PER_BEAT,
        1 <= ticks_per_point <= MAX_TICKS_PER_POINT,
        0 <= visible <= MAX_TICKS_PER_POINT * MAX_POINTS,
        0 <= min_gap <= MAX_POINTS,
        1 <= max_bar <= MAX_TOTAL_BARS,
    ensures
        ({
            let ms = marks@;
            let start = timeline_start as int;
            let line = spec_line_units(ticks_per_beat as int);
            let second = spec_second_units(ticks_per_beat as int);
            &&& forall|i: int|
                0 <= i < ms.len() ==> (start + (#[trigger] ms[i]).tick) % line == 0
            &&& forall|i: int|
                0 <= i < ms.len() ==> (#[trigger] ms[i]).x == ms[i].tick as int
                    / ticks_per_point as int
            &&& forall|i: int|
                0 <= i < ms.len() ==> ((#[trigger] ms[i]).whole_second <==> (start + ms[i].tick)
                    % second == 0)
            &&& forall|i: int|
                0 <= i < ms.len() ==> (#[trigger] ms[i]).bar_number == (if (start + ms[i].tick)
                    / second > max_bar {
                    max_bar as int
                } else {
                    (start + ms[i].tick) / second
                })
            &&& forall|i: int|
                0 <= i < ms.len() ==> (#[trigger] ms[i]).subdivision_index == ((start + ms[i].tick)
                    / line) % 10
            &&& forall|i: int|
                0 <= i < ms.len() ==> (#[trigger] ms[i]).tick <= visible
            &&& forall|i: int|
                0 <= i < ms.len() - 1 ==> (#[trigger] ms[i + 1]).tick > ms[i].tick && ms[i + 1].x
                    >= ms[i].x
            &&& ms.len() > 0
            &&& -line < ms[0].tick <= 0
            &&& keep_whole_seconds ==> forall|i: int|
                0 <= i < ms.len() - 1 ==> (#[trigger] ms[i + 1]).whole_second
                    || ms[i + 1].x - ms[i].x >= min_gap
            &&& !keep_whole_seconds ==> forall|i: int|
                0 <= i < ms.len() - 1 ==> (#[trigger] ms[i + 1]).x - ms[i].x >= min_gap
            &&& keep_whole_seconds ==> forall|a: int|
                (#[trigger] (a * second)) >= start && a * second <= start + visible && a >= 0
                    ==> exists|i: int| 0 <= i < ms.len() && ms[i].tick == a * second - start
            &&& forall|a: int|
                a >= 0 && #[trigger] (a * line) > start - line && a * line - start <= visible
                    ==> (exists|i: int| 0 <= i < ms.len() && (#[trigger] ms[i]).tick == a * line
                    - start) || (exists|i: int|
                    {
                        &&& 0 <= i < ms.len()
                        &&& (#[trigger] ms[i]).tick < a * line - start
                        &&& (i + 1 < ms.len() ==> ms[i + 1].tick > a * line - start)
                        &&& (a * line - start) / (ticks_per_point as int) - ms[i].x < min_gap
                        &&& !(keep_whole_seconds && (a * line) % second == 0)
                    })
        }),
{
    let line = ticks_per_beat as i64 * 400;
    let second = ticks_per_beat as i64 * 4000;
    let first_k = timeline_start / line;
    proof {
        let s = timeline_start as int;
        let l = line as int;
        lemma_fundamental_div_mod(s, l);
        lemma_mod_division_less_than_divisor(s, l);
        lemma_div_is_ordered(0, s, l);
        lemma_mul_is_commutative(s / l, l);
        assert(s / l * l == s - s % l);
        assert(s - l < s / l * l <= s);
        lemma_mul_nonnegative(first_k as int, line as int);
        assert forall|a: int|
            !(a >= 0 && #[trigger] (a * l) > s - l && a * l < first_k as int * l) by {
            if a >= 0 && a * l < first_k as int * l {
                assert(a < first_k as int) by (nonlinear_arith)
                    requires
                        a * l < first_k as int * l,
                        l >= 1,
                ;
                lemma_mul_inequality(a, first_k as int - 1, l);
                assert((first_k as int - 1) * l == first_k as int * l - l) by (nonlinear_arith);
            }
        }
    }
    let mut out: Vec<GridMark> = Vec::new();
    let mut k = first_k;
    let mut absolute = first_k * line;
    let mut last_x: i64 = 0;
    let mut have_last = false;
    while absolute - timeline_start <= visible
        invariant
            absolute == k * line,
            first_k <= k,
            0 <= absolute,
            absolute <= timeline_start + visible + line,
            timeline_start - line < first_k * line <= timeline_start,
            forall|i: int|
                0 <= i < out@.len() ==> (timeline_start + (#[trigger] out@[i]).tick) % (line as int) == 0,
            forall|i: int|
                0 <= i < out@.len() ==> (#[trigger] out@[i]).x == out@[i].tick as int
                    / ticks_per_point as int,
            forall|i: int|
                0 <= i < out@.len() ==> ((#[trigger] out@[i]).whole_second <==> (timeline_start
                    + out@[i].tick) % (second as int) == 0),
            forall|i: int|
                0 <= i < out@.len() ==> (#[trigger] out@[i]).bar_number == (if (timeline_start
                    + out@[i].tick) / (second as int) > max_bar {
                    max_bar as int
                } else {
                    (timeline_start + out@[i].tick) / (second as int)
                }),
            forall|i: int|
                0 <= i < out@.len() ==> (#[trigger] out@[i]).subdivision_index == ((timeline_start
                    + out@[i].tick) / (line as int)) % 10,
            forall|i: int|
                0 <= i < out@.len() ==> (#[trigger] out@[i]).tick <= visible && timeline_start
                    + out@[i].tick < absolute && out@[i].tick >= first_k * line - timeline_start,
            forall|i: int|
                0 <= i < out@.len() - 1 ==> (#[trigger] out@[i + 1]).tick > out@[i].tick && out@[i
                    + 1].x >= out@[i].x,
            k > first_k ==> out@.len() > 0 && out@[0].tick == first_k * line - timeline_start,
            have_last <==> out@.len() > 0,
            have_last ==> out@[out@.len() - 1].x == last_x,
            have_last ==> -(line as int) <= last_x <= visible,
            keep_whole_seconds ==> forall|i: int|
                0 <= i < out@.len() - 1 ==> (#[trigger] out@[i + 1]).whole_second || out@[i + 1].x
                    - out@[i].x >= min_gap,
            !keep_whole_seconds ==> forall|i: int|
                0 <= i < out@.len() - 1 ==> (#[trigger] out@[i + 1]).x - out@[i].x >= min_gap,
            keep_whole_seconds ==> forall|a: int|
                (#[trigger] (a * (second as int))) >= timeline_start && a * (second as int)
                    < absolute && a >= 0 ==> exists|i: int|
                    0 <= i < out@.len() && out@[i].tick == a * (second as int) - timeline_start,
            forall|a: int|
                a >= 0 && #[trigger] (a * (line as int)) > timeline_start - line && a * (
                line as int) < absolute ==> (exists|i: int|
                    0 <= i < out@.len() && (#[trigger] out@[i]).tick == a * (line as int)
                        - timeline_start) || (exists|i: int|
                    {
                        &&& 0 <= i < out@.len()
                        &&& (#[trigger] out@[i]).tick < a * (line as int) - timeline_start
                        &&& (i + 1 < out@.len() ==> out@[i + 1].tick > a * (line as int)
                            - timeline_start)
                        &&& (a * (line as int) - timeline_start) / (ticks_per_point as int)
                            - out@[i].x < min_gap
                        &&& !(keep_whole_seconds && (a * (line as int)) % (second as int) == 0)
                    }),
        decreases timeline_start + visible - absolute + line,
    {
        let ghost pre = out@;
        let ghost k0 = k as int;
        let ghost abs0 = absolute as int;
        let tick = absolute - timeline_start;
        let x = div_floor(tick, ticks_per_point);
        let whole_second = absolute % second == 0;
        let bar_quot = absolute / second;
        proof {
            lemma_div_is_ordered(0, absolute as int, second as int);
        }
        let bar_number = if bar_quot > max_bar as i64 {
            max_bar
        } else {
            bar_quot as u32
        };
        let subdivision_index = (k % 10) as u8;
        proof {
            lemma_fundamental_div_mod(absolute as int, line as int);
            lemma_mod_division_less_than_divisor(absolute as int, line as int);
            vstd::arithmetic::div_mod::lemma_div_multiples_vanish(k as int, line as int);
            lemma_mul_is_commutative(k as int, line as int);
            if out@.len() > 0 {
                let prev = out@[out@.len() - 1];
                lemma_div_is_ordered(prev.tick as int, tick as int, ticks_per_point as int);
            }
        }
        let too_close = if have_last {
            let diff = if x >= last_x {
                x - last_x
            } else {
                last_x - x
            };
            diff < min_gap
        } else {
            false
        };
        let ghost did_draw = (keep_whole_seconds && whole_second) || !too_close;
        if (keep_whole_seconds && whole_second) || !too_close {
            out.push(GridMark { x, tick, whole_second, bar_number, subdivision_index });
            last_x = x;
            have_last = true;
        }
        proof {
            lemma_mul_is_distributive_add_other_way(line as int, k as int, 1);
        }
        k = k + 1;
        absolute = absolute + line;
        proof {
            let li = line as int;
            let sec = second as int;
            let tpp = ticks_per_point as int;
            assert forall|a: int|
                a >= 0 && #[trigger] (a * li) > timeline_start - line && a * li < absolute
                    implies (exists|i: int|
                0 <= i < out@.len() && (#[trigger] out@[i]).tick == a * li - timeline_start) || (
            exists|i: int|
                {
                    &&& 0 <= i < out@.len()
                    &&& (#[trigger] out@[i]).tick < a * li - timeline_start
                    &&& (i + 1 < out@.len() ==> out@[i + 1].tick > a * li - timeline_start)
                    &&& (a * li - timeline_start) / tpp - out@[i].x < min_gap
                    &&& !(keep_whole_seconds && (a * li) % sec == 0)
                }) by {
                let t_a = a * li - timeline_start;
                if a * li < abs0 {
                    if exists|i: int| 0 <= i < pre.len() && pre[i].tick == t_a {
                        let w = choose|i: int| 0 <= i < pre.len() && pre[i].tick == t_a;
                        assert(out@[w].tick == t_a);
                    } else {
                        let w = choose|i: int|
                            {
                                &&& 0 <= i < pre.len()
                                &&& pre[i].tick < t_a
                                &&& (i + 1 < pre.len() ==> pre[i + 1].tick > t_a)
                                &&& t_a / tpp - pre[i].x < min_gap
                                &&& !(keep_whole_seconds && (a * li) % sec == 0)
                            };
                        assert(out@[w].tick < t_a);
                        if w + 1 < out@.len() {
                            if w + 1 < pre.len() {
                                assert(out@[w + 1] == pre[w + 1]);
                            } else {
                                assert(out@[w + 1].tick == abs0 - timeline_start);
                            }
                        }
                    }
                } else {
                    assert(a == k0) by (nonlinear_arith)
                        requires
                            abs0 == k0 * li,
                            abs0 <= a * li,
                            a * li < abs0 + li,
                            li >= 1,
                    ;
                    assert(a * li == abs0) by (nonlinear_arith)
                        requires
                            a == k0,
                            abs0 == k0 * li,
                    ;
                    if did_draw {
                        assert(out@[out@.len() - 1].tick == t_a);
                    } else {
                        let w = out@.len() - 1;
                        assert(out@[w].x == last_x);
                        assert(out@[w].tick < t_a);
                        assert(t_a / tpp - out@[w].x < min_gap);
                        assert(!(keep_whole_seconds && (a * li) % sec == 0));
                    }
                }
            }
            if keep_whole_seconds {
                let sec = second as int;
                let li = line as int;
                let start = timeline_start as int;
                assert(sec == 10 * li);
                assert forall|a: int|
                    (#[trigger] (a * sec)) >= start && a * sec < absolute && a >= 0 implies exists|
                    i: int,
                |
                    0 <= i < out@.len() && out@[i].tick == a * sec - start by {
                    if a * sec < abs0 {
                        let w = choose|i: int|
                            0 <= i < pre.len() && pre[i].tick == a * sec - start;
                        assert(out@[w].tick == a * sec - start);
                    } else {
                        assert(a * sec == 10 * a * li) by (nonlinear_arith)
                            requires
                                sec == 10 * li,
                        ;
                        assert(10 * a == k0) by (nonlinear_arith)
                            requires
                                abs0 == k0 * li,
                                abs0 <= 10 * a * li,
                                10 * a * li < abs0 + li,
                                li >= 1,
                        ;
                        assert(a * sec == abs0) by (nonlinear_arith)
                            requires
                                10 * a == k0,
                                a * sec == 10 * a * li,
                                abs0 == k0 * li,
                        ;
                        vstd::arithmetic::div_mod::lemma_mod_multiples_basic(a, sec);
                        assert(abs0 % sec == 0);
                        assert(out@.len() == pre.len() + 1);
                        assert(out@[out@.len() - 1].tick == abs0 - start);
                    }
                }
            }
        }
    }
    out
}

} // verus!
