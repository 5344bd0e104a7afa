//! The step generator: a lazy, restartable sequence of subdivision marks
//! (bar and beat steps) across the visible tick range, enforcing a minimum
//! pixel spacing between marks.
//!
//! Within each bar the subdivision interval starts from the bar's time
//! signature and is halved repeatedly while the resulting pixel spacing
//! stays above the minimum gap, so the generator emits the finest
//! subdivision that still keeps marks at least the gap apart.  When even
//! one beat-sized step is too narrow, the generator falls back to stepping
//! by whole bars.

use vstd::prelude::*;

use crate::time;
use crate::types::{
    Bar, MAX_POINTS, MAX_TICKS_PER_BEAT, MAX_TICKS_PER_POINT, MAX_TICK_UNITS,
    MAX_TIMELINE_START, TICK_UNIT, TimeSig,
};

verus! {

use vstd::arithmetic::div_mod::{
    lemma_div_is_ordered, lemma_div_is_ordered_by_denominator, lemma_div_multiples_vanish,
    lemma_fundamental_div_mod, lemma_mod_division_less_than_divisor,
};
use vstd::arithmetic::mul::{lemma_mul_inequality, lemma_mul_nonnegative};

/// The time information a host supplies to the ruler and step generator.
/// Each implementation pins its executable answers to its own spec
/// functions, so callers of a concrete host reason with exact values.
pub trait MusicalInfo: Sized {
    /// The invariant the host maintains on its own state.
    spec fn inv(&self) -> bool;

    /// The host's ticks-per-beat value, mathematically.
    spec fn spec_ticks_per_beat(&self) -> int;

    /// The host's tick-units-per-point scale, mathematically.
    spec fn spec_ticks_per_point(&self) -> int;

    /// The start, in tick units relative to the viewport, of the bar the
    /// host reports at the given tick offset.
    spec fn spec_bar_start(&self, tick: int) -> int;

    /// The end of that bar.
    spec fn spec_bar_end(&self, tick: int) -> int;

    /// That bar's time signature.
    spec fn spec_bar_sig(&self, tick: int) -> TimeSig;

    /// The number of ticks per beat, also known as PPQN (parts per quarter
    /// note).
    fn ticks_per_beat(&self) -> (r: u32)
        requires
            self.inv(),
        ensures
            r == self.spec_ticks_per_beat(),
            1 <= r <= MAX_TICKS_PER_BEAT,
    ;

    /// The bar at the given tick offset from the beginning (left edge) of
    /// the timeline view.  For a non-negative offset the reported bar never
    /// starts after that offset.
    fn bar_at_ticks(&self, tick: i64) -> (b: Bar)
        requires
            self.inv(),
            -MAX_TICK_UNITS <= tick <= MAX_TICK_UNITS,
        ensures
            b.wf(),
            b.tick_range.start == self.spec_bar_start(tick as int),
            b.tick_range.end == self.spec_bar_end(tick as int),
            b.time_sig == self.spec_bar_sig(tick as int),
            tick >= 0 ==> b.tick_range.start <= tick,
    ;

    /// How many tick units one point of timeline width covers at the host's
    /// current zoom.
    fn ticks_per_point(&self) -> (r: i64)
        requires
            self.inv(),
        ensures
            r == self.spec_ticks_per_point(),
            1 <= r <= MAX_TICKS_PER_POINT,
    ;

    /// The current scroll offset in tick units, when the host has one.
    fn timeline_start(&self) -> (r: Option<i64>)
        requires
            self.inv(),
        ensures
            r matches Some(s) ==> 0 <= s <= MAX_TIMELINE_START,
    ;
}

/// One subdivision mark produced by the generator.
#[derive(Clone, Copy, Debug, PartialEq, Eq, Structural)]
pub struct Step {
    /// The index of the step within its bar.  Index zero always marks the
    /// start of a bar.
    pub index_in_bar: u64,
    /// The step's position in tick units from the left edge of the visible
    /// area.
    pub ticks: i64,
    /// The step's position in points from the left edge of the visible
    /// area.
    pub x: i64,
}

/// The number of beat subdivisions a bar's time signature starts from:
/// a quarter of the denominator, floored at one.
pub open spec fn spec_initial_subdivs(sig: TimeSig) -> int {
    if sig.bottom as int / 4 >= 1 {
        sig.bottom as int / 4
    } else {
        1
    }
}

/// The subdivision step reached by repeatedly doubling the subdivision
/// count while the halved step would still exceed `min_step`: the finest
/// step whose value stays above the minimum.
pub open spec fn spec_refined_step(tpb_units: int, subdivs: int, min_step: int) -> int
    decreases tpb_units - subdivs,
        when 1 <= subdivs && 0 <= min_step && 1 <= tpb_units
    via spec_refined_step_decreases
{
    if tpb_units / (2 * subdivs) <= min_step {
        tpb_units / subdivs
    } else {
        spec_refined_step(tpb_units, 2 * subdivs, min_step)
    }
}

#[via_fn]
proof fn spec_refined_step_decreases(tpb_units: int, subdivs: int, min_step: int) {
    if !(tpb_units / (2 * subdivs) <= min_step) {
        lemma_fundamental_div_mod(tpb_units, 2 * subdivs);
        lemma_mod_division_less_than_divisor(tpb_units, 2 * subdivs);
        assert(tpb_units >= 2 * subdivs) by (nonlinear_arith)
            requires
                tpb_units == 2 * subdivs * (tpb_units / (2 * subdivs)) + tpb_units % (2 * subdivs),
                tpb_units / (2 * subdivs) >= 1,
                tpb_units % (2 * subdivs) >= 0,
                subdivs >= 1,
        ;
    }
}

/// The refined step stays between the minimum step and the initial step,
/// and is always at least one unit.
pub proof fn lemma_refined_step_bounds(tpb_units: int, subdivs: int, min_step: int)
    requires
        1 <= subdivs,
        0 <= min_step,
        1 <= tpb_units,
        tpb_units / subdivs >= 1,
        tpb_units / subdivs >= min_step,
    ensures
        1 <= spec_refined_step(tpb_units, subdivs, min_step) <= tpb_units / subdivs,
        spec_refined_step(tpb_units, subdivs, min_step) >= min_step,
    decreases tpb_units - subdivs,
{
    if tpb_units / (2 * subdivs) <= min_step {
    } else {
        lemma_fundamental_div_mod(tpb_units, 2 * subdivs);
        lemma_mod_division_less_than_divisor(tpb_units, 2 * subdivs);
        assert(tpb_units >= 2 * subdivs) by (nonlinear_arith)
            requires
                tpb_units == 2 * subdivs * (tpb_units / (2 * subdivs)) + tpb_units % (2 * subdivs),
                tpb_units / (2 * subdivs) >= 1,
                tpb_units % (2 * subdivs) >= 0,
                subdivs >= 1,
        ;
        lemma_refined_step_bounds(tpb_units, 2 * subdivs, min_step);
        lemma_div_is_ordered_by_denominator(tpb_units, subdivs, 2 * subdivs);
    }
}

/// Whether the generator falls back to whole-bar steps under this time
/// signature: the initial beat-sized step is already below the minimum (or
/// degenerate).
pub open spec fn spec_whole_bar_fallback(sig: TimeSig, tpb_units: int, min_step: int) -> bool {
    let step0 = tpb_units / spec_initial_subdivs(sig);
    !(step0 >= min_step && step0 >= 1)
}

/// The subdivision step, in tick units, used within a bar of the given
/// signature and tick range: the refined beat subdivision, or the whole
/// bar width as a fallback.
pub open spec fn spec_step_size(sig: TimeSig, start: int, end: int, tpb_units: int, min_step: int) -> int {
    let subdivs = spec_initial_subdivs(sig);
    let step0 = tpb_units / subdivs;
    if step0 >= min_step && step0 >= 1 {
        spec_refined_step(tpb_units, subdivs, min_step)
    } else {
        end - start
    }
}

/// The subdivision step used within the given bar.
pub open spec fn spec_step_ticks(bar: Bar, tpb_units: int, min_step: int) -> int {
    spec_step_size(
        bar.time_sig,
        bar.tick_range.start as int,
        bar.tick_range.end as int,
        tpb_units,
        min_step,
    )
}

/// Whether index `j` names one of the steps a bar emits: its candidate
/// tick lies at or after the viewport start, inside the bar, and inside
/// the visible range.
pub open spec fn spec_in_range_index(start: int, end: int, step: int, visible: int, j: int) -> bool {
    0 <= j && 0 <= start + j * step && start + j * step < end && start + j * step <= visible
}

/// Computes the subdivision step for one bar by doubling the subdivision
/// count while the halved step still exceeds `min_step`.
fn compute_step_ticks(bar: &Bar, tpb_units: i64, min_step: i64) -> (r: i64)
    requires
        bar.wf(),
        TICK_UNIT <= tpb_units <= MAX_TICKS_PER_BEAT * (TICK_UNIT as int),
        0 <= min_step,
    ensures
        r == spec_step_ticks(*bar, tpb_units as int, min_step as int),
        1 <= r,
        r <= tpb_units || r == bar.tick_range.end - bar.tick_range.start,
{
    let bottom4 = bar.time_sig.bottom / 4;
    let subdivs0: i64 = if bottom4 >= 1 {
        bottom4 as i64
    } else {
        1
    };
    let step0 = tpb_units / subdivs0;
    proof {
        lemma_div_is_ordered_by_denominator(tpb_units as int, 1, subdivs0 as int);
    }
    if step0 >= min_step && step0 >= 1 {
        proof {
            let tu = tpb_units as int;
            let sd0 = subdivs0 as int;
            lemma_fundamental_div_mod(tu, sd0);
            lemma_mod_division_less_than_divisor(tu, sd0);
            assert(tu >= sd0) by (nonlinear_arith)
                requires
                    tu == sd0 * (tu / sd0) + tu % sd0,
                    tu / sd0 >= 1,
                    tu % sd0 >= 0,
                    sd0 >= 1,
            ;
        }
        let mut subdivs = subdivs0;
        let mut step = step0;
        while tpb_units / (2 * subdivs) > min_step
            invariant
                1 <= subdivs <= tpb_units,
                TICK_UNIT <= tpb_units <= MAX_TICKS_PER_BEAT * (TICK_UNIT as int),
                0 <= min_step,
                step == tpb_units / subdivs,
                step >= 1,
                step >= min_step,
                spec_refined_step(tpb_units as int, subdivs as int, min_step as int)
                    == spec_refined_step(tpb_units as int, subdivs0 as int, min_step as int),
            decreases tpb_units - subdivs,
        {
            proof {
                let tu = tpb_units as int;
                let sd = subdivs as int;
                lemma_fundamental_div_mod(tu, 2 * sd);
                lemma_mod_division_less_than_divisor(tu, 2 * sd);
                assert(tu >= 2 * sd) by (nonlinear_arith)
                    requires
                        tu == 2 * sd * (tu / (2 * sd)) + tu % (2 * sd),
                        tu / (2 * sd) >= 1,
                        tu % (2 * sd) >= 0,
                        sd >= 1,
                ;
            }
            step = tpb_units / (2 * subdivs);
            subdivs = 2 * subdivs;
        }
        step
    } else {
        proof {
            lemma_div_is_ordered(1, tpb_units as int, subdivs0 as int);
        }
        bar.tick_range.end - bar.tick_range.start
    }
}

/// The subdivision step of the given bar under the generator's
/// parameters: ticks-per-beat, the pixel scale and the minimum gap.
pub open spec fn spec_bar_step(bar: Bar, ticks_per_beat: int, ticks_per_point: int, min_step_gap: int) -> int {
    spec_step_size(
        bar.time_sig,
        bar.tick_range.start as int,
        bar.tick_range.end as int,
        ticks_per_beat * (TICK_UNIT as int),
        ticks_per_point * min_step_gap,
    )
}

/// Whether the bar contributes at least one step inside the visible
/// range.
pub open spec fn spec_has_step(bar: Bar, ticks_per_beat: int, ticks_per_point: int, min_step_gap: int, visible: int) -> bool {
    exists|j: int|
        #[trigger] spec_in_range_index(
            bar.tick_range.start as int,
            bar.tick_range.end as int,
            spec_bar_step(bar, ticks_per_beat, ticks_per_point, min_step_gap),
            visible,
            j,
        )
}

/// Whether `index` names the bar's earliest in-range step: it is in range
/// and nothing below it is.
pub open spec fn spec_first_step_index(bar: Bar, ticks_per_beat: int, ticks_per_point: int, min_step_gap: int, visible: int, index: int) -> bool {
    let start = bar.tick_range.start as int;
    let end = bar.tick_range.end as int;
    let step = spec_bar_step(bar, ticks_per_beat, ticks_per_point, min_step_gap);
    &&& spec_in_range_index(start, end, step, visible, index)
    &&& forall|j: int| 0 <= j < index ==> !spec_in_range_index(start, end, step, visible, j)
}

/// The exact condition under which generating the bar's steps runs past
/// the visible limit (rather than ending at the bar's end): some
/// candidate exceeds the limit while every earlier candidate was still
/// inside the bar.
pub open spec fn spec_passes_visible(bar: Bar, ticks_per_beat: int, ticks_per_point: int, min_step_gap: int, visible: int) -> bool {
    let start = bar.tick_range.start as int;
    let end = bar.tick_range.end as int;
    let step = spec_bar_step(bar, ticks_per_beat, ticks_per_point, min_step_gap);
    exists|j: int|
        0 <= j && start + #[trigger] (j * step) > visible && (j == 0 || start + (j - 1) * step
            < end)
}

/// The buffer `buf` holds, in order, exactly the bar's in-range steps
/// with indices `from_index` upward: consecutive indices, each step at
/// its exact tick and pixel column, and every in-range index at or above
/// `from_index` present.
pub open spec fn spec_buffer_matches(
    buf: Seq<Step>,
    from_index: int,
    bar: Bar,
    ticks_per_beat: int,
    ticks_per_point: int,
    min_step_gap: int,
    visible: int,
) -> bool {
    let start = bar.tick_range.start as int;
    let end = bar.tick_range.end as int;
    let step = spec_bar_step(bar, ticks_per_beat, ticks_per_point, min_step_gap);
    &&& forall|i: int|
        0 <= i < buf.len() ==> (#[trigger] buf[i]).index_in_bar == from_index + i
    &&& forall|i: int|
        0 <= i < buf.len() ==> (#[trigger] buf[i]).ticks == start + buf[i].index_in_bar * step
            && buf[i].x == buf[i].ticks as int / ticks_per_point && spec_in_range_index(
            start,
            end,
            step,
            visible,
            buf[i].index_in_bar as int,
        )
    &&& forall|j: int|
        #[trigger] spec_in_range_index(start, end, step, visible, j) && j >= from_index
            ==> exists|i: int| 0 <= i < buf.len() && buf[i].index_in_bar == j
    &&& !spec_whole_bar_fallback(
        bar.time_sig,
        ticks_per_beat * (TICK_UNIT as int),
        ticks_per_point * min_step_gap,
    ) ==> forall|i: int|
        0 <= i < buf.len() - 1 ==> (#[trigger] buf[i + 1]).x - buf[i].x >= min_step_gap
}

/// Everything [`bar_steps`] guarantees about one bar's steps `steps` and
/// its visible-overrun flag `passed_visible`: each step sits at
/// `start + index * step` with its exact pixel column; indices are
/// consecutive and ticks strictly increase by exactly one step; index zero
/// is emitted exactly when the bar starts inside the viewport, and then
/// first; outside the whole-bar fallback consecutive steps are at least
/// `min_step_gap` points apart; every in-range index is present and
/// nothing else; and the flag holds exactly when a candidate passed the
/// visible limit before the bar's end.
pub open spec fn spec_bar_steps_holds(
    steps: Seq<Step>,
    passed_visible: bool,
    bar: Bar,
    ticks_per_beat: int,
    ticks_per_point: int,
    min_step_gap: int,
    visible: int,
) -> bool {
    let tpb_units = ticks_per_beat * (TICK_UNIT as int);
    let min_step = ticks_per_point * min_step_gap;
    let start = bar.tick_range.start as int;
    let end = bar.tick_range.end as int;
    let step = spec_bar_step(bar, ticks_per_beat, ticks_per_point, min_step_gap);
    &&& 1 <= step
    &&& forall|i: int|
        0 <= i < steps.len() ==> (#[trigger] steps[i]).ticks == start + steps[i].index_in_bar
            * step
    &&& forall|i: int|
        0 <= i < steps.len() ==> 0 <= (#[trigger] steps[i]).ticks && start <= steps[i].ticks
            && steps[i].ticks < end && steps[i].ticks <= visible
    &&& forall|i: int|
        0 <= i < steps.len() ==> (#[trigger] steps[i]).x == steps[i].ticks as int
            / ticks_per_point
    &&& forall|i: int|
        0 <= i < steps.len() ==> (#[trigger] steps[i]).index_in_bar == steps[0].index_in_bar + i
    &&& steps.len() > 0 ==> (steps[0].index_in_bar == 0 <==> start >= 0)
    &&& 0 <= start && start < end && start <= visible ==> steps.len() > 0
        && steps[0].index_in_bar == 0 && steps[0].ticks == start
    &&& forall|i: int|
        0 <= i < steps.len() - 1 ==> (#[trigger] steps[i + 1]).ticks == steps[i].ticks + step
            && steps[i + 1].x >= steps[i].x
    &&& forall|i: int, j: int|
        0 <= i < j < steps.len() ==> (#[trigger] steps[i]).ticks < (#[trigger] steps[j]).ticks
    &&& !spec_whole_bar_fallback(bar.time_sig, tpb_units, min_step) ==> forall|i: int|
        0 <= i < steps.len() - 1 ==> (#[trigger] steps[i + 1]).x - steps[i].x >= min_step_gap
    &&& forall|j: int|
        0 <= j && 0 <= start + #[trigger] (j * step) && start + j * step < end && start + j
            * step <= visible ==> exists|i: int|
            0 <= i < steps.len() && steps[i].index_in_bar == j
    &&& (passed_visible <==> spec_passes_visible(bar, ticks_per_beat, ticks_per_point, min_step_gap, visible))
    &&& !passed_visible ==> end <= visible
}

/// Produces every step of one bar that falls inside the visible range, in
/// order, skipping candidates left of the viewport without terminating.
///
/// Returns the steps together with a flag that is set when generation
/// stopped because a candidate passed the visible limit (rather than the
/// bar's end); when the flag is clear, the whole bar lies inside the
/// visible range and the caller moves on to the next bar.
///
/// The contract carries the generator's guarantees: each step sits at
/// `start + index * step` with its exact pixel column; emitted indices are
/// consecutive; index zero is emitted exactly once, first, and exactly when
/// the bar starts inside the viewport; and outside the whole-bar fallback,
/// consecutive steps are at least `min_step_gap` points apart.
#[verifier::loop_isolation(false)]
pub fn bar_steps(
    bar: &Bar,
    ticks_per_beat: u32,
    ticks_per_point: i64,
    min_step_gap: i64,
    visible: i64,
) -> (r: (Vec<Step>, bool))
    requires
        bar.wf(),
        1 <= ticks_per_beat <= MAX_TICKS_PER_BEAT,
        1 <= ticks_per_point <= MAX_TICKS_PER_POINT,
        0 <= min_step_gap <= MAX_POINTS,
        0 <= visible <= MAX_TICKS_PER_POINT * MAX_POINTS,
    ensures
        spec_bar_steps_holds(
            r.0@,
            r.1,
            *bar,
            ticks_per_beat as int,
            ticks_per_point as int,
            min_step_gap as int,
            visible as int,
        ),
{
    let tpb_units = ticks_per_beat as i64 * TICK_UNIT;
    proof {
        lemma_mul_nonnegative(ticks_per_point as int, min_step_gap as int);
        vstd::arithmetic::mul::lemma_mul_upper_bound(
            ticks_per_point as int,
            MAX_TICKS_PER_POINT as int,
            min_step_gap as int,
            MAX_POINTS as int,
        );
    }
    let min_step = ticks_per_point * min_step_gap;
    let step = compute_step_ticks(bar, tpb_units, min_step);
    let ghost fallback = spec_whole_bar_fallback(bar.time_sig, tpb_units as int, min_step as int);
    proof {
        if !fallback {
            lemma_refined_step_bounds(
                tpb_units as int,
                spec_initial_subdivs(bar.time_sig),
                min_step as int,
            );
            lemma_div_multiples_vanish(min_step_gap as int, ticks_per_point as int);
        }
    }
    let mut out: Vec<Step> = Vec::new();
    let mut k: u64 = 0;
    let mut t: i64 = bar.tick_range.start;
    while t <= visible && t < bar.tick_range.end
        invariant
            t == bar.tick_range.start + k * step,
            k > 0 ==> bar.tick_range.start + (k - 1) * step < bar.tick_range.end,
            k <= t - bar.tick_range.start,
            bar.tick_range.start <= t,
            out@.len() <= k,
            forall|i: int|
                0 <= i < out@.len() ==> (#[trigger] out@[i]).ticks == bar.tick_range.start
                    + out@[i].index_in_bar * step,
            forall|i: int|
                0 <= i < out@.len() ==> 0 <= (#[trigger] out@[i]).ticks && bar.tick_range.start
                    <= out@[i].ticks && out@[i].ticks < bar.tick_range.end && out@[i].ticks
                    <= visible && out@[i].ticks < t,
            forall|i: int|
                0 <= i < out@.len() ==> (#[trigger] out@[i]).x == out@[i].ticks as int
                    / ticks_per_point as int,
            forall|i: int|
                0 <= i < out@.len() ==> (#[trigger] out@[i]).index_in_bar == out@[0].index_in_bar
                    + i,
            out@.len() > 0 ==> out@[out@.len() - 1].index_in_bar == k - 1
                && out@[out@.len() - 1].ticks == t - step,
            out@.len() > 0 ==> (out@[0].index_in_bar == 0 <==> bar.tick_range.start >= 0),
            k > 0 && bar.tick_range.start >= 0 ==> out@.len() > 0,
            !fallback ==> forall|i: int|
                0 <= i < out@.len() - 1 ==> (#[trigger] out@[i + 1]).x - out@[i].x
                    >= min_step_gap,
            forall|i: int|
                0 <= i < out@.len() - 1 ==> (#[trigger] out@[i + 1]).ticks == out@[i].ticks
                    + step && out@[i + 1].x >= out@[i].x,
            forall|i: int, j: int|
                0 <= i < j < out@.len() ==> (#[trigger] out@[i]).ticks < (#[trigger] out@[j]).ticks,
            forall|j: int|
                0 <= j < k && 0 <= bar.tick_range.start + #[trigger] (j * step)
                    && bar.tick_range.start + j * step < bar.tick_range.end
                    && bar.tick_range.start + j * step <= visible ==> exists|i: int|
                    0 <= i < out@.len() && out@[i].index_in_bar == j,
        decreases bar.tick_range.end + step - t,
    {
        let ghost pre = out@;
        let ghost k0 = k as int;
        if t >= 0 {
            proof {
                if out@.len() > 0 {
                    let last = out@[out@.len() - 1];
                    time::lemma_div_add_ge(last.ticks as int, step as int, ticks_per_point as int);
                    lemma_div_is_ordered(0, step as int, ticks_per_point as int);
                    if !fallback {
                        lemma_div_is_ordered(min_step as int, step as int, ticks_per_point as int);
                    }
                }
                lemma_div_is_ordered(0, t as int, ticks_per_point as int);
            }
            let x = t / ticks_per_point;
            out.push(Step { index_in_bar: k, ticks: t, x });
            proof {
                assert forall|i: int, j: int| 0 <= i < j < out@.len() implies (out@[i]).ticks < (
                out@[j]).ticks by {
                    if j < out@.len() - 1 {
                        assert(out@[i] == pre[i] && out@[j] == pre[j]);
                    } else {
                        assert(out@[i] == pre[i]);
                        assert(pre[i].ticks < t);
                    }
                }
            }
        }
        proof {
            assert(k as int <= k as int * step as int) by (nonlinear_arith)
                requires
                    step >= 1,
                    k >= 0,
            ;
            assert((k + 1) as int * step as int == k as int * step as int + step as int)
                by (nonlinear_arith);
        }
        k = k + 1;
        t = t + step;
        proof {
            let start = bar.tick_range.start as int;
            assert forall|j: int|
                0 <= j < k && 0 <= start + #[trigger] (j * step) && start + j * step
                    < bar.tick_range.end && start + j * step <= visible implies exists|i: int|
                0 <= i < out@.len() && out@[i].index_in_bar == j by {
                if j < k0 {
                    let w = choose|i: int| 0 <= i < pre.len() && pre[i].index_in_bar == j;
                    assert(out@[w].index_in_bar == j);
                } else {
                    assert(j == k0);
                    assert(start + k0 * step >= 0);
                    assert(out@[out@.len() - 1].index_in_bar == k0);
                }
            }
        }
    }
    proof {
        let start = bar.tick_range.start as int;
        let spec_step = spec_bar_step(
            *bar,
            ticks_per_beat as int,
            ticks_per_point as int,
            min_step_gap as int,
        );
        assert(spec_step == step);
        assert forall|j: int|
            0 <= j && 0 <= start + #[trigger] (j * spec_step) && start + j * spec_step
                < bar.tick_range.end && start + j * spec_step <= visible implies exists|i: int|
            0 <= i < out@.len() && out@[i].index_in_bar == j by {
            assert(j * spec_step == j * step) by (nonlinear_arith)
                requires
                    spec_step == step,
            ;
            if j >= k {
                lemma_mul_inequality(k as int, j, step as int);
            }
        }
    }
    proof {
        let start = bar.tick_range.start as int;
        let end = bar.tick_range.end as int;
        let spec_step = spec_bar_step(
            *bar,
            ticks_per_beat as int,
            ticks_per_point as int,
            min_step_gap as int,
        );
        assert(spec_step == step);
        if t <= visible {
            assert forall|j: int|
                !(0 <= j && start + #[trigger] (j * spec_step) > visible && (j == 0 || start + (j
                    - 1) * spec_step < end)) by {
                assert(j * spec_step == j * step) by (nonlinear_arith)
                    requires
                        spec_step == step,
                ;
                assert((j - 1) * spec_step == (j - 1) * step) by (nonlinear_arith)
                    requires
                        spec_step == step,
                ;
                if 0 <= j && start + j * step > visible {
                    if j <= k {
                        lemma_mul_inequality(j, k as int, step as int);
                    }
                    assert(j > k);
                    lemma_mul_inequality(k as int, j - 1, step as int);
                }
            }
        } else {
            assert(k as int * spec_step == k as int * step) by (nonlinear_arith)
                requires
                    spec_step == step,
            ;
            assert((k as int - 1) * spec_step == (k as int - 1) * step) by (nonlinear_arith)
                requires
                    spec_step == step,
            ;
            assert(0 <= k as int && start + k as int * spec_step > visible && (k as int == 0
                || start + (k as int - 1) * spec_step < end));
        }
    }
    let hit_visible = t > visible;
    (out, hit_visible)
}

/// A lazy, restartable stream of the subdivision steps covering the
/// visible tick range, bar by bar.
#[derive(Clone)]
pub struct Steps {
    ticks_per_beat: u32,
    ticks_per_point: i64,
    visible_ticks: i64,
    min_step_gap: i64,
    bar: Bar,
    pending: Vec<Step>,
    next_index: usize,
    hit_visible: bool,
    done: bool,
    last_tick: Ghost<Option<i64>>,
}

impl Steps {
    /// The stream's internal consistency: cached parameters in range, the
    /// current bar well formed, and every not-yet-delivered step inside the
    /// visible range with its exact pixel column.
    pub closed spec fn wf(&self) -> bool {
        &&& 1 <= self.ticks_per_beat <= MAX_TICKS_PER_BEAT
        &&& 1 <= self.ticks_per_point <= MAX_TICKS_PER_POINT
        &&& 0 <= self.visible_ticks <= MAX_TICKS_PER_POINT * MAX_POINTS
        &&& 0 <= self.min_step_gap <= MAX_POINTS
        &&& self.bar.wf()
        &&& self.next_index <= self.pending@.len()
        &&& forall|i: int|
            self.next_index <= i < self.pending@.len() ==> 0 <= (#[trigger] self.pending@[i]).ticks
                <= self.visible_ticks && self.pending@[i].x == self.pending@[i].ticks as int
                / self.ticks_per_point as int && self.pending@[i].ticks
                < self.bar.tick_range.end
        &&& forall|i: int, j: int|
            self.next_index <= i < j < self.pending@.len() ==> (#[trigger] self.pending@[i]).ticks
                < (#[trigger] self.pending@[j]).ticks
        &&& match self.last_tick@ {
            Some(t) => t < self.bar.tick_range.end && forall|i: int|
                self.next_index <= i < self.pending@.len() ==> (#[trigger] self.pending@[i]).ticks
                    > t,
            None => true,
        }
    }

    /// The tick position of the most recently produced step, if any.
    pub closed spec fn spec_last(&self) -> Option<int> {
        match self.last_tick@ {
            Some(t) => Some(t as int),
            None => None,
        }
    }

    /// The number of tick units visible to this stream.
    pub closed spec fn spec_visible(&self) -> int {
        self.visible_ticks as int
    }

    /// The pixel-to-tick scale this stream converts with.
    pub closed spec fn spec_scale(&self) -> int {
        self.ticks_per_point as int
    }

    /// The ticks-per-beat value cached from the host.
    pub closed spec fn spec_ticks_per_beat(&self) -> int {
        self.ticks_per_beat as int
    }

    /// The minimum step gap, in points, this stream enforces.
    pub closed spec fn spec_min_gap(&self) -> int {
        self.min_step_gap as int
    }

    /// The steps of the current bar that are computed but not yet
    /// delivered, in delivery order.
    pub closed spec fn spec_buffered(&self) -> Seq<Step> {
        self.pending@.skip(self.next_index as int)
    }

    /// Whether the stream has ended: once true, no step is ever produced
    /// again.
    pub closed spec fn spec_exhausted(&self) -> bool {
        self.done
    }

    /// Whether the current bar's generation stopped because a candidate
    /// passed the visible limit (rather than the bar's end); the stream
    /// then ends when the buffer empties, asking the host for no further
    /// bar.
    pub closed spec fn spec_passed_visible(&self) -> bool {
        self.hit_visible
    }

    /// The bar the stream is currently drawing from.
    pub closed spec fn spec_bar(&self) -> Bar {
        self.bar
    }
    /// Creates a stream of the steps spanning `visible_len` points,
    /// keeping marks at least `min_step_gap` points apart.  The stream
    /// starts on the host's bar at tick zero; its buffer holds exactly
    /// that bar's in-range steps, beginning with the earliest one.
    pub fn new<M: MusicalInfo>(api: &M, visible_len: i64, min_step_gap: i64) -> (r: Steps)
        requires
            api.inv(),
            0 <= visible_len <= MAX_POINTS,
            0 <= min_step_gap <= MAX_POINTS,
        ensures
            r.wf(),
            r.spec_visible() == api.spec_ticks_per_point() * visible_len,
            r.spec_scale() == api.spec_ticks_per_point(),
            r.spec_ticks_per_beat() == api.spec_ticks_per_beat(),
            r.spec_min_gap() == min_step_gap,
            r.spec_last() is None,
            !r.spec_exhausted(),
            r.spec_bar().tick_range.start == api.spec_bar_start(0),
            r.spec_bar().tick_range.end == api.spec_bar_end(0),
            r.spec_bar().time_sig == api.spec_bar_sig(0),
            ({
                let tpb = api.spec_ticks_per_beat();
                let scale = api.spec_ticks_per_point();
                let visible = api.spec_ticks_per_point() * visible_len;
                let buf = r.spec_buffered();
                &&& (buf.len() > 0 <==> spec_has_step(r.spec_bar(), tpb, scale, min_step_gap as int, visible))
                &&& buf.len() > 0 ==> spec_first_step_index(
                    r.spec_bar(),
                    tpb,
                    scale,
                    min_step_gap as int,
                    visible,
                    buf[0].index_in_bar as int,
                ) && spec_buffer_matches(
                    buf,
                    buf[0].index_in_bar as int,
                    r.spec_bar(),
                    tpb,
                    scale,
                    min_step_gap as int,
                    visible,
                )
                &&& (r.spec_passed_visible() <==> spec_passes_visible(
                    r.spec_bar(),
                    tpb,
                    scale,
                    min_step_gap as int,
                    visible,
                ))
            }),
    {
        let ticks_per_beat = api.ticks_per_beat();
        let ticks_per_point = api.ticks_per_point();
        let visible_ticks = time::visible_ticks(ticks_per_point, visible_len);
        let bar = api.bar_at_ticks(0);
        let (pending, hit_visible) = bar_steps(
            &bar,
            ticks_per_beat,
            ticks_per_point,
            min_step_gap,
            visible_ticks,
        );
        let r = Steps {
            ticks_per_beat,
            ticks_per_point,
            visible_ticks,
            min_step_gap,
            bar,
            pending,
            next_index: 0,
            hit_visible,
            done: false,
            last_tick: Ghost(None),
        };
        proof {
            assert(r.spec_buffered() =~= r.pending@);
            lemma_fresh_bar_buffer(
                r.pending@,
                r.hit_visible,
                r.bar,
                r.ticks_per_beat as int,
                r.ticks_per_point as int,
                r.min_step_gap as int,
                r.visible_ticks as int,
            );
        }
        r
    }

    /// Produces the next step, and `None` exactly when the stream is
    /// exhausted.
    ///
    /// Steps still buffered from the current bar are delivered first, in
    /// order.  When the buffer empties, the next bar is requested from the
    /// host at the previous bar's end plus half a tick, and its earliest
    /// in-range step is delivered.  The stream ends — instead of asking
    /// for further bars — when the current bar already passed the visible
    /// limit, when the host's reported bar fails to advance (for example a
    /// host clamped at its final bar, which would otherwise repeat
    /// forever), when the reported bar contributes no step inside the
    /// visible range, or at the machine bound on tick positions.
    #[verifier::rlimit(50)]
    pub fn next<M: MusicalInfo>(&mut self, api: &M) -> (r: Option<Step>)
        requires
            old(self).wf(),
            api.inv(),
        ensures
            final(self).wf(),
            final(self).spec_visible() == old(self).spec_visible(),
            final(self).spec_scale() == old(self).spec_scale(),
            final(self).spec_ticks_per_beat() == old(self).spec_ticks_per_beat(),
            final(self).spec_min_gap() == old(self).spec_min_gap(),
            (r is Some <==> !final(self).spec_exhausted()),
            r matches Some(s) ==> 0 <= s.ticks <= old(self).spec_visible() && s.x == s.ticks as int
                / old(self).spec_scale(),
            r matches Some(s) ==> (match old(self).spec_last() {
                Some(t) => s.ticks > t,
                None => true,
            }) && final(self).spec_last() == Some(s.ticks as int),
            r is None ==> final(self).spec_last() == old(self).spec_last(),
            old(self).spec_exhausted() ==> r is None && final(self).spec_buffered() == old(
                self,
            ).spec_buffered() && final(self).spec_bar() == old(self).spec_bar(),
            !old(self).spec_exhausted() && old(self).spec_buffered().len() > 0 ==> {
                &&& r == Some(old(self).spec_buffered()[0])
                &&& final(self).spec_buffered() == old(self).spec_buffered().skip(1)
                &&& final(self).spec_bar() == old(self).spec_bar()
                &&& final(self).spec_passed_visible() == old(self).spec_passed_visible()
            },
            !old(self).spec_exhausted() && old(self).spec_buffered().len() == 0 ==> ({
                let previous_end = old(self).spec_bar().tick_range.end as int;
                let query = previous_end + TICK_UNIT / 2;
                let tpb = old(self).spec_ticks_per_beat();
                let scale = old(self).spec_scale();
                let gap = old(self).spec_min_gap();
                let visible = old(self).spec_visible();
                if old(self).spec_passed_visible() || previous_end > MAX_TICK_UNITS - TICK_UNIT {
                    r is None
                } else if api.spec_bar_start(query) < previous_end {
                    r is None
                } else {
                    &&& final(self).spec_bar().tick_range.start == api.spec_bar_start(query)
                    &&& final(self).spec_bar().tick_range.end == api.spec_bar_end(query)
                    &&& final(self).spec_bar().time_sig == api.spec_bar_sig(query)
                    &&& (r is Some <==> spec_has_step(final(self).spec_bar(), tpb, scale, gap, visible))
                    &&& (r matches Some(s) ==> {
                        &&& s.ticks == final(self).spec_bar().tick_range.start + s.index_in_bar
                            * spec_bar_step(final(self).spec_bar(), tpb, scale, gap)
                        &&& spec_first_step_index(
                            final(self).spec_bar(),
                            tpb,
                            scale,
                            gap,
                            visible,
                            s.index_in_bar as int,
                        )
                        &&& spec_buffer_matches(
                            final(self).spec_buffered(),
                            s.index_in_bar as int + 1,
                            final(self).spec_bar(),
                            tpb,
                            scale,
                            gap,
                            visible,
                        )
                        &&& (final(self).spec_passed_visible() <==> spec_passes_visible(
                            final(self).spec_bar(),
                            tpb,
                            scale,
                            gap,
                            visible,
                        ))
                    })
                }
            }),
    {
        if self.done {
            return None;
        }
        let ghost fetched = self.next_index >= self.pending.len();
        if self.next_index >= self.pending.len() {
            if self.hit_visible || self.bar.tick_range.end > MAX_TICK_UNITS - TICK_UNIT {
                self.done = true;
                return None;
            }
            let next_bar = api.bar_at_ticks(self.bar.tick_range.end + TICK_UNIT / 2);
            if next_bar.tick_range.start < self.bar.tick_range.end {
                self.done = true;
                return None;
            }
            let (pending, hit_visible) = bar_steps(
                &next_bar,
                self.ticks_per_beat,
                self.ticks_per_point,
                self.min_step_gap,
                self.visible_ticks,
            );
            self.bar = next_bar;
            self.pending = pending;
            self.next_index = 0;
            self.hit_visible = hit_visible;
            proof {
                lemma_fresh_bar_buffer(
                    self.pending@,
                    self.hit_visible,
                    self.bar,
                    self.ticks_per_beat as int,
                    self.ticks_per_point as int,
                    self.min_step_gap as int,
                    self.visible_ticks as int,
                );
            }
            if self.pending.len() == 0 {
                self.done = true;
                return None;
            }
        }
        let ghost pre = *self;
        let s = self.pending[self.next_index];
        self.next_index = self.next_index + 1;
        self.last_tick = Ghost(Some(s.ticks));
        proof {
            assert(pre.spec_buffered()[0] == s);
            assert(self.spec_buffered() =~= pre.spec_buffered().skip(1));
            if !fetched {
                assert(self.spec_buffered() =~= old(self).spec_buffered().skip(1));
            } else {
                assert(pre.spec_buffered() =~= pre.pending@);
                lemma_buffer_matches_skip(
                    pre.pending@,
                    pre.pending@[0].index_in_bar as int,
                    pre.bar,
                    pre.ticks_per_beat as int,
                    pre.ticks_per_point as int,
                    pre.min_step_gap as int,
                    pre.visible_ticks as int,
                );
            }
        }
        Some(s)
    }
}

/// What one bar's freshly generated steps mean as a stream buffer: the
/// buffer is non-empty exactly when the bar has an in-range step, its
/// first element is the bar's earliest in-range step, and it matches the
/// bar from that index upward.
proof fn lemma_fresh_bar_buffer(
    steps: Seq<Step>,
    passed_visible: bool,
    bar: Bar,
    ticks_per_beat: int,
    ticks_per_point: int,
    min_step_gap: int,
    visible: int,
)
    requires
        spec_bar_steps_holds(
            steps,
            passed_visible,
            bar,
            ticks_per_beat,
            ticks_per_point,
            min_step_gap,
            visible,
        ),
    ensures
        (steps.len() > 0 <==> spec_has_step(bar, ticks_per_beat, ticks_per_point, min_step_gap, visible)),
        steps.len() > 0 ==> spec_first_step_index(
            bar,
            ticks_per_beat,
            ticks_per_point,
            min_step_gap,
            visible,
            steps[0].index_in_bar as int,
        ) && spec_buffer_matches(
            steps,
            steps[0].index_in_bar as int,
            bar,
            ticks_per_beat,
            ticks_per_point,
            min_step_gap,
            visible,
        ),
{
    let start = bar.tick_range.start as int;
    let end = bar.tick_range.end as int;
    let step = spec_bar_step(bar, ticks_per_beat, ticks_per_point, min_step_gap);
    if steps.len() > 0 {
        assert(steps[0].ticks == start + steps[0].index_in_bar * step);
        assert(spec_in_range_index(start, end, step, visible, steps[0].index_in_bar as int));
        assert forall|j: int| 0 <= j < steps[0].index_in_bar implies !spec_in_range_index(
            start,
            end,
            step,
            visible,
            j,
        ) by {
            if spec_in_range_index(start, end, step, visible, j) {
                let w = choose|i: int| 0 <= i < steps.len() && steps[i].index_in_bar == j;
                assert(steps[w].index_in_bar == steps[0].index_in_bar + w);
            }
        }
    }
}

/// Dropping the delivered head of a matching buffer leaves a buffer that
/// matches the bar from the next index.
proof fn lemma_buffer_matches_skip(
    buf: Seq<Step>,
    from_index: int,
    bar: Bar,
    ticks_per_beat: int,
    ticks_per_point: int,
    min_step_gap: int,
    visible: int,
)
    requires
        spec_buffer_matches(buf, from_index, bar, ticks_per_beat, ticks_per_point, min_step_gap, visible),
        buf.len() > 0,
    ensures
        spec_buffer_matches(
            buf.skip(1),
            from_index + 1,
            bar,
            ticks_per_beat,
            ticks_per_point,
            min_step_gap,
            visible,
        ),
{
    let start = bar.tick_range.start as int;
    let end = bar.tick_range.end as int;
    let step = spec_bar_step(bar, ticks_per_beat, ticks_per_point, min_step_gap);
    let rest = buf.skip(1);
    assert forall|i: int| 0 <= i < rest.len() implies (#[trigger] rest[i]).index_in_bar
        == from_index + 1 + i by {
        assert(rest[i] == buf[i + 1]);
    }
    assert forall|i: int| 0 <= i < rest.len() implies (#[trigger] rest[i]).ticks == start
        + rest[i].index_in_bar * step && rest[i].x == rest[i].ticks as int / ticks_per_point
        && spec_in_range_index(start, end, step, visible, rest[i].index_in_bar as int) by {
        assert(rest[i] == buf[i + 1]);
    }
    assert forall|j: int|
        #[trigger] spec_in_range_index(start, end, step, visible, j) && j >= from_index + 1
            implies exists|i: int| 0 <= i < rest.len() && rest[i].index_in_bar == j by {
        let w = choose|i: int| 0 <= i < buf.len() && buf[i].index_in_bar == j;
        assert(buf[w].index_in_bar == from_index + w);
        assert(w >= 1);
        assert(rest[w - 1] == buf[w]);
    }
    assert forall|i: int| 0 <= i < rest.len() - 1 implies (#[trigger] rest[i + 1]).x - rest[i].x
        >= min_step_gap || spec_whole_bar_fallback(
        bar.time_sig,
        ticks_per_beat * (TICK_UNIT as int),
        ticks_per_point * min_step_gap,
    ) by {
        assert(rest[i] == buf[i + 1]);
        assert(rest[i + 1] == buf[i + 2]);
    }
}

} // verus!
