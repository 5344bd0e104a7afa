//! The playhead controller: click-to-set position bookkeeping and
//! wall-clock-driven playback advancement.
//!
//! Playback is epoch based: when a run starts (or the playhead is dragged
//! mid-run), the current position is captured as the epoch and every frame
//! recomputes the position from the epoch and the elapsed time, so per-frame
//! updates accumulate no drift.  The host keeps the epoch's wall-clock base
//! and hands in the elapsed milliseconds.

use vstd::prelude::*;

use crate::types::{MAX_TICKS_PER_BEAT, MAX_TICK_UNITS};

verus! {

/// Longest supported elapsed time for a single playback epoch, in
/// milliseconds.  The bound keeps the advancement product inside `i64`; the
/// host clamps longer runs (several hours) before handing them in.
pub const MAX_ELAPSED_MS: u64 = 10_000_000;

/// The playhead's position and playback bookkeeping.
#[derive(Clone, Copy, Debug, PartialEq, Eq, Structural)]
pub struct PlayheadState {
    /// The playhead's absolute tick position, in tick units.  Never
    /// negative.
    pub position: i64,
    /// The largest position playback may reach (the end of the final bar);
    /// reaching it stops playback.
    pub max_position: i64,
    /// Whether playback is running.
    pub playing: bool,
    /// The absolute position at which the current playback epoch began.
    pub epoch_position: i64,
    /// Whether the current epoch has captured its base position yet.  The
    /// host resets its wall-clock base whenever this is false.
    pub epoch_started: bool,
}

/// The absolute position reached `elapsed_ms` milliseconds into a playback
/// epoch that began at `epoch_position`: one bar of four beats per second,
/// clamped at `max_position`.
pub open spec fn spec_playback_position(
    epoch_position: int,
    elapsed_ms: int,
    ticks_per_beat: int,
    max_position: int,
) -> int {
    if epoch_position + elapsed_ms * ticks_per_beat * 4 >= max_position {
        max_position
    } else {
        epoch_position + elapsed_ms * ticks_per_beat * 4
    }
}

impl PlayheadState {
    /// Positions stay non-negative and inside the machine tick bound.
    pub open spec fn wf(self) -> bool {
        &&& 0 <= self.position <= MAX_TICK_UNITS
        &&& 0 <= self.max_position <= MAX_TICK_UNITS
        &&& 0 <= self.epoch_position <= MAX_TICK_UNITS
    }

    /// A stopped playhead at the origin.
    pub fn new(max_position: i64) -> (r: PlayheadState)
        requires
            0 <= max_position <= MAX_TICK_UNITS,
        ensures
            r.wf(),
            r.position == 0,
            r.max_position == max_position,
            !r.playing,
            !r.epoch_started,
    {
        PlayheadState {
            position: 0,
            max_position,
            playing: false,
            epoch_position: 0,
            epoch_started: false,
        }
    }

    /// The playhead position relative to the current scroll offset, for
    /// rendering.  Negative when the playhead lies left of the viewport.
    pub fn playhead_ticks(&self, timeline_start: i64) -> (r: i64)
        requires
            self.wf(),
            0 <= timeline_start <= MAX_TICK_UNITS,
        ensures
            r == self.position - timeline_start,
    {
        self.position - timeline_start
    }

    /// Sets the playhead from a click or drag at the given tick offset
    /// relative to the viewport: the absolute target is
    /// `timeline_start + relative`, clamped to stay non-negative.
    ///
    /// When playback is running, the epoch is rebased to the new position so
    /// that motion continues smoothly from there instead of jumping back.
    pub fn set_playhead_ticks(&mut self, timeline_start: i64, relative: i64)
        requires
            old(self).wf(),
            0 <= timeline_start <= MAX_TICK_UNITS,
            -MAX_TICK_UNITS <= relative <= MAX_TICK_UNITS,
            timeline_start + relative <= MAX_TICK_UNITS,
        ensures
            final(self).wf(),
            final(self).position == if timeline_start + relative >= 0 {
                timeline_start + relative
            } else {
                0
            },
            final(self).max_position == old(self).max_position,
            final(self).playing == old(self).playing,
            old(self).playing ==> final(self).epoch_position == final(self).position
                && !final(self).epoch_started,
            !old(self).playing ==> final(self).epoch_position == old(self).epoch_position
                && final(self).epoch_started == old(self).epoch_started,
    {
        let target = timeline_start + relative;
        let new_position = if target >= 0 {
            target
        } else {
            0
        };
        self.position = new_position;
        if self.playing {
            self.epoch_position = new_position;
            self.epoch_started = false;
        }
    }

    /// Starts playback.  The epoch base is captured on the next frame
    /// update.
    pub fn start_playback(&mut self)
        requires
            old(self).wf(),
        ensures
            final(self).wf(),
            *final(self) == (PlayheadState { playing: true, ..*old(self) }),
    {
        self.playing = true;
    }

    /// Stops playback and discards the epoch, so a later run re-bases.
    pub fn stop_playback(&mut self)
        requires
            old(self).wf(),
        ensures
            final(self).wf(),
            *final(self) == (PlayheadState { playing: false, epoch_started: false, ..*old(self) }),
    {
        self.playing = false;
        self.epoch_started = false;
    }

    /// Advances the playhead for one frame of playback.
    ///
    /// While stopped, this only discards any stale epoch.  On the first
    /// frame of an epoch it captures the current position as the base.  On
    /// later frames the position is recomputed from the epoch and the
    /// elapsed wall-clock time — a bar of four beats per second — and
    /// playback stops automatically exactly when the maximum is reached.
    pub fn advance_playback(&mut self, elapsed_ms: u64, ticks_per_beat: u32)
        requires
            old(self).wf(),
            elapsed_ms <= MAX_ELAPSED_MS,
            1 <= ticks_per_beat <= MAX_TICKS_PER_BEAT,
        ensures
            final(self).wf(),
            final(self).max_position == old(self).max_position,
            !old(self).playing ==> *final(self) == (PlayheadState {
                epoch_started: false,
                ..*old(self)
            }),
            old(self).playing && !old(self).epoch_started ==> *final(self) == (PlayheadState {
                epoch_started: true,
                epoch_position: old(self).position,
                ..*old(self)
            }),
            old(self).playing && old(self).epoch_started ==> {
                &&& final(self).position == spec_playback_position(
                    old(self).epoch_position as int,
                    elapsed_ms as int,
                    ticks_per_beat as int,
                    old(self).max_position as int,
                )
                &&& (final(self).playing <==> old(self).epoch_position
                    + elapsed_ms * ticks_per_beat * 4 < old(self).max_position)
                &&& final(self).epoch_position == old(self).epoch_position
                &&& final(self).epoch_started == final(self).playing
            },
    {
        if !self.playing {
            self.epoch_started = false;
        } else if !self.epoch_started {
            self.epoch_started = true;
            self.epoch_position = self.position;
        } else {
            proof {
                vstd::arithmetic::mul::lemma_mul_upper_bound(
                    elapsed_ms as int,
                    MAX_ELAPSED_MS as int,
                    ticks_per_beat as int * 4,
                    MAX_TICKS_PER_BEAT as int * 4,
                );
                vstd::arithmetic::mul::lemma_mul_nonnegative(
                    elapsed_ms as int,
                    ticks_per_beat as int * 4,
                );
                vstd::arithmetic::mul::lemma_mul_is_associative(
                    elapsed_ms as int,
                    ticks_per_beat as int,
                    4,
                );
            }
            let advance = elapsed_ms as i64 * (ticks_per_beat as i64 * 4);
            let target = self.epoch_position + advance;
            if target >= self.max_position {
                self.position = self.max_position;
                self.playing = false;
                self.epoch_started = false;
            } else {
                self.position = target;
            }
        }
    }
}

/// The playhead position rendered as clock time: whole minutes, seconds
/// within the minute, and centiseconds within the second.  One bar (four
/// beats) lasts one second, so the conversion runs through the total
/// elapsed centiseconds `position / (ticks_per_beat * 40)`.
pub fn clock_display(position: i64, ticks_per_beat: u32) -> (r: (u32, u32, u32))
    requires
        1 <= ticks_per_beat <= MAX_TICKS_PER_BEAT,
        0 <= position <= 100_000 * (ticks_per_beat as int) * 4000,
    ensures
        ({
            let centis = position as int / (ticks_per_beat * 40);
            &&& r.0 == centis / 6000
            &&& r.1 == (centis / 100) % 60
            &&& r.2 == centis % 100
            &&& r.1 < 60
            &&& r.2 < 100
        }),
{
    proof {
        let p = position as int;
        let d = ticks_per_beat as int * 40;
        vstd::arithmetic::div_mod::lemma_div_is_ordered(0, p, d);
        vstd::arithmetic::div_mod::lemma_div_is_ordered(
            p,
            100_000 * (ticks_per_beat as int) * 4000,
            d,
        );
        assert(100_000 * (ticks_per_beat as int) * 4000 == (ticks_per_beat as int * 40)
            * 10_000_000) by (nonlinear_arith);
        vstd::arithmetic::div_mod::lemma_div_multiples_vanish(10_000_000, d);
        vstd::arithmetic::div_mod::lemma_mod_division_less_than_divisor(p / d, 100);
        vstd::arithmetic::div_mod::lemma_mod_division_less_than_divisor(p / d / 100, 60);
        vstd::arithmetic::div_mod::lemma_div_is_ordered(0, p / d, 6000);
        vstd::arithmetic::div_mod::lemma_div_nonincreasing(p / d, 6000);
        vstd::arithmetic::div_mod::lemma_div_pos_is_pos(p / d, 100);
        vstd::arithmetic::div_mod::lemma_div_pos_is_pos(p, d);
    }
    let centis = position / (ticks_per_beat as i64 * 40);
    let minutes = (centis / 6000) as u32;
    let seconds = ((centis / 100) % 60) as u32;
    let centiseconds = (centis % 100) as u32;
    (minutes, seconds, centiseconds)
}

/// Playback is exact: starting an epoch at some position and advancing the
/// wall clock by a number of milliseconds lands precisely that many
/// milliseconds' worth of ticks later — four beats per second — until the
/// maximum is reached, where the position pins to the maximum exactly (and
/// [`PlayheadState::advance_playback`] stops playback).
pub proof fn lemma_playback_position_exact(
    epoch_position: int,
    elapsed_ms: int,
    ticks_per_beat: int,
    max_position: int,
)
    ensures
        epoch_position + elapsed_ms * ticks_per_beat * 4 < max_position
            ==> spec_playback_position(epoch_position, elapsed_ms, ticks_per_beat, max_position)
            == epoch_position + elapsed_ms * ticks_per_beat * 4,
        epoch_position + elapsed_ms * ticks_per_beat * 4 >= max_position
            ==> spec_playback_position(epoch_position, elapsed_ms, ticks_per_beat, max_position)
            == max_position,
{
}

/// Playback never moves backwards within an epoch: a later elapsed time
/// never yields an earlier position.  Together with the frame update being
/// a pure function of the epoch and the elapsed time, per-frame updates
/// accumulate no drift.
pub proof fn lemma_playback_monotone(
    epoch_position: int,
    elapsed1: int,
    elapsed2: int,
    ticks_per_beat: int,
    max_position: int,
)
    requires
        0 <= elapsed1 <= elapsed2,
        1 <= ticks_per_beat,
        0 <= epoch_position,
    ensures
        spec_playback_position(epoch_position, elapsed1, ticks_per_beat, max_position)
            <= spec_playback_position(epoch_position, elapsed2, ticks_per_beat, max_position),
{
    vstd::arithmetic::mul::lemma_mul_inequality(elapsed1, elapsed2, ticks_per_beat * 4);
    vstd::arithmetic::mul::lemma_mul_is_commutative(elapsed1, ticks_per_beat * 4);
    vstd::arithmetic::mul::lemma_mul_is_commutative(elapsed2, ticks_per_beat * 4);
    vstd::arithmetic::mul::lemma_mul_is_associative(elapsed1, ticks_per_beat, 4);
    vstd::arithmetic::mul::lemma_mul_is_associative(elapsed2, ticks_per_beat, 4);
}

} // verus!
