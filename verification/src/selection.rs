//! The per-track selection and drag state machine.
//!
//! At most one selection exists system-wide: starting a drag or committing a
//! selection on any track first clears every other selection, and a released
//! drag shorter than one tick counts as a plain click that clears instead of
//! selecting.  All selection ticks are absolute (independent of scrolling);
//! conversion from pointer pixels always uses the full timeline width, so
//! horizontal positions agree across tracks, while vertical containment uses
//! the individual track's rectangle.

use vstd::prelude::*;

use crate::playhead::PlayheadState;
use crate::time;
use crate::types::{
    MAX_POINTS, MAX_TICKS_PER_POINT, MAX_TICK_UNITS, MAX_TIMELINE_START, Rect, TICK_UNIT,
};

verus! {

use vstd::string::StringExecFns;

/// A pointer position, in points.
#[derive(Clone, Copy, Debug, PartialEq, Eq, Structural)]
pub struct PointerPos {
    pub x: i64,
    pub y: i64,
}

/// One frame's worth of primary/secondary pointer-button state for the
/// interaction pass.
#[derive(Clone, Copy, Debug, PartialEq, Eq, Structural)]
pub struct TrackFrameInput {
    /// The primary button went down this frame.
    pub pressed: bool,
    /// The primary button went up this frame.
    pub released: bool,
    /// The primary button is held down.
    pub down: bool,
    /// The secondary button went down this frame.
    pub secondary_pressed: bool,
    /// Where the pointer is, if the host knows.
    pub pointer: Option<PointerPos>,
}

impl TrackFrameInput {
    /// Pointer coordinates stay within the supported pixel magnitude.
    pub open spec fn wf(self) -> bool {
        match self.pointer {
            Some(p) => -MAX_POINTS <= p.x <= MAX_POINTS && -MAX_POINTS <= p.y <= MAX_POINTS,
            None => true,
        }
    }
}

/// The per-frame geometry and viewport figures a track's interaction pass
/// works against.
#[derive(Clone, Copy, Debug, PartialEq, Eq, Structural)]
pub struct TrackHitContext {
    /// This track's own content rectangle (vertical containment).
    pub track_rect: Rect,
    /// The full timeline content rectangle shared by all tracks
    /// (horizontal tick conversion).
    pub timeline_rect: Rect,
    /// The scroll offset, in tick units.
    pub timeline_start: i64,
    /// The pixel-to-tick scale, in tick units per point.
    pub ticks_per_point: i64,
    /// The number of tick units visible across the timeline width.
    pub visible_ticks: i64,
}

impl TrackHitContext {
    pub open spec fn wf(self) -> bool {
        &&& self.track_rect.wf()
        &&& self.timeline_rect.wf()
        &&& 0 <= self.timeline_start <= MAX_TIMELINE_START
        &&& 1 <= self.ticks_per_point <= MAX_TICKS_PER_POINT
        &&& 0 <= self.visible_ticks <= MAX_TICKS_PER_POINT * MAX_POINTS
    }
}

/// A drag in progress on one track, in absolute ticks.
#[derive(Clone, Debug)]
pub struct DragState {
    pub track_id: String,
    pub start_tick: i64,
}

/// A live or committed selection on one track, in absolute ticks.
#[derive(Clone, Debug)]
pub struct Selection {
    pub track_id: String,
    pub start_tick: i64,
    pub end_tick: i64,
}

/// The global interaction state: at most one drag and at most one selection
/// exist at any time, by construction.
#[derive(Clone, Debug)]
pub struct SelectionState {
    pub drag: Option<DragState>,
    pub selection: Option<Selection>,
}

/// The mathematical value of a drag: the track it belongs to and its
/// absolute start tick.
pub struct DragModel {
    pub track: Seq<char>,
    pub start: int,
}

/// The mathematical value of a selection: its track and its ordered
/// absolute tick range.
pub struct SelectionModel {
    pub track: Seq<char>,
    pub start: int,
    pub end: int,
}

/// The mathematical value of the interaction state.
pub struct SelectionStateModel {
    pub drag: Option<DragModel>,
    pub selection: Option<SelectionModel>,
}

impl View for DragState {
    type V = DragModel;

    open spec fn view(&self) -> DragModel {
        DragModel { track: self.track_id@, start: self.start_tick as int }
    }
}

impl View for Selection {
    type V = SelectionModel;

    open spec fn view(&self) -> SelectionModel {
        SelectionModel {
            track: self.track_id@,
            start: self.start_tick as int,
            end: self.end_tick as int,
        }
    }
}

impl View for SelectionState {
    type V = SelectionStateModel;

    open spec fn view(&self) -> SelectionStateModel {
        SelectionStateModel {
            drag: match self.drag {
                Some(d) => Some(d@),
                None => None,
            },
            selection: match self.selection {
                Some(s) => Some(s@),
                None => None,
            },
        }
    }
}

impl SelectionStateModel {
    /// Selections are ordered (`start <= end`) and every stored tick is a
    /// valid non-negative absolute position.
    pub open spec fn wf(self) -> bool {
        &&& match self.drag {
            Some(d) => 0 <= d.start <= MAX_TICK_UNITS,
            None => true,
        }
        &&& match self.selection {
            Some(s) => 0 <= s.start <= s.end <= MAX_TICK_UNITS,
            None => true,
        }
    }
}

/// Clamps a tick offset into `[0, visible]`.
pub open spec fn spec_clamp_visible(tick: int, visible: int) -> int {
    if tick < 0 {
        0
    } else if tick > visible {
        visible
    } else {
        tick
    }
}

/// The interaction state after resolving a released drag at absolute end
/// tick `abs_end`: a movement of less than one tick is a plain click and
/// clears every selection; anything longer commits the ordered range as the
/// single global selection.  Either way the drag ends.
pub open spec fn spec_resolve_release(d: DragModel, abs_end: int) -> SelectionStateModel {
    let dist = if abs_end >= d.start {
        abs_end - d.start
    } else {
        d.start - abs_end
    };
    if dist < TICK_UNIT {
        SelectionStateModel { drag: None, selection: None }
    } else {
        SelectionStateModel {
            drag: None,
            selection: Some(
                SelectionModel {
                    track: d.track,
                    start: vstd::math::min(d.start, abs_end),
                    end: vstd::math::max(d.start, abs_end),
                },
            ),
        }
    }
}

/// The selection-state transition for one frame of pointer input on one
/// track.  Evaluated top to bottom, first match wins:
///
/// 1. a secondary press over the timeline clears every selection;
/// 2. a fresh primary press over this track clears every selection and
///    starts a drag at the pointer's absolute tick;
/// 3. while the primary button is held and the drag belongs to this track,
///    the live selection follows the pointer's clamped tick;
/// 4. a primary release resolves this track's drag: a click clears, a real
///    drag commits (see [`spec_resolve_release`]).
///
/// A release without a pointer position still resolves the drag, falling
/// back to the drag's own start, so a drag never dangles.
pub open spec fn spec_selection_step(
    m: SelectionStateModel,
    track: Seq<char>,
    inp: TrackFrameInput,
    ctx: TrackHitContext,
) -> SelectionStateModel {
    let start = ctx.timeline_start as int;
    let visible = ctx.visible_ticks as int;
    match inp.pointer {
        None => {
            match m.drag {
                Some(d) => {
                    if inp.released && d.track == track {
                        spec_resolve_release(d, start + spec_clamp_visible(d.start - start, visible))
                    } else {
                        m
                    }
                },
                None => m,
            }
        },
        Some(p) => {
            let tick = time::spec_hit_tick(p.x as int, ctx.timeline_rect.min_x as int,
                ctx.ticks_per_point as int);
            let over_track = ctx.track_rect.spec_contains(p.x as int, p.y as int);
            let over_timeline = ctx.timeline_rect.spec_contains(p.x as int, p.y as int);
            let dragging_this = match m.drag {
                Some(d) => d.track == track,
                None => false,
            };
            if inp.secondary_pressed && over_timeline {
                SelectionStateModel { drag: m.drag, selection: None }
            } else if inp.pressed && over_track && !inp.secondary_pressed {
                SelectionStateModel {
                    drag: Some(DragModel { track: track, start: start + tick }),
                    selection: None,
                }
            } else if inp.down && dragging_this && !inp.secondary_pressed {
                let d = m.drag->Some_0;
                let abs_end = start + spec_clamp_visible(tick, visible);
                SelectionStateModel {
                    drag: m.drag,
                    selection: Some(
                        SelectionModel {
                            track: track,
                            start: vstd::math::min(d.start, abs_end),
                            end: vstd::math::max(d.start, abs_end),
                        },
                    ),
                }
            } else if inp.released && dragging_this {
                let d = m.drag->Some_0;
                let last = if over_timeline {
                    tick
                } else {
                    spec_clamp_visible(d.start - start, visible)
                };
                spec_resolve_release(d, start + spec_clamp_visible(last, visible))
            } else {
                m
            }
        },
    }
}

/// Whether one frame of input moves the playhead during the per-track pass:
/// the primary button freshly pressed or held over this track, outside a
/// secondary-press frame.
pub open spec fn spec_moves_playhead(inp: TrackFrameInput, ctx: TrackHitContext) -> bool {
    match inp.pointer {
        Some(p) => (inp.pressed || inp.down) && ctx.track_rect.spec_contains(p.x as int, p.y as int)
            && !inp.secondary_pressed,
        None => false,
    }
}

/// The tick offset (relative to the viewport) the pointer hits, for moving
/// the playhead.
pub open spec fn spec_pointer_tick(inp: TrackFrameInput, ctx: TrackHitContext) -> int {
    time::spec_hit_tick(
        inp.pointer->Some_0.x as int,
        ctx.timeline_rect.min_x as int,
        ctx.ticks_per_point as int,
    )
}

impl SelectionState {
    /// Every stored tick is ordered and in range.
    pub open spec fn wf(self) -> bool {
        self@.wf()
    }

    /// A state with no drag and no selection.
    pub fn new() -> (r: SelectionState)
        ensures
            r.wf(),
            r@.drag is None,
            r@.selection is None,
    {
        SelectionState { drag: None, selection: None }
    }

    /// Begins a drag on the given track at the given absolute tick.
    pub fn start_selection_drag(&mut self, track_id: &str, start_tick: i64)
        requires
            old(self).wf(),
            0 <= start_tick <= MAX_TICK_UNITS,
        ensures
            final(self).wf(),
            final(self)@.drag == Some(DragModel { track: track_id@, start: start_tick as int }),
            final(self)@.selection == old(self)@.selection,
    {
        self.drag = Some(
            DragState { track_id: <String as StringExecFns>::from_str(track_id), start_tick },
        );
    }

    /// Updates the live selection for a drag in progress on the given
    /// track: the selection becomes the ordered range between the drag
    /// start and `end_tick`.  Does nothing when the drag belongs to another
    /// track or no drag is live.
    pub fn update_selection_drag(&mut self, track_id: &str, end_tick: i64)
        requires
            old(self).wf(),
            0 <= end_tick <= MAX_TICK_UNITS,
        ensures
            final(self).wf(),
            final(self)@.drag == old(self)@.drag,
            match old(self)@.drag {
                Some(d) => {
                    if d.track == track_id@ {
                        final(self)@.selection == Some(
                            SelectionModel {
                                track: track_id@,
                                start: vstd::math::min(d.start, end_tick as int),
                                end: vstd::math::max(d.start, end_tick as int),
                            },
                        )
                    } else {
                        final(self)@.selection == old(self)@.selection
                    }
                },
                None => final(self)@.selection == old(self)@.selection,
            },
    {
        let matches_track = match &self.drag {
            Some(d) => d.track_id == <String as StringExecFns>::from_str(track_id),
            None => false,
        };
        if matches_track {
            let start_tick = match &self.drag {
                Some(d) => d.start_tick,
                None => 0,
            };
            let (lo, hi) = if start_tick <= end_tick {
                (start_tick, end_tick)
            } else {
                (end_tick, start_tick)
            };
            self.selection = Some(
                Selection {
                    track_id: <String as StringExecFns>::from_str(track_id),
                    start_tick: lo,
                    end_tick: hi,
                },
            );
        }
    }

    /// The live drag's track and absolute start tick, if a drag is in
    /// progress.
    pub fn get_drag_start(&self) -> (r: Option<(String, i64)>)
        requires
            self.wf(),
        ensures
            match self@.drag {
                Some(d) => r matches Some(pair) && pair.0@ == d.track && pair.1 == d.start,
                None => r is None,
            },
    {
        match &self.drag {
            Some(d) => Some((d.track_id.clone(), d.start_tick)),
            None => None,
        }
    }

    /// Ends any drag in progress without touching the selection.
    pub fn end_selection_drag(&mut self)
        requires
            old(self).wf(),
        ensures
            final(self).wf(),
            final(self)@.drag is None,
            final(self)@.selection == old(self)@.selection,
    {
        self.drag = None;
    }

    /// Commits a selection on the given track.  The single-selection
    /// discipline replaces whatever selection existed before.
    pub fn set_selection(&mut self, track_id: &str, start_tick: i64, end_tick: i64)
        requires
            old(self).wf(),
            0 <= start_tick <= end_tick <= MAX_TICK_UNITS,
        ensures
            final(self).wf(),
            final(self)@.drag == old(self)@.drag,
            final(self)@.selection == Some(
                SelectionModel {
                    track: track_id@,
                    start: start_tick as int,
                    end: end_tick as int,
                },
            ),
    {
        self.selection = Some(
            Selection {
                track_id: <String as StringExecFns>::from_str(track_id),
                start_tick,
                end_tick,
            },
        );
    }

    /// Clears the selection if it belongs to the given track.
    pub fn clear_selection(&mut self, track_id: &str)
        requires
            old(self).wf(),
        ensures
            final(self).wf(),
            final(self)@.drag == old(self)@.drag,
            match old(self)@.selection {
                Some(s) => {
                    if s.track == track_id@ {
                        final(self)@.selection is None
                    } else {
                        final(self)@.selection == old(self)@.selection
                    }
                },
                None => final(self)@.selection is None,
            },
    {
        let matches_track = match &self.selection {
            Some(s) => s.track_id == <String as StringExecFns>::from_str(track_id),
            None => true,
        };
        if matches_track {
            self.selection = None;
        }
    }

    /// Clears every selection.
    pub fn clear_all_selections(&mut self)
        requires
            old(self).wf(),
        ensures
            final(self).wf(),
            final(self)@.drag == old(self)@.drag,
            final(self)@.selection is None,
    {
        self.selection = None;
    }

    /// The absolute tick range selected on the given track, if any.
    pub fn get_selection(&self, track_id: &str) -> (r: Option<(i64, i64)>)
        requires
            self.wf(),
        ensures
            match self@.selection {
                Some(s) => {
                    if s.track == track_id@ {
                        r == Some((s.start as i64, s.end as i64))
                    } else {
                        r is None
                    }
                },
                None => r is None,
            },
    {
        match &self.selection {
            Some(s) => {
                if s.track_id == <String as StringExecFns>::from_str(track_id) {
                    Some((s.start_tick, s.end_tick))
                } else {
                    None
                }
            },
            None => None,
        }
    }

    /// The track holding the single selection, if one exists.
    pub fn get_selected_track_id(&self) -> (r: Option<String>)
        requires
            self.wf(),
        ensures
            match self@.selection {
                Some(s) => r matches Some(id) && id@ == s.track,
                None => r is None,
            },
    {
        match &self.selection {
            Some(s) => Some(s.track_id.clone()),
            None => None,
        }
    }
}

/// Resolves one frame of pointer input against one track: moves the
/// playhead on a primary press or hold over the track (outside a
/// secondary-press frame) and advances the selection state machine by one
/// step (see [`spec_selection_step`]).
///
/// `playhead_enabled` and `selection_enabled` model hosts that supply only
/// one of the two capabilities; a disabled part is left untouched.
pub fn handle_track_interaction(
    state: &mut SelectionState,
    playhead: &mut PlayheadState,
    ctx: &TrackHitContext,
    track_id: &str,
    inp: TrackFrameInput,
    playhead_enabled: bool,
    selection_enabled: bool,
)
    requires
        old(state).wf(),
        old(playhead).wf(),
        ctx.wf(),
        inp.wf(),
    ensures
        final(state).wf(),
        final(playhead).wf(),
        selection_enabled ==> final(state)@ == spec_selection_step(
            old(state)@,
            track_id@,
            inp,
            *ctx,
        ),
        !selection_enabled ==> final(state)@ == old(state)@,
        playhead_enabled && spec_moves_playhead(inp, *ctx) ==> {
            &&& final(playhead).position == ctx.timeline_start + spec_pointer_tick(inp, *ctx)
            &&& final(playhead).max_position == old(playhead).max_position
            &&& final(playhead).playing == old(playhead).playing
            &&& old(playhead).playing ==> final(playhead).epoch_position == final(playhead).position && !final(playhead).epoch_started
            &&& !old(playhead).playing ==> final(playhead).epoch_position == old(playhead).epoch_position && final(playhead).epoch_started == old(playhead).epoch_started
        },
        !(playhead_enabled && spec_moves_playhead(inp, *ctx)) ==> *final(playhead) == *old(playhead),
{
    proof {
        time::lemma_hit_tick_bounds(
            match inp.pointer {
                Some(p) => p.x as int,
                None => 0,
            },
            ctx.timeline_rect.min_x as int,
            ctx.ticks_per_point as int,
        );
    }
    match inp.pointer {
        None => {
            if selection_enabled {
                let dragging_this = match &state.drag {
                    Some(d) => d.track_id == <String as StringExecFns>::from_str(track_id),
                    None => false,
                };
                if inp.released && dragging_this {
                    let drag_start = match &state.drag {
                        Some(d) => d.start_tick,
                        None => 0,
                    };
                    let last = crate::time::clamp_to_visible(
                        drag_start - ctx.timeline_start,
                        ctx.visible_ticks,
                    );
                    resolve_release(state, ctx.timeline_start + last);
                }
            }
        },
        Some(p) => {
            let tick = time::hit_test_tick(p.x, ctx.timeline_rect.min_x, ctx.ticks_per_point);
            let over_track = ctx.track_rect.contains(p.x, p.y);
            let over_timeline = ctx.timeline_rect.contains(p.x, p.y);
            if playhead_enabled && (inp.pressed || inp.down) && over_track
                && !inp.secondary_pressed {
                playhead.set_playhead_ticks(ctx.timeline_start, tick);
            }
            if selection_enabled {
                let dragging_this = match &state.drag {
                    Some(d) => d.track_id == <String as StringExecFns>::from_str(track_id),
                    None => false,
                };
                if inp.secondary_pressed && over_timeline {
                    clear_selection_keep_drag(state);
                } else if inp.pressed && over_track && !inp.secondary_pressed {
                    state.selection = None;
                    state.drag = Some(
                        DragState {
                            track_id: <String as StringExecFns>::from_str(track_id),
                            start_tick: ctx.timeline_start + tick,
                        },
                    );
                } else if inp.down && dragging_this && !inp.secondary_pressed {
                    let drag_start = match &state.drag {
                        Some(d) => d.start_tick,
                        None => 0,
                    };
                    let clamped = crate::time::clamp_to_visible(tick, ctx.visible_ticks);
                    let abs_end = ctx.timeline_start + clamped;
                    let (lo, hi) = if drag_start <= abs_end {
                        (drag_start, abs_end)
                    } else {
                        (abs_end, drag_start)
                    };
                    state.selection = Some(
                        Selection {
                            track_id: <String as StringExecFns>::from_str(track_id),
                            start_tick: lo,
                            end_tick: hi,
                        },
                    );
                } else if inp.released && dragging_this {
                    let drag_start = match &state.drag {
                        Some(d) => d.start_tick,
                        None => 0,
                    };
                    let last = if over_timeline {
                        tick
                    } else {
                        crate::time::clamp_to_visible(
                            drag_start - ctx.timeline_start,
                            ctx.visible_ticks,
                        )
                    };
                    let clamped = crate::time::clamp_to_visible(last, ctx.visible_ticks);
                    resolve_release(state, ctx.timeline_start + clamped);
                }
            }
        },
    }
}

/// Clears the selection while keeping any live drag (a secondary press).
fn clear_selection_keep_drag(state: &mut SelectionState)
    requires
        old(state).wf(),
    ensures
        final(state).wf(),
        final(state)@ == (SelectionStateModel { drag: old(state)@.drag, selection: None }),
{
    state.selection = None;
}

/// Resolves a released drag at the given absolute end tick: a movement of
/// less than one tick clears every selection, a longer one commits the
/// ordered range; the drag ends either way.
fn resolve_release(state: &mut SelectionState, abs_end: i64)
    requires
        old(state).wf(),
        old(state)@.drag is Some,
        0 <= abs_end <= MAX_TICK_UNITS,
    ensures
        final(state).wf(),
        final(state)@ == spec_resolve_release(old(state)@.drag->Some_0, abs_end as int),
{
    let drag_start = match &state.drag {
        Some(d) => d.start_tick,
        None => 0,
    };
    let track_id = match &state.drag {
        Some(d) => d.track_id.clone(),
        None => String::new(),
    };
    let dist = if abs_end >= drag_start {
        abs_end - drag_start
    } else {
        drag_start - abs_end
    };
    if dist < TICK_UNIT {
        state.selection = None;
    } else {
        let (lo, hi) = if drag_start <= abs_end {
            (drag_start, abs_end)
        } else {
            (abs_end, drag_start)
        };
        state.selection = Some(Selection { track_id, start_tick: lo, end_tick: hi });
    }
    state.drag = None;
}

/// One recorded interaction event: which track the pass ran for, the
/// pointer input of that frame, and the frame's geometry.
pub struct SelectionEvent {
    pub track: Seq<char>,
    pub inp: TrackFrameInput,
    pub ctx: TrackHitContext,
}

impl SelectionEvent {
    pub open spec fn wf(self) -> bool {
        self.inp.wf() && self.ctx.wf()
    }
}

/// The interaction state after an arbitrary sequence of events, applied in
/// order.
pub open spec fn spec_selection_fold(
    m: SelectionStateModel,
    events: Seq<SelectionEvent>,
) -> SelectionStateModel
    decreases events.len(),
{
    if events.len() == 0 {
        m
    } else {
        spec_selection_fold(
            spec_selection_step(m, events[0].track, events[0].inp, events[0].ctx),
            events.skip(1),
        )
    }
}

/// A single interaction step keeps the state well formed: stored ticks stay
/// in range and any selection stays ordered (`start <= end`).
pub proof fn lemma_selection_step_wf(
    m: SelectionStateModel,
    track: Seq<char>,
    inp: TrackFrameInput,
    ctx: TrackHitContext,
)
    requires
        m.wf(),
        inp.wf(),
        ctx.wf(),
    ensures
        spec_selection_step(m, track, inp, ctx).wf(),
{
    match inp.pointer {
        Some(p) => {
            time::lemma_hit_tick_bounds(
                p.x as int,
                ctx.timeline_rect.min_x as int,
                ctx.ticks_per_point as int,
            );
        },
        None => {
        },
    }
}

/// The selection invariant: after any sequence of interaction events, the
/// state still holds at most one selection (structurally a single optional
/// value) and that selection's ticks satisfy `start <= end` and stay in
/// range.
pub proof fn lemma_selection_fold_wf(m: SelectionStateModel, events: Seq<SelectionEvent>)
    requires
        m.wf(),
        forall|i: int| 0 <= i < events.len() ==> (#[trigger] events[i]).wf(),
    ensures
        spec_selection_fold(m, events).wf(),
    decreases events.len(),
{
    if events.len() > 0 {
        lemma_selection_step_wf(m, events[0].track, events[0].inp, events[0].ctx);
        let m1 = spec_selection_step(m, events[0].track, events[0].inp, events[0].ctx);
        let rest = events.skip(1);
        assert forall|i: int| 0 <= i < rest.len() implies (#[trigger] rest[i]).wf() by {
            assert(rest[i] == events[i + 1]);
        }
        lemma_selection_fold_wf(m1, rest);
    }
}

/// The selection a host reads for one track: the single global selection's
/// range when it belongs to that track, nothing otherwise.
pub open spec fn spec_reported_selection(
    m: SelectionStateModel,
    track: Seq<char>,
) -> Option<(int, int)> {
    match m.selection {
        Some(s) => if s.track == track {
            Some((s.start, s.end))
        } else {
            None
        },
        None => None,
    }
}

/// At most one track ever reports a selection: two distinct track ids can
/// never both read one from the same state.
pub proof fn lemma_at_most_one_selection(
    m: SelectionStateModel,
    track1: Seq<char>,
    track2: Seq<char>,
)
    requires
        track1 != track2,
    ensures
        !(spec_reported_selection(m, track1) is Some && spec_reported_selection(m, track2)
            is Some),
{
}

/// Click versus drag disambiguation: a press on a track followed by a
/// release inside the timeline produces a selection exactly when the drag
/// covered at least one tick.  A pair of frames whose ticks differ by less
/// than one tick never produces a selection; a pair at least one tick apart
/// produces exactly one, spanning the ordered pair of absolute ticks.  The
/// drag ends in either case.
pub proof fn lemma_click_vs_drag(
    m: SelectionStateModel,
    track: Seq<char>,
    press: TrackFrameInput,
    press_ctx: TrackHitContext,
    release: TrackFrameInput,
    release_ctx: TrackHitContext,
)
    requires
        m.wf(),
        press.wf(),
        press_ctx.wf(),
        release.wf(),
        release_ctx.wf(),
        press.pointer is Some,
        press.pressed,
        !press.secondary_pressed,
        press_ctx.track_rect.spec_contains(
            press.pointer->Some_0.x as int,
            press.pointer->Some_0.y as int,
        ),
        release.pointer is Some,
        release.released,
        !release.pressed,
        !release.down,
        !release.secondary_pressed,
        release_ctx.timeline_rect.spec_contains(
            release.pointer->Some_0.x as int,
            release.pointer->Some_0.y as int,
        ),
    ensures
        ({
            let m1 = spec_selection_step(m, track, press, press_ctx);
            let m2 = spec_selection_step(m1, track, release, release_ctx);
            let start_abs = press_ctx.timeline_start + spec_pointer_tick(press, press_ctx);
            let end_abs = release_ctx.timeline_start + spec_clamp_visible(
                spec_pointer_tick(release, release_ctx),
                release_ctx.visible_ticks as int,
            );
            let dist = if end_abs >= start_abs {
                end_abs - start_abs
            } else {
                start_abs - end_abs
            };
            &&& m2.drag is None
            &&& dist < TICK_UNIT ==> m2.selection is None
            &&& dist >= TICK_UNIT ==> m2.selection == Some(
                SelectionModel {
                    track: track,
                    start: vstd::math::min(start_abs, end_abs),
                    end: vstd::math::max(start_abs, end_abs),
                },
            )
        }),
{
}

/// Moves the playhead for a primary press or hold anywhere over the
/// timeline content area (the whole-timeline variant used above the
/// per-track pass, without a secondary-press exclusion).
pub fn handle_track_playhead_interaction(
    playhead: &mut PlayheadState,
    timeline_rect: Rect,
    timeline_start: i64,
    ticks_per_point: i64,
    inp: TrackFrameInput,
)
    requires
        old(playhead).wf(),
        timeline_rect.wf(),
        0 <= timeline_start <= MAX_TIMELINE_START,
        1 <= ticks_per_point <= MAX_TICKS_PER_POINT,
        inp.wf(),
    ensures
        final(playhead).wf(),
        ({
            let hits = match inp.pointer {
                Some(p) => (inp.pressed || inp.down) && timeline_rect.spec_contains(
                    p.x as int,
                    p.y as int,
                ),
                None => false,
            };
            &&& hits ==> final(playhead).position == timeline_start + time::spec_hit_tick(
                inp.pointer->Some_0.x as int,
                timeline_rect.min_x as int,
                ticks_per_point as int,
            ) && final(playhead).max_position == old(playhead).max_position && final(playhead).playing == old(playhead).playing
            &&& !hits ==> *final(playhead) == *old(playhead)
        }),
{
    match inp.pointer {
        None => {
        },
        Some(p) => {
            if (inp.pressed || inp.down) && timeline_rect.contains(p.x, p.y) {
                let tick = time::hit_test_tick(p.x, timeline_rect.min_x, ticks_per_point);
                playhead.set_playhead_ticks(timeline_start, tick);
            }
        },
    }
}

} // verus!
