//! Tests for the musical step generator.

use egui_timeline::host::FourFourBars;
use egui_timeline::ruler::{bar_steps, Step, Steps};
use egui_timeline::types::{Bar, TickRange, TimeSig};

fn standard_host() -> FourFourBars {
    FourFourBars { ticks_per_beat: 960, zoom: 1000, timeline_start: 0, total_bars: 501 }
}

fn collect(steps: &mut Steps, host: &FourFourBars) -> Vec<Step> {
    let mut out = Vec::new();
    while let Some(s) = steps.next(host) {
        out.push(s);
        assert!(out.len() < 10_000, "generator failed to terminate");
    }
    out
}

#[test]
fn first_step_marks_the_bar_start_at_the_left_edge() {
    let host = standard_host();
    let mut steps = Steps::new(&host, 1200, 4);
    let first = steps.next(&host).unwrap();
    assert_eq!(first.index_in_bar, 0);
    assert_eq!(first.ticks, 0);
    assert_eq!(first.x, 0);
}

#[test]
fn steps_subdivide_to_the_finest_interval_above_the_gap() {
    // At 60 000 units per point with a 4 point gap, the minimum step is
    // 240 000 units; halving per-beat steps stops at 480 000 units, eight
    // steps per bar, eight points apart.
    let host = standard_host();
    let mut steps = Steps::new(&host, 1200, 4);
    let all = collect(&mut steps, &host);
    assert_eq!(all[0], Step { index_in_bar: 0, ticks: 0, x: 0 });
    assert_eq!(all[1], Step { index_in_bar: 1, ticks: 480_000, x: 8 });
    assert_eq!(all[7], Step { index_in_bar: 7, ticks: 3_360_000, x: 56 });
    assert_eq!(all[8], Step { index_in_bar: 0, ticks: 3_840_000, x: 64 });
}

#[test]
fn steps_cover_the_visible_range_and_stop() {
    // 72 000 000 visible units: eighteen full bars of eight steps and a
    // nineteenth bar cut off after seven.
    let host = standard_host();
    let mut steps = Steps::new(&host, 1200, 4);
    let all = collect(&mut steps, &host);
    assert_eq!(all.len(), 18 * 8 + 7);
    assert!(all.iter().all(|s| 0 <= s.ticks && s.ticks <= 72_000_000));
    let bar_starts = all.iter().filter(|s| s.index_in_bar == 0).count();
    assert_eq!(bar_starts, 19);
    // An exhausted stream stays exhausted.
    assert!(steps.next(&host).is_none());
    assert!(steps.next(&host).is_none());
}

#[test]
fn consecutive_steps_keep_the_minimum_gap() {
    let host = standard_host();
    let mut steps = Steps::new(&host, 1200, 4);
    let all = collect(&mut steps, &host);
    for pair in all.windows(2) {
        assert!(pair[1].ticks > pair[0].ticks);
        if pair[1].index_in_bar != 0 {
            assert!(pair[1].x - pair[0].x >= 4);
        }
    }
}

#[test]
fn generator_restarts_from_the_beginning() {
    let host = standard_host();
    let mut first_run = Steps::new(&host, 1200, 4);
    let a = collect(&mut first_run, &host);
    let mut second_run = Steps::new(&host, 1200, 4);
    let b = collect(&mut second_run, &host);
    assert_eq!(a, b);
}

#[test]
fn generator_respects_the_scroll_offset_bars() {
    // Scrolled half a bar in: the first bar starts half a bar before the
    // viewport, and its pre-viewport steps are skipped but still counted.
    let host = FourFourBars {
        ticks_per_beat: 960,
        zoom: 1000,
        timeline_start: 1_920_000,
        total_bars: 501,
    };
    let mut steps = Steps::new(&host, 1200, 4);
    let first = steps.next(&host).unwrap();
    assert_eq!(first.index_in_bar, 4);
    assert_eq!(first.ticks, 0);
}

#[test]
fn bar_steps_skips_candidates_left_of_the_viewport() {
    let bar = Bar {
        tick_range: TickRange { start: -1_000_000, end: 2_840_000 },
        time_sig: TimeSig { top: 4, bottom: 4 },
    };
    let (steps, hit_visible) = bar_steps(&bar, 960, 60_000, 4, 72_000_000);
    // Step 480 000: candidates at -1 000 000, -520 000 and -40 000 are
    // skipped; the first emitted index is three.
    assert_eq!(steps[0].index_in_bar, 3);
    assert_eq!(steps[0].ticks, 440_000);
    assert_eq!(steps.len(), 5);
    assert!(!hit_visible);
}

#[test]
fn bar_steps_falls_back_to_whole_bars_when_crowded() {
    // A 64 point gap demands 3 840 000 units between steps, more than one
    // beat: the generator steps by the whole bar.
    let bar = Bar {
        tick_range: TickRange { start: 0, end: 3_840_000 },
        time_sig: TimeSig { top: 4, bottom: 4 },
    };
    let (steps, _) = bar_steps(&bar, 960, 60_000, 64, 72_000_000);
    assert_eq!(steps.len(), 1);
    assert_eq!(steps[0], Step { index_in_bar: 0, ticks: 0, x: 0 });
}

#[test]
fn bar_steps_honours_the_time_signature() {
    // Six-eight time starts from two subdivisions per beat.
    let bar = Bar {
        tick_range: TickRange { start: 0, end: 2_880_000 },
        time_sig: TimeSig { top: 6, bottom: 8 },
    };
    let (steps, _) = bar_steps(&bar, 960, 1_000, 4, 72_000_000);
    // The initial step is 480 000 units (960 000 / 2) and the gap demand
    // only 4 000 units, so halving continues: 480 000, 240 000, ...,
    // stopping just above 4 000 at 7 500 units.
    assert_eq!(steps[1].ticks - steps[0].ticks, 7_500);
}

#[test]
fn generator_stops_at_the_hosts_final_bar() {
    // A two-bar timeline zoomed far out: the host clamps every further
    // request to its final bar and the generator ends instead of looping.
    let host = FourFourBars { ticks_per_beat: 960, zoom: 1000, timeline_start: 0, total_bars: 2 };
    let mut steps = Steps::new(&host, 1200, 4);
    let all = collect(&mut steps, &host);
    assert_eq!(all.len(), 16);
    assert!(all.iter().all(|s| s.ticks < 2 * 3_840_000));
}
