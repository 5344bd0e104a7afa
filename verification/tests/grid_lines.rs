//! Tests for the time-based grid and ruler marks.

use egui_timeline::grid::grid_marks;

#[test]
fn marks_sit_on_tenth_second_intervals() {
    let marks = grid_marks(0, 960, 60_000, 72_000_000, 4, 500, true);
    // 72 000 000 units cover 18.75 seconds: lattice points 0 to 187.
    assert_eq!(marks.len(), 188);
    for (k, m) in marks.iter().enumerate() {
        assert_eq!(m.tick, k as i64 * 384_000);
        assert_eq!(m.subdivision_index, (k % 10) as u8);
        assert_eq!(m.whole_second, k % 10 == 0);
    }
}

#[test]
fn whole_second_marks_carry_their_bar_number() {
    let marks = grid_marks(0, 960, 60_000, 72_000_000, 4, 500, true);
    let seconds: Vec<_> = marks.iter().filter(|m| m.whole_second).collect();
    assert_eq!(seconds.len(), 19);
    for (n, m) in seconds.iter().enumerate() {
        assert_eq!(m.bar_number, n as u32);
    }
}

#[test]
fn first_mark_snaps_to_the_lattice_point_before_the_viewport() {
    let marks = grid_marks(500_000, 960, 60_000, 72_000_000, 4, 500, true);
    assert_eq!(marks[0].tick, -116_000);
    assert!(!marks[0].whole_second);
    assert_eq!(marks[0].subdivision_index, 1);
}

#[test]
fn crowded_ruler_keeps_every_whole_second() {
    // Maximum zoom-out: subdivisions sit about two points apart, under the
    // four point gap, so every odd tenth is suppressed while all nineteen
    // whole seconds survive.
    let marks = grid_marks(0, 960, 180_000, 72_000_000, 4, 500, true);
    let seconds: Vec<_> = marks.iter().filter(|m| m.whole_second).collect();
    assert_eq!(seconds.len(), 19);
    for pair in marks.windows(2) {
        assert!(pair[1].whole_second || pair[1].x - pair[0].x >= 4);
    }
    assert_eq!(marks.len(), 94);
}

#[test]
fn crowded_grid_suppresses_even_whole_seconds() {
    let marks = grid_marks(0, 960, 180_000, 72_000_000, 4, 500, false);
    for pair in marks.windows(2) {
        assert!(pair[1].x - pair[0].x >= 4);
    }
}

#[test]
fn uncrowded_marks_are_never_suppressed() {
    let ruler = grid_marks(0, 960, 60_000, 72_000_000, 4, 500, true);
    let grid = grid_marks(0, 960, 60_000, 72_000_000, 4, 500, false);
    assert_eq!(ruler.len(), grid.len());
}

#[test]
fn bar_numbers_cap_at_the_final_bar() {
    // Scrolled to 520 seconds on a 501 bar timeline: numbers stop at 500.
    let start = 520 * 3_840_000;
    let marks = grid_marks(start, 960, 60_000, 72_000_000, 4, 500, true);
    for m in marks.iter().filter(|m| m.whole_second) {
        assert_eq!(m.bar_number, 500);
    }
}

#[test]
fn mark_columns_follow_the_coordinate_transform() {
    let marks = grid_marks(0, 960, 60_000, 72_000_000, 4, 500, true);
    for m in &marks {
        assert_eq!(m.x, m.tick / 60_000);
    }
    // 384 000 units at 60 000 per point is 6.4 points: columns alternate
    // between gaps of 6 and 7.
    assert_eq!(marks[1].x, 6);
    assert_eq!(marks[2].x, 12);
    assert_eq!(marks[5].x, 32);
}
