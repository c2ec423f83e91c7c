use nuon::layout::{row, RowLayout};
use nuon::{HalfUnits, Rect};

fn bounds() -> Rect {
    Rect { x: 0, y: 0, width: 100, height: 10 }
}

fn in_units(x: HalfUnits) -> f64 {
    x.halves as f64 / 2.0
}

#[test]
fn start_and_end_pushes_with_gap() {
    let mut layout = RowLayout::new(bounds());
    layout.set_gap(2);
    assert_eq!(layout.push_start(10), 0);
    assert_eq!(layout.push_start(20), 12);
    assert_eq!(layout.start_width(), 32);
    assert_eq!(layout.push_end(15), 85);
    assert_eq!(layout.push_end(5), 78);
    assert_eq!(layout.end_width(), 22);
}

#[test]
fn center_without_pushes() {
    let mut layout = RowLayout::new(bounds());
    let center = layout.set_center(40);
    assert_eq!(center, HalfUnits { halves: 60 });
    assert_eq!(in_units(center), 30.0);
}

#[test]
fn uniform_items_at_start() {
    for n in 0..6usize {
        let mut layout = RowLayout::new(Rect { x: -40, y: 3, width: 500, height: 20 });
        layout.set_gap(3);
        for _ in 0..n {
            layout.push_start(7);
        }
        let gaps = if n == 0 { 0 } else { n as i128 - 1 };
        assert_eq!(layout.start_width(), n as i128 * 7 + gaps * 3);
        assert_eq!(layout.start_count(), n);
    }
}

#[test]
fn uniform_items_at_end() {
    let mut layout = RowLayout::new(bounds());
    layout.set_gap(4);
    for _ in 0..5 {
        layout.push_end(6);
    }
    assert_eq!(layout.end_width(), 5 * 6 + 4 * 4);
    assert_eq!(layout.end_count(), 5);
    assert_eq!(layout.start_width(), 0);
}

#[test]
fn start_and_end_are_mirrored() {
    let rect = Rect { x: 25, y: 0, width: 300, height: 40 };
    let widths = [10, 0, 33, 7, 120];
    let mut at_start = RowLayout::new(rect);
    let mut at_end = RowLayout::new(rect);
    at_start.set_gap(5);
    at_end.set_gap(5);
    for w in widths {
        let s = at_start.push_start(w);
        let e = at_end.push_end(w);
        assert_eq!(e, 325 - (s - 25) - w as i128);
    }
}

#[test]
fn start_and_end_do_not_disturb_each_other() {
    let mut both = RowLayout::new(bounds());
    let mut only_start = RowLayout::new(bounds());
    let mut only_end = RowLayout::new(bounds());
    for layout in [&mut both, &mut only_start, &mut only_end] {
        layout.set_gap(1);
    }
    for w in [4, 9, 2] {
        assert_eq!(both.push_start(w), only_start.push_start(w));
        assert_eq!(both.push_end(w), only_end.push_end(w));
    }
    assert_eq!(both.start_width(), only_start.start_width());
    assert_eq!(both.end_width(), only_end.end_width());
}

#[test]
fn width_queries_repeat() {
    let mut layout = RowLayout::new(bounds());
    layout.set_gap(2);
    layout.push_start(10);
    layout.push_start(20);
    layout.push_end(3);
    let first = layout.start_width();
    assert_eq!(layout.start_width(), first);
    assert_eq!(first, 32);
    let first = layout.end_width();
    assert_eq!(layout.end_width(), first);
    assert_eq!(first, 3);
}

#[test]
fn new_layout_is_empty_whatever_the_gap() {
    for gap in [0, 1, -7, i32::MAX, i32::MIN] {
        let mut layout = RowLayout::new(bounds());
        assert_eq!(layout.start_width(), 0);
        assert_eq!(layout.end_width(), 0);
        layout.set_gap(gap);
        assert_eq!(layout.start_width(), 0);
        assert_eq!(layout.end_width(), 0);
        assert_eq!(layout.start_count(), 0);
        assert_eq!(layout.end_count(), 0);
    }
}

#[test]
fn single_item_has_no_gap() {
    let mut layout = RowLayout::new(bounds());
    layout.set_gap(50);
    layout.push_start(8);
    layout.push_end(9);
    assert_eq!(layout.start_width(), 8);
    assert_eq!(layout.end_width(), 9);
}

#[test]
fn center_ignores_pushes_and_gap() {
    let mut layout = RowLayout::new(bounds());
    assert_eq!(in_units(layout.set_center(20)), 40.0);
    layout.set_gap(9);
    layout.push_start(30);
    layout.push_end(30);
    assert_eq!(in_units(layout.set_center(20)), 40.0);
    assert_eq!(in_units(layout.set_center(20)), 40.0);
    assert_eq!(layout.start_width(), 30);
    assert_eq!(layout.push_start(1), 39);
}

#[test]
fn center_is_relative_to_the_bounds() {
    let mut layout = RowLayout::new(Rect { x: 1000, y: 0, width: 100, height: 10 });
    assert_eq!(in_units(layout.set_center(40)), 30.0);
    assert_eq!(in_units(layout.set_center(100)), 0.0);
    assert_eq!(in_units(layout.set_center(120)), -10.0);
}

#[test]
fn center_of_an_odd_room_is_a_half() {
    let mut even = RowLayout::new(bounds());
    assert_eq!(even.set_center(41).halves, 59);
    assert_eq!(in_units(even.set_center(41)), 29.5);
    assert_eq!(in_units(even.set_center(39)), 30.5);
    assert_eq!(in_units(even.set_center(-41)), 70.5);
    assert_eq!(in_units(even.set_center(0)), 50.0);
    let mut odd = RowLayout::new(Rect { x: 0, y: 0, width: 101, height: 10 });
    assert_eq!(in_units(odd.set_center(40)), 30.5);
    assert_eq!(in_units(odd.set_center(41)), 30.0);
    assert_eq!(in_units(odd.set_center(-1)), 51.0);
    let mut negative = RowLayout::new(Rect { x: 0, y: 0, width: -101, height: 10 });
    assert_eq!(in_units(negative.set_center(0)), -50.5);
}

#[test]
fn center_at_the_limits() {
    let mut widest = RowLayout::new(Rect { x: i32::MIN, y: 0, width: i32::MAX, height: 0 });
    assert_eq!(widest.set_center(i32::MIN).halves, i32::MAX as i128 - i32::MIN as i128);
    let mut narrowest = RowLayout::new(Rect { x: i32::MAX, y: 0, width: i32::MIN, height: 0 });
    assert_eq!(narrowest.set_center(i32::MAX).halves, i32::MIN as i128 - i32::MAX as i128);
}

#[test]
fn empty_item_is_counted_and_followed_by_a_gap() {
    let mut layout = RowLayout::new(bounds());
    layout.set_gap(2);
    assert_eq!(layout.push_start(0), 0);
    assert_eq!(layout.start_count(), 1);
    assert_eq!(layout.start_width(), 0);
    assert_eq!(layout.push_start(10), 2);
    assert_eq!(layout.start_count(), 2);
    assert_eq!(layout.start_width(), 12);

    assert_eq!(layout.push_end(0), 100);
    assert_eq!(layout.end_count(), 1);
    assert_eq!(layout.end_width(), 0);
    assert_eq!(layout.push_end(10), 88);
    assert_eq!(layout.end_count(), 2);
    assert_eq!(layout.end_width(), 12);
}

#[test]
fn gap_change_affects_later_pushes_only() {
    let mut layout = RowLayout::new(bounds());
    layout.set_gap(2);
    assert_eq!(layout.push_start(10), 0);
    layout.set_gap(5);
    assert_eq!(layout.push_start(10), 12);
    assert_eq!(layout.push_start(10), 27);
    assert_eq!(layout.start_width(), 30 + 2 * 5);
    layout.set_gap(0);
    assert_eq!(layout.start_width(), 30);
}

#[test]
fn negative_widths_and_gaps_are_taken_as_given() {
    let mut layout = RowLayout::new(bounds());
    layout.set_gap(-3);
    assert_eq!(layout.push_start(-10), 0);
    assert_eq!(layout.push_start(4), -13);
    assert_eq!(layout.start_width(), -6 - 3);
    assert_eq!(layout.push_end(-10), 110);
    assert_eq!(layout.push_end(4), 109);
    assert_eq!(layout.end_width(), -6 - 3);
}

#[test]
fn degenerate_bounds() {
    let mut layout = RowLayout::new(Rect { x: 7, y: 7, width: 0, height: 0 });
    assert_eq!(layout.push_start(5), 7);
    assert_eq!(layout.push_end(5), 2);
    assert_eq!(in_units(layout.set_center(4)), -2.0);
    let mut inverted = RowLayout::new(Rect { x: 7, y: 7, width: -4, height: -4 });
    assert_eq!(inverted.push_start(1), 7);
    assert_eq!(inverted.push_end(1), 2);
}

#[test]
fn coordinates_beyond_the_input_range() {
    let mut layout = RowLayout::new(Rect { x: i32::MAX, y: 0, width: i32::MAX, height: 1 });
    layout.set_gap(i32::MAX);
    let edge = i32::MAX as i128;
    assert_eq!(layout.push_end(i32::MIN), 2 * edge - i32::MIN as i128);
    assert_eq!(layout.push_start(i32::MAX), edge);
    assert_eq!(layout.push_start(i32::MAX), 3 * edge);
    assert_eq!(layout.push_start(i32::MAX), 5 * edge);
    assert_eq!(layout.start_width(), 5 * edge);
    let mut low = RowLayout::new(Rect { x: i32::MIN, y: 0, width: i32::MIN, height: 1 });
    low.set_gap(i32::MIN);
    assert_eq!(low.push_end(i32::MAX), 2 * (i32::MIN as i128) - edge);
    assert_eq!(low.push_end(i32::MAX), i32::MIN as i128 - 2 * edge);
}

#[test]
fn end_cursor_starts_at_the_right_edge() {
    let mut layout = RowLayout::new(Rect { x: 30, y: 0, width: 70, height: 10 });
    assert_eq!(layout.push_end(0), 100);
    assert_eq!(layout.push_start(0), 30);
}

#[test]
fn default_layout_is_the_empty_rectangle() {
    let mut layout = RowLayout::default();
    assert_eq!(layout.start_width(), 0);
    assert_eq!(layout.end_width(), 0);
    assert_eq!(layout.push_start(3), 0);
    assert_eq!(layout.push_end(3), -3);
    assert_eq!(layout.set_center(0).halves, 0);
}

#[test]
fn row_returns() {
    row();
}
