use rectanglewin::frame::{outset_in_range, window_rect_for_visible_bounds};
use rectanglewin::rect::Rect;

fn r(left: i32, top: i32, right: i32, bottom: i32) -> Rect {
    Rect { left, top, right, bottom }
}

#[test]
fn visible_bounds_are_widened_by_the_reported_frame() {
    // Window rectangle 7 px wider than the visible frame on left, right and bottom.
    let window = r(93, 200, 1007, 907);
    let frame = r(100, 200, 1000, 900);
    let visible = r(0, 0, 960, 1040);
    assert!(outset_in_range(visible, Some((window, frame))));
    assert_eq!(window_rect_for_visible_bounds(visible, Some((window, frame))), r(-7, 0, 967, 1047));
}

#[test]
fn visible_bounds_use_the_default_frame_without_a_report() {
    let visible = r(0, 0, 960, 1040);
    assert!(outset_in_range(visible, None));
    assert_eq!(window_rect_for_visible_bounds(visible, None), r(-8, -31, 968, 1048));
}

#[test]
fn widening_that_overflows_is_reported() {
    assert!(!outset_in_range(r(i32::MIN, 0, 0, 0), None));
    assert!(!outset_in_range(r(0, 0, i32::MAX, 0), None));
    assert!(!outset_in_range(r(0, 0, 10, 10), Some((r(i32::MIN, 0, 0, 0), r(1, 0, 0, 0)))));
}
