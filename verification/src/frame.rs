//! From the visible bounds of a window to the rectangle the OS positions.
//!
//! The OS places a window by its full rectangle, which includes an invisible
//! resize border around what the user sees. To put the visible part exactly on
//! a target, the target is widened by that border: the difference between the
//! window rectangle and the visible frame bounds as the OS reports them, or a
//! default border when the OS reports none.

use vstd::prelude::*;
use crate::rect::{Rect, fits_i32};

verus! {

/// Default border on the left when the OS reports no frame bounds.
pub const DEFAULT_FRAME_LEFT: i32 = 8;

/// Default border on the top (title bar included).
pub const DEFAULT_FRAME_TOP: i32 = 31;

/// Default border on the right.
pub const DEFAULT_FRAME_RIGHT: i32 = 8;

/// Default border at the bottom.
pub const DEFAULT_FRAME_BOTTOM: i32 = 8;

/// The borders (left, top, right, bottom) between a window rectangle `w` and
/// its visible frame bounds `f`.
pub open spec fn borders_spec(w: Rect, f: Rect) -> (int, int, int, int) {
    (f.left - w.left, f.top - w.top, w.right - f.right, w.bottom - f.bottom)
}

/// The window rectangle that shows `visible` as its visible part: `visible`
/// widened by the borders of `frame` (the window rectangle and the frame
/// bounds the OS reported), or by the default borders when it reported none.
pub open spec fn outset_spec(visible: Rect, frame: Option<(Rect, Rect)>) -> Rect {
    let (bl, bt, br, bb) = match frame {
        Some((w, f)) => borders_spec(w, f),
        None => (
            DEFAULT_FRAME_LEFT as int,
            DEFAULT_FRAME_TOP as int,
            DEFAULT_FRAME_RIGHT as int,
            DEFAULT_FRAME_BOTTOM as int,
        ),
    };
    Rect {
        left: (visible.left - bl) as i32,
        top: (visible.top - bt) as i32,
        right: (visible.right + br) as i32,
        bottom: (visible.bottom + bb) as i32,
    }
}

/// The borders and the widened rectangle stay within `i32`.
pub open spec fn outset_fits(visible: Rect, frame: Option<(Rect, Rect)>) -> bool {
    let (bl, bt, br, bb) = match frame {
        Some((w, f)) => borders_spec(w, f),
        None => (
            DEFAULT_FRAME_LEFT as int,
            DEFAULT_FRAME_TOP as int,
            DEFAULT_FRAME_RIGHT as int,
            DEFAULT_FRAME_BOTTOM as int,
        ),
    };
    &&& fits_i32(bl) && fits_i32(bt) && fits_i32(br) && fits_i32(bb)
    &&& fits_i32(visible.left - bl) && fits_i32(visible.top - bt)
    &&& fits_i32(visible.right + br) && fits_i32(visible.bottom + bb)
}

/// The rectangle to give the OS so that the window's visible part is
/// `visible`; `frame` is (window rectangle, visible frame bounds) when the OS
/// reported both.
pub fn window_rect_for_visible_bounds(visible: Rect, frame: Option<(Rect, Rect)>) -> (r: Rect)
    requires
        outset_fits(visible, frame),
    ensures
        r == outset_spec(visible, frame),
{
    match frame {
        Some((w, f)) => {
            let border_left = f.left - w.left;
            let border_top = f.top - w.top;
            let border_right = w.right - f.right;
            let border_bottom = w.bottom - f.bottom;
            Rect {
                left: visible.left - border_left,
                top: visible.top - border_top,
                right: visible.right + border_right,
                bottom: visible.bottom + border_bottom,
            }
        },
        None => Rect {
            left: visible.left - DEFAULT_FRAME_LEFT,
            top: visible.top - DEFAULT_FRAME_TOP,
            right: visible.right + DEFAULT_FRAME_RIGHT,
            bottom: visible.bottom + DEFAULT_FRAME_BOTTOM,
        },
    }
}

fn fits(x: i64) -> (r: bool)
    ensures
        r == fits_i32(x as int),
{
    -2147483648i64 <= x && x <= 2147483647i64
}

/// Whether `window_rect_for_visible_bounds` can compute its answer within
/// `i32` for these arguments.
pub fn outset_in_range(visible: Rect, frame: Option<(Rect, Rect)>) -> (b: bool)
    ensures
        b == outset_fits(visible, frame),
{
    let (bl, bt, br, bb): (i64, i64, i64, i64) = match frame {
        Some((w, f)) => (
            f.left as i64 - w.left as i64,
            f.top as i64 - w.top as i64,
            w.right as i64 - f.right as i64,
            w.bottom as i64 - f.bottom as i64,
        ),
        None => (
            DEFAULT_FRAME_LEFT as i64,
            DEFAULT_FRAME_TOP as i64,
            DEFAULT_FRAME_RIGHT as i64,
            DEFAULT_FRAME_BOTTOM as i64,
        ),
    };
    if !(fits(bl) && fits(bt) && fits(br) && fits(bb)) {
        return false;
    }
    fits(visible.left as i64 - bl) && fits(visible.top as i64 - bt) && fits(
        visible.right as i64 + br,
    ) && fits(visible.bottom as i64 + bb)
}

/// With the borders the OS reported, the visible part of the returned
/// rectangle is exactly `visible`: taking the same borders off again gives
/// `visible` back, and the size grows by exactly the borders.
pub proof fn lemma_outset_shows_visible(visible: Rect, w: Rect, f: Rect)
    requires
        outset_fits(visible, Some((w, f))),
    ensures
        ({
            let r = outset_spec(visible, Some((w, f)));
            let (bl, bt, br, bb) = borders_spec(w, f);
            &&& r.left + bl == visible.left
            &&& r.top + bt == visible.top
            &&& r.right - br == visible.right
            &&& r.bottom - bb == visible.bottom
            &&& r.spec_width() == visible.spec_width() + bl + br
            &&& r.spec_height() == visible.spec_height() + bt + bb
        }),
{
}

/// Without frame bounds from the OS, the window rectangle is the visible
/// bounds widened by 8 on the left, right and bottom and by 31 on top.
pub proof fn lemma_default_frame(visible: Rect)
    requires
        outset_fits(visible, None),
    ensures
        outset_spec(visible, None).left == visible.left - 8,
        outset_spec(visible, None).top == visible.top - 31,
        outset_spec(visible, None).right == visible.right + 8,
        outset_spec(visible, None).bottom == visible.bottom + 8,
{
}

} // verus!
