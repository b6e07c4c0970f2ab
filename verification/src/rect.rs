//! Rectangles in screen coordinates: the one handed to and from the OS
//! (`Rect`) and the one the layout engine computes with (`EngineRect`).

use vstd::prelude::*;

verus! {

/// Absolute value over the integers.
pub open spec fn abs_int(x: int) -> int {
    if x < 0 { -x } else { x }
}

/// True when `x` fits in an `i32`.
pub open spec fn fits_i32(x: int) -> bool {
    i32::MIN <= x <= i32::MAX
}

/// Screen rectangle (left, top, right, bottom) in screen coordinates.
#[derive(Clone, Copy, Debug, PartialEq, Eq, Structural)]
pub struct Rect {
    pub left: i32,
    pub top: i32,
    pub right: i32,
    pub bottom: i32,
}

impl Default for Rect {
    fn default() -> (r: Self)
        ensures
            r == (Rect { left: 0, top: 0, right: 0, bottom: 0 }),
    {
        Rect { left: 0, top: 0, right: 0, bottom: 0 }
    }
}

impl Rect {
    /// Horizontal extent as a mathematical integer.
    pub open spec fn spec_width(self) -> int {
        self.right - self.left
    }

    /// Vertical extent as a mathematical integer.
    pub open spec fn spec_height(self) -> int {
        self.bottom - self.top
    }

    /// All four coordinates are zero (the "no rectangle" value).
    pub open spec fn spec_is_empty(self) -> bool {
        self.left == 0 && self.top == 0 && self.right == 0 && self.bottom == 0
    }

    /// Every coordinate of `self` lies within `tolerance` of the one of `other`.
    pub open spec fn spec_approximately_equals(self, other: Rect, tolerance: int) -> bool {
        &&& abs_int(self.left - other.left) <= tolerance
        &&& abs_int(self.top - other.top) <= tolerance
        &&& abs_int(self.right - other.right) <= tolerance
        &&& abs_int(self.bottom - other.bottom) <= tolerance
    }

    /// The coordinate differences between two rectangles can be taken and made
    /// non-negative in `i32` without overflow.
    pub open spec fn differences_fit(self, other: Rect) -> bool {
        &&& i32::MIN < self.left - other.left <= i32::MAX
        &&& i32::MIN < self.top - other.top <= i32::MAX
        &&& i32::MIN < self.right - other.right <= i32::MAX
        &&& i32::MIN < self.bottom - other.bottom <= i32::MAX
    }

    pub fn width(&self) -> (w: i32)
        requires
            fits_i32(self.spec_width()),
        ensures
            w == self.spec_width(),
    {
        self.right - self.left
    }

    pub fn height(&self) -> (h: i32)
        requires
            fits_i32(self.spec_height()),
        ensures
            h == self.spec_height(),
    {
        self.bottom - self.top
    }

    pub fn is_empty(&self) -> (b: bool)
        ensures
            b == self.spec_is_empty(),
    {
        self.left == 0 && self.top == 0 && self.right == 0 && self.bottom == 0
    }

    /// True if this rect matches `other` within `tolerance` on every edge
    /// (used to tell whether a window is still where it was snapped).
    pub fn approximately_equals(&self, other: &Rect, tolerance: i32) -> (b: bool)
        requires
            self.differences_fit(*other),
        ensures
            b == self.spec_approximately_equals(*other, tolerance as int),
    {
        abs_i32(self.left - other.left) <= tolerance
            && abs_i32(self.top - other.top) <= tolerance
            && abs_i32(self.right - other.right) <= tolerance
            && abs_i32(self.bottom - other.bottom) <= tolerance
    }
}

/// Absolute value of an `i32` other than `i32::MIN`.
pub fn abs_i32(x: i32) -> (r: i32)
    requires
        x > i32::MIN,
    ensures
        r == abs_int(x as int),
{
    if x < 0 {
        -x
    } else {
        x
    }
}

/// Rectangle the layout engine computes with.
#[derive(Clone, Copy, Debug, PartialEq, Eq, Structural)]
pub struct EngineRect {
    pub left: i32,
    pub top: i32,
    pub right: i32,
    pub bottom: i32,
}

impl Default for EngineRect {
    fn default() -> (r: Self)
        ensures
            r == (EngineRect { left: 0, top: 0, right: 0, bottom: 0 }),
    {
        EngineRect { left: 0, top: 0, right: 0, bottom: 0 }
    }
}

impl EngineRect {
    pub open spec fn spec_width(self) -> int {
        self.right - self.left
    }

    pub open spec fn spec_height(self) -> int {
        self.bottom - self.top
    }

    pub open spec fn spec_is_empty(self) -> bool {
        self.left == 0 && self.top == 0 && self.right == 0 && self.bottom == 0
    }

    /// The engine rectangle with the same coordinates as `r`.
    pub open spec fn spec_from_rect(r: Rect) -> EngineRect {
        EngineRect { left: r.left, top: r.top, right: r.right, bottom: r.bottom }
    }

    /// The OS rectangle with the same coordinates as `self`.
    pub open spec fn spec_to_rect(self) -> Rect {
        Rect { left: self.left, top: self.top, right: self.right, bottom: self.bottom }
    }

    pub fn width(&self) -> (w: i32)
        requires
            fits_i32(self.spec_width()),
        ensures
            w == self.spec_width(),
    {
        self.right - self.left
    }

    pub fn height(&self) -> (h: i32)
        requires
            fits_i32(self.spec_height()),
        ensures
            h == self.spec_height(),
    {
        self.bottom - self.top
    }

    pub fn is_empty(&self) -> (b: bool)
        ensures
            b == self.spec_is_empty(),
    {
        self.left == 0 && self.top == 0 && self.right == 0 && self.bottom == 0
    }

    pub fn from_rect(r: &Rect) -> (e: Self)
        ensures
            e == Self::spec_from_rect(*r),
    {
        EngineRect { left: r.left, top: r.top, right: r.right, bottom: r.bottom }
    }

    pub fn to_rect(&self) -> (r: Rect)
        ensures
            r == self.spec_to_rect(),
    {
        Rect { left: self.left, top: self.top, right: self.right, bottom: self.bottom }
    }
}

impl From<Rect> for EngineRect {
    fn from(r: Rect) -> (e: Self) {
        Self::from_rect(&r)
    }
}

impl vstd::std_specs::convert::FromSpecImpl<Rect> for EngineRect {
    open spec fn obeys_from_spec() -> bool {
        true
    }

    open spec fn from_spec(r: Rect) -> EngineRect {
        EngineRect::spec_from_rect(r)
    }
}

impl From<EngineRect> for Rect {
    fn from(r: EngineRect) -> (o: Self) {
        r.to_rect()
    }
}

impl vstd::std_specs::convert::FromSpecImpl<EngineRect> for Rect {
    open spec fn obeys_from_spec() -> bool {
        true
    }

    open spec fn from_spec(r: EngineRect) -> Rect {
        r.spec_to_rect()
    }
}

/// Converting an OS rectangle to an engine rectangle and back gives the
/// rectangle one started with, and the other way round.
pub proof fn lemma_rect_conversions_round_trip(r: Rect, e: EngineRect)
    ensures
        EngineRect::spec_from_rect(r).spec_to_rect() == r,
        EngineRect::spec_from_rect(e.spec_to_rect()) == e,
{
}

} // verus!
