//! Axis-aligned rectangles in screen coordinates, with the strict-overlap
//! intersection test that every collision check in the simulation uses.

use vstd::prelude::*;

verus! {

/// Mathematical model of a rectangle: top-left corner and extent, as
/// unbounded integers.
pub ghost struct RectV {
    pub x: int,
    pub y: int,
    pub w: int,
    pub h: int,
}

/// Axis-aligned rectangle. `x`/`y` is the top-left corner; `y` grows
/// downward. `width` and `height` are unsigned, so they are never negative.
#[derive(Clone, Copy, PartialEq, Eq, Structural, Debug)]
pub struct Rect {
    pub x: i64,
    pub y: i64,
    pub width: u32,
    pub height: u32,
}

impl View for Rect {
    type V = RectV;

    open spec fn view(&self) -> RectV {
        RectV { x: self.x as int, y: self.y as int, w: self.width as int, h: self.height as int }
    }
}

/// Two rectangles intersect iff they overlap by a strictly positive amount
/// on both axes. Touching edges are a miss, and a zero-size rectangle
/// intersects nothing.
pub open spec fn rects_intersect(a: RectV, b: RectV) -> bool {
    &&& 0 < a.w
    &&& 0 < a.h
    &&& 0 < b.w
    &&& 0 < b.h
    &&& a.x < b.x + b.w
    &&& b.x < a.x + a.w
    &&& a.y < b.y + b.h
    &&& b.y < a.y + a.h
}

/// The rectangle's coordinates lie in `[-bound, bound]` and its extent in
/// `[0, bound]`.
pub open spec fn rect_within(r: RectV, bound: int) -> bool {
    &&& -bound <= r.x <= bound
    &&& -bound <= r.y <= bound
    &&& r.w <= bound
    &&& r.h <= bound
}

impl Rect {
    pub fn new(x: i64, y: i64, width: u32, height: u32) -> (r: Rect)
        ensures
            r@ == (RectV { x: x as int, y: y as int, w: width as int, h: height as int }),
    {
        Rect { x, y, width, height }
    }

    /// Strict-overlap intersection test. The coordinate bound keeps the
    /// corner sums within `i64`.
    pub fn intersects(&self, other: &Rect) -> (r: bool)
        requires
            rect_within(self@, 0x1000_0000_0000_0000),
            rect_within(other@, 0x1000_0000_0000_0000),
        ensures
            r == rects_intersect(self@, other@),
    {
        0 < self.width && 0 < self.height && 0 < other.width && 0 < other.height
            && self.x < other.x + other.width as i64 && other.x < self.x + self.width as i64
            && self.y < other.y + other.height as i64 && other.y < self.y + self.height as i64
    }
}

} // verus!
