//! Axis-aligned rectangles and their overlap test. Every collision and every
//! bounding box of the simulation goes through these definitions.

use vstd::prelude::*;

verus! {

/// An axis-aligned rectangle: top-left corner `(x, y)` and extent `(w, h)`.
#[derive(Clone, Copy, Debug, PartialEq, Eq, Structural)]
pub struct Rect {
    pub x: i32,
    pub y: i32,
    pub w: i32,
    pub h: i32,
}

pub open spec fn rect_right(r: Rect) -> int {
    r.x + r.w
}

pub open spec fn rect_bottom(r: Rect) -> int {
    r.y + r.h
}

/// Two rectangles overlap when they share area on both axes; rectangles that
/// merely touch along an edge or at a corner do not overlap.
pub open spec fn overlaps(a: Rect, b: Rect) -> bool {
    &&& a.x < rect_right(b)
    &&& b.x < rect_right(a)
    &&& a.y < rect_bottom(b)
    &&& b.y < rect_bottom(a)
}

/// Overlap test on whole rectangles; edge computation is widened to `i64`, so
/// any pair of rectangles may be tested.
pub fn intersects(a: Rect, b: Rect) -> (r: bool)
    ensures
        r == overlaps(a, b),
{
    let a_right: i64 = a.x as i64 + a.w as i64;
    let b_right: i64 = b.x as i64 + b.w as i64;
    let a_bottom: i64 = a.y as i64 + a.h as i64;
    let b_bottom: i64 = b.y as i64 + b.h as i64;
    (a.x as i64) < b_right && (b.x as i64) < a_right && (a.y as i64) < b_bottom
        && (b.y as i64) < a_bottom
}

/// Overlap of rectangles is symmetric.
pub proof fn lemma_overlaps_symmetric(a: Rect, b: Rect)
    ensures
        overlaps(a, b) == overlaps(b, a),
{
}

/// The rectangle of extent `(width, height)` whose center is `(x, y)`.
pub fn centered_at(x: i32, y: i32, width: i32, height: i32) -> (r: Rect)
    requires
        0 <= width,
        0 <= height,
        i32::MIN <= x - width / 2,
        i32::MIN <= y - height / 2,
    ensures
        r.x == x - width / 2,
        r.y == y - height / 2,
        r.w == width,
        r.h == height,
{
    Rect { x: x - width / 2, y: y - height / 2, w: width, h: height }
}

} // verus!
