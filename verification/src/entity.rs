//! The entity data model: a sprite is the center point of its bounding box,
//! in playfield pixel coordinates. Its kind (player, monster, missile, star)
//! is implicit from which collection holds it; each kind has a fixed extent
//! used only when a bounding box is taken.

use vstd::prelude::*;

use crate::config::COORD_BOUND;
use crate::geom::Rect;
use crate::geom::centered_at;

verus! {

/// A live entity: the center of its bounding box, in playfield pixels.
#[derive(Clone, Copy, Debug, PartialEq, Eq, Structural)]
pub struct Sprite {
    pub x: i32,
    pub y: i32,
}

impl Sprite {
    pub fn new(x: i32, y: i32) -> (s: Sprite)
        ensures
            s.x == x,
            s.y == y,
    {
        Sprite { x, y }
    }
}

/// The bounding box of a sprite of extent `w` by `h`: centered on the
/// sprite's position, never corner-anchored.
pub open spec fn sprite_rect(s: Sprite, w: int, h: int) -> Rect {
    Rect { x: (s.x - w / 2) as i32, y: (s.y - h / 2) as i32, w: w as i32, h: h as i32 }
}

/// Both coordinates stay within the generous simulation bound; every live
/// entity satisfies this, which rules out arithmetic overflow in moves and
/// bounding boxes.
pub open spec fn in_coord_box(s: Sprite) -> bool {
    &&& -COORD_BOUND <= s.x <= COORD_BOUND
    &&& -COORD_BOUND <= s.y <= COORD_BOUND
}

pub open spec fn all_in_coord_box(s: Seq<Sprite>) -> bool {
    forall|i: int| 0 <= i < s.len() ==> in_coord_box(#[trigger] s[i])
}

/// The bounding box of a bounded sprite, as an executable value.
pub fn bounding_box(s: Sprite, w: i32, h: i32) -> (r: Rect)
    requires
        0 <= w <= 1000,
        0 <= h <= 1000,
        in_coord_box(s),
    ensures
        r == sprite_rect(s, w as int, h as int),
{
    centered_at(s.x, s.y, w, h)
}

} // verus!
