//! Movement integration: each tick, every live entity of a collection is
//! translated by its kind's fixed signed vertical velocity. Purely additive;
//! no bounds clamping happens here.

use vstd::prelude::*;

use crate::entity::Sprite;
use crate::entity::all_in_coord_box;

verus! {

/// The collection with every entity translated vertically by `dy`.
pub open spec fn shifted_y(s: Seq<Sprite>, dy: int) -> Seq<Sprite> {
    Seq::new(s.len(), |i: int| Sprite { x: s[i].x, y: (s[i].y + dy) as i32 })
}

/// Add `dy` to the `y` coordinate of every entity, in place; `x` coordinates
/// and order are untouched.
pub fn translate_y(entities: &mut Vec<Sprite>, dy: i32)
    requires
        -1000 <= dy <= 1000,
        all_in_coord_box(old(entities)@),
    ensures
        final(entities)@ == shifted_y(old(entities)@, dy as int),
{
    let n = entities.len();
    let mut moved: Vec<Sprite> = Vec::new();
    let mut i: usize = 0;
    while i < n
        invariant
            i <= n,
            n == entities@.len(),
            entities@ == old(entities)@,
            all_in_coord_box(entities@),
            -1000 <= dy <= 1000,
            moved@.len() == i,
            forall|j: int| 0 <= j < i ==> moved@[j] == shifted_y(entities@, dy as int)[j],
        decreases n - i,
    {
        let e = entities[i];
        moved.push(Sprite { x: e.x, y: e.y + dy });
        i = i + 1;
    }
    proof {
        assert(moved@ =~= shifted_y(entities@, dy as int));
    }
    *entities = moved;
}

} // verus!
