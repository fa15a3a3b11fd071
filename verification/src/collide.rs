//! Collision resolution. Missiles are tested against monsters in firing
//! order: each missile removes every monster its bounding box overlaps, and
//! a missile survives only when it hit nothing and is still within the
//! vertical visible bound. The player is tested against the moved monsters
//! afterwards; any overlap ends the session.

use vstd::prelude::*;

use crate::config::MISSILE_HEIGHT;
use crate::config::MISSILE_WIDTH;
use crate::config::MONSTER_HEIGHT;
use crate::config::MONSTER_WIDTH;
use crate::config::PLAYER_HEIGHT;
use crate::config::PLAYER_WIDTH;
use crate::entity::Sprite;
use crate::entity::all_in_coord_box;
use crate::entity::bounding_box;
use crate::entity::in_coord_box;
use crate::entity::sprite_rect;
use crate::geom::Rect;
use crate::geom::intersects;
use crate::geom::overlaps;

verus! {

pub open spec fn missile_rect(m: Sprite) -> Rect {
    sprite_rect(m, MISSILE_WIDTH as int, MISSILE_HEIGHT as int)
}

pub open spec fn monster_rect(m: Sprite) -> Rect {
    sprite_rect(m, MONSTER_WIDTH as int, MONSTER_HEIGHT as int)
}

pub open spec fn player_rect(p: Sprite) -> Rect {
    sprite_rect(p, PLAYER_WIDTH as int, PLAYER_HEIGHT as int)
}

/// A missile hits a monster when their bounding boxes overlap in area.
pub open spec fn hits(missile: Sprite, monster: Sprite) -> bool {
    overlaps(missile_rect(missile), monster_rect(monster))
}

/// The missile hits at least one monster of the collection.
pub open spec fn hit_by(missile: Sprite, monsters: Seq<Sprite>) -> bool {
    exists|i: int| 0 <= i < monsters.len() && hits(missile, #[trigger] monsters[i])
}

/// The monsters the missile does not hit, in order.
pub open spec fn missed_by(missile: Sprite, monsters: Seq<Sprite>) -> Seq<Sprite>
    decreases monsters.len(),
{
    if monsters.len() == 0 {
        monsters
    } else {
        let rest = missed_by(missile, monsters.drop_last());
        if hits(missile, monsters.last()) {
            rest
        } else {
            rest.push(monsters.last())
        }
    }
}

/// The monsters left after every missile, in firing order, has removed the
/// monsters it hits.
pub open spec fn monsters_after(missiles: Seq<Sprite>, monsters: Seq<Sprite>) -> Seq<Sprite>
    decreases missiles.len(),
{
    if missiles.len() == 0 {
        monsters
    } else {
        monsters_after(missiles.drop_first(), missed_by(missiles[0], monsters))
    }
}

/// The missiles that survive resolution, in firing order: each is tested
/// against the monsters left by the missiles before it, and survives only
/// when it hits none of them and has not left the field upward.
pub open spec fn missiles_after(missiles: Seq<Sprite>, monsters: Seq<Sprite>) -> Seq<Sprite>
    decreases missiles.len(),
{
    if missiles.len() == 0 {
        missiles
    } else {
        let m = missiles[0];
        let rest = missiles_after(missiles.drop_first(), missed_by(m, monsters));
        if !hit_by(m, monsters) && m.y >= -MISSILE_HEIGHT {
            seq![m] + rest
        } else {
            rest
        }
    }
}

/// Every monster a missile missed was already present and is not hit by it.
pub proof fn lemma_missed_by_membership(missile: Sprite, monsters: Seq<Sprite>)
    ensures
        forall|e: Sprite| #[trigger]
            missed_by(missile, monsters).contains(e) ==> monsters.contains(e) && !hits(
                missile,
                e,
            ),
    decreases monsters.len(),
{
    if monsters.len() > 0 {
        lemma_missed_by_membership(missile, monsters.drop_last());
        assert forall|e: Sprite| #[trigger]
            missed_by(missile, monsters).contains(e) implies monsters.contains(e) && !hits(
            missile,
            e,
        ) by {
            let rest = missed_by(missile, monsters.drop_last());
            if rest.contains(e) {
                let i = choose|i: int|
                    0 <= i < monsters.drop_last().len() && monsters.drop_last()[i] == e;
                assert(monsters[i] == e);
            } else {
                assert(e == monsters.last());
                assert(monsters[monsters.len() - 1] == e);
            }
        }
    }
}

/// Every monster left after resolution was already in the collection.
pub proof fn lemma_monsters_after_membership(missiles: Seq<Sprite>, monsters: Seq<Sprite>)
    ensures
        forall|e: Sprite| #[trigger]
            monsters_after(missiles, monsters).contains(e) ==> monsters.contains(e),
    decreases missiles.len(),
{
    if missiles.len() > 0 {
        let missed = missed_by(missiles[0], monsters);
        lemma_monsters_after_membership(missiles.drop_first(), missed);
        lemma_missed_by_membership(missiles[0], monsters);
        assert(monsters_after(missiles, monsters) == monsters_after(
            missiles.drop_first(),
            missed,
        ));
        assert forall|e: Sprite| #[trigger]
            monsters_after(missiles, monsters).contains(e) implies monsters.contains(e) by {
            assert(monsters_after(missiles.drop_first(), missed).contains(e));
            assert(missed.contains(e));
        }
    }
}

/// Every surviving missile was fired, hit nothing it was tested against, and
/// is still within the vertical visible bound.
pub proof fn lemma_missiles_after_membership(missiles: Seq<Sprite>, monsters: Seq<Sprite>)
    ensures
        forall|e: Sprite| #[trigger]
            missiles_after(missiles, monsters).contains(e) ==> missiles.contains(e) && e.y
                >= -MISSILE_HEIGHT,
    decreases missiles.len(),
{
    if missiles.len() > 0 {
        let m = missiles[0];
        let missed = missed_by(m, monsters);
        lemma_missiles_after_membership(missiles.drop_first(), missed);
        assert forall|e: Sprite| #[trigger]
            missiles_after(missiles, monsters).contains(e) implies missiles.contains(e) && e.y
            >= -MISSILE_HEIGHT by {
            let rest = missiles_after(missiles.drop_first(), missed);
            let surv = missiles_after(missiles, monsters);
            let k = choose|k: int| 0 <= k < surv.len() && surv[k] == e;
            if !hit_by(m, monsters) && m.y >= -MISSILE_HEIGHT {
                if k == 0 {
                    assert(e == m);
                    assert(missiles[0] == e);
                } else {
                    assert(rest[k - 1] == e);
                    assert(rest.contains(e));
                }
            } else {
                assert(rest.contains(e));
            }
            if rest.contains(e) {
                let i = choose|i: int|
                    0 <= i < missiles.drop_first().len() && missiles.drop_first()[i] == e;
                assert(missiles[i + 1] == e);
            }
        }
    }
}

/// Resolution never leaves a monster in the collection that overlapped a
/// surviving missile's bounding box.
pub proof fn lemma_no_surviving_overlap(missiles: Seq<Sprite>, monsters: Seq<Sprite>)
    ensures
        forall|a: Sprite, b: Sprite|
            #[trigger] missiles_after(missiles, monsters).contains(a) && #[trigger] monsters_after(
                missiles,
                monsters,
            ).contains(b) ==> !hits(a, b),
    decreases missiles.len(),
{
    if missiles.len() > 0 {
        let m = missiles[0];
        let missed = missed_by(m, monsters);
        lemma_no_surviving_overlap(missiles.drop_first(), missed);
        lemma_monsters_after_membership(missiles.drop_first(), missed);
        lemma_missed_by_membership(m, monsters);
        assert forall|a: Sprite, b: Sprite|
            #[trigger] missiles_after(missiles, monsters).contains(a) && #[trigger] monsters_after(
                missiles,
                monsters,
            ).contains(b) implies !hits(a, b) by {
            let rest = missiles_after(missiles.drop_first(), missed);
            let surv = missiles_after(missiles, monsters);
            assert(monsters_after(missiles, monsters) == monsters_after(
                missiles.drop_first(),
                missed,
            ));
            assert(monsters_after(missiles.drop_first(), missed).contains(b));
            let k = choose|k: int| 0 <= k < surv.len() && surv[k] == a;
            if !hit_by(m, monsters) && m.y >= -MISSILE_HEIGHT {
                assert(surv == seq![m] + rest);
                if k == 0 {
                    assert(a == m);
                    // The final monsters come from `missed`, a subset of the
                    // monsters `m` was tested against and found clear of.
                    assert(missed.contains(b));
                    assert(monsters.contains(b));
                    let j = choose|j: int| 0 <= j < monsters.len() && monsters[j] == b;
                    assert(!hits(m, monsters[j]));
                } else {
                    assert(rest[k - 1] == a);
                    assert(rest.contains(a));
                }
            } else {
                assert(surv == rest);
                assert(rest.contains(a));
            }
        }
    }
}

/// Overlap test between one missile and one monster, on bounding boxes.
pub fn missile_hits_monster(missile: Sprite, monster: Sprite) -> (r: bool)
    requires
        in_coord_box(missile),
        in_coord_box(monster),
    ensures
        r == hits(missile, monster),
{
    let a = bounding_box(missile, MISSILE_WIDTH, MISSILE_HEIGHT);
    let b = bounding_box(monster, MONSTER_WIDTH, MONSTER_HEIGHT);
    intersects(a, b)
}

/// Does the missile hit any monster of the collection?
fn any_hit(missile: Sprite, monsters: &Vec<Sprite>) -> (r: bool)
    requires
        in_coord_box(missile),
        all_in_coord_box(monsters@),
    ensures
        r == hit_by(missile, monsters@),
{
    let n = monsters.len();
    let mut i: usize = 0;
    while i < n
        invariant
            i <= n,
            n == monsters@.len(),
            in_coord_box(missile),
            all_in_coord_box(monsters@),
            forall|j: int| 0 <= j < i ==> !hits(missile, #[trigger] monsters@[j]),
        decreases n - i,
    {
        if missile_hits_monster(missile, monsters[i]) {
            return true;
        }
        i = i + 1;
    }
    false
}

/// Remove every monster the missile hits, in place, keeping the order of the
/// survivors.
fn remove_hit(missile: Sprite, monsters: &mut Vec<Sprite>)
    requires
        in_coord_box(missile),
        all_in_coord_box(old(monsters)@),
    ensures
        final(monsters)@ == missed_by(missile, old(monsters)@),
        all_in_coord_box(final(monsters)@),
{
    let mut kept: Vec<Sprite> = Vec::new();
    let n = monsters.len();
    let mut i: usize = 0;
    while i < n
        invariant
            i <= n,
            n == monsters@.len(),
            monsters@ == old(monsters)@,
            in_coord_box(missile),
            all_in_coord_box(monsters@),
            all_in_coord_box(kept@),
            kept@ == missed_by(missile, monsters@.take(i as int)),
        decreases n - i,
    {
        let e = monsters[i];
        proof {
            assert(monsters@.take(i as int + 1).drop_last() =~= monsters@.take(i as int));
            assert(monsters@.take(i as int + 1).last() == monsters@[i as int]);
        }
        if !missile_hits_monster(missile, e) {
            kept.push(e);
        }
        i = i + 1;
    }
    proof {
        assert(monsters@.take(n as int) =~= monsters@);
    }
    *monsters = kept;
}

/// One resolution pass: each missile, in firing order, removes the monsters
/// it hits; the missile itself is kept only when it hit nothing and is still
/// within the vertical visible bound. Hit removal and the missiles' own
/// cull are one combined filter.
pub fn resolve_missiles(missiles: &mut Vec<Sprite>, monsters: &mut Vec<Sprite>)
    requires
        all_in_coord_box(old(missiles)@),
        all_in_coord_box(old(monsters)@),
    ensures
        final(missiles)@ == missiles_after(old(missiles)@, old(monsters)@),
        final(monsters)@ == monsters_after(old(missiles)@, old(monsters)@),
        all_in_coord_box(final(monsters)@),
{
    let ghost orig_missiles = missiles@;
    let ghost orig_monsters = monsters@;
    let mut kept: Vec<Sprite> = Vec::new();
    let n = missiles.len();
    let mut i: usize = 0;
    proof {
        assert(missiles@.skip(0) =~= missiles@);
        assert(Seq::<Sprite>::empty() + missiles_after(missiles@, monsters@) =~= missiles_after(
            missiles@,
            monsters@,
        ));
    }
    while i < n
        invariant
            i <= n,
            n == missiles@.len(),
            missiles@ == orig_missiles,
            all_in_coord_box(missiles@),
            all_in_coord_box(monsters@),
            all_in_coord_box(kept@),
            missiles_after(orig_missiles, orig_monsters) == kept@ + missiles_after(
                missiles@.skip(i as int),
                monsters@,
            ),
            monsters_after(orig_missiles, orig_monsters) == monsters_after(
                missiles@.skip(i as int),
                monsters@,
            ),
        decreases n - i,
    {
        let ghost pre_monsters = monsters@;
        let ghost pre_kept = kept@;
        let m = missiles[i];
        let was_hit = any_hit(m, monsters);
        remove_hit(m, monsters);
        if !was_hit && m.y >= -MISSILE_HEIGHT {
            kept.push(m);
        }
        proof {
            let s = missiles@.skip(i as int);
            assert(s.len() == n - i);
            assert(s[0] == missiles@[i as int]);
            assert(s.drop_first() =~= missiles@.skip(i as int + 1));
            let missed = missed_by(m, pre_monsters);
            assert(monsters@ == missed);
            let rest = missiles_after(missiles@.skip(i as int + 1), monsters@);
            assert(missiles_after(s.drop_first(), missed) == rest);
            assert(monsters_after(s, pre_monsters) == monsters_after(
                missiles@.skip(i as int + 1),
                monsters@,
            ));
            if !was_hit && m.y >= -MISSILE_HEIGHT {
                assert(missiles_after(s, pre_monsters) == seq![m] + rest);
                assert(kept@ == pre_kept.push(m));
                assert(pre_kept + (seq![m] + rest) =~= pre_kept.push(m) + rest);
            } else {
                assert(missiles_after(s, pre_monsters) == rest);
            }
        }
        i = i + 1;
    }
    proof {
        assert(missiles@.skip(n as int) =~= Seq::<Sprite>::empty());
        assert(kept@ + missiles_after(missiles@.skip(n as int), monsters@) =~= kept@);
    }
    *missiles = kept;
}

/// Does the player's bounding box overlap any monster's?
pub open spec fn player_overlaps_any(player: Sprite, monsters: Seq<Sprite>) -> bool {
    exists|i: int|
        0 <= i < monsters.len() && overlaps(player_rect(player), monster_rect(#[trigger] monsters[i]))
}

/// Test the player against every live monster; the first overlap found ends
/// the scan.
pub fn player_hit(player: Sprite, monsters: &Vec<Sprite>) -> (r: bool)
    requires
        in_coord_box(player),
        all_in_coord_box(monsters@),
    ensures
        r == player_overlaps_any(player, monsters@),
{
    let p = bounding_box(player, PLAYER_WIDTH, PLAYER_HEIGHT);
    let n = monsters.len();
    let mut i: usize = 0;
    while i < n
        invariant
            i <= n,
            n == monsters@.len(),
            in_coord_box(player),
            all_in_coord_box(monsters@),
            p == player_rect(player),
            forall|j: int|
                0 <= j < i ==> !overlaps(player_rect(player), monster_rect(#[trigger] monsters@[j])),
        decreases n - i,
    {
        let b = bounding_box(monsters[i], MONSTER_WIDTH, MONSTER_HEIGHT);
        if intersects(p, b) {
            return true;
        }
        i = i + 1;
    }
    false
}

} // verus!
