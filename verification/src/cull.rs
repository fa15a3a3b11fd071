//! Lifecycle culling: after movement, an entity whose `y` coordinate has
//! moved strictly past the field edge plus its own margin is dropped;
//! an entity exactly at the boundary is retained.

use vstd::prelude::*;

use crate::entity::Sprite;

verus! {

/// The entities of `s`, in order, whose `y` has not moved strictly below
/// `bound`.
pub open spec fn kept_below(s: Seq<Sprite>, bound: int) -> Seq<Sprite>
    decreases s.len(),
{
    if s.len() == 0 {
        s
    } else {
        let rest = kept_below(s.drop_last(), bound);
        if s.last().y <= bound {
            rest.push(s.last())
        } else {
            rest
        }
    }
}

/// Every retained entity was already present and is within the bound.
pub proof fn lemma_kept_below_membership(s: Seq<Sprite>, bound: int)
    ensures
        forall|e: Sprite| #[trigger]
            kept_below(s, bound).contains(e) ==> s.contains(e) && e.y <= bound,
    decreases s.len(),
{
    if s.len() > 0 {
        lemma_kept_below_membership(s.drop_last(), bound);
        assert forall|e: Sprite| #[trigger]
            kept_below(s, bound).contains(e) implies s.contains(e) && e.y <= bound by {
            let rest = kept_below(s.drop_last(), bound);
            if rest.contains(e) {
                let i = choose|i: int| 0 <= i < s.drop_last().len() && s.drop_last()[i] == e;
                assert(s[i] == e);
            } else {
                assert(e == s.last());
                assert(s[s.len() - 1] == e);
            }
        }
    }
}

/// Appending one entity and culling is culling and, when the entity is
/// within the bound, appending it.
pub proof fn lemma_kept_below_push(s: Seq<Sprite>, e: Sprite, bound: int)
    ensures
        kept_below(s.push(e), bound) == if e.y <= bound {
            kept_below(s, bound).push(e)
        } else {
            kept_below(s, bound)
        },
{
    assert(s.push(e).drop_last() =~= s);
    assert(s.push(e).last() == e);
}

/// Culling is idempotent: culling a second time with the same bound changes
/// nothing.
pub proof fn lemma_cull_idempotent(s: Seq<Sprite>, bound: int)
    ensures
        kept_below(kept_below(s, bound), bound) == kept_below(s, bound),
    decreases s.len(),
{
    if s.len() > 0 {
        let rest = kept_below(s.drop_last(), bound);
        lemma_cull_idempotent(s.drop_last(), bound);
        if s.last().y <= bound {
            lemma_kept_below_push(rest, s.last(), bound);
        }
    }
}

/// Drop every entity whose `y` lies strictly below `bound`; the order of the
/// survivors is kept.
pub fn cull_past(entities: &mut Vec<Sprite>, bound: i32)
    ensures
        final(entities)@ == kept_below(old(entities)@, bound as int),
{
    let mut kept: Vec<Sprite> = Vec::new();
    let n = entities.len();
    let mut i: usize = 0;
    while i < n
        invariant
            i <= n,
            n == entities@.len(),
            entities@ == old(entities)@,
            kept@ == kept_below(entities@.take(i as int), bound as int),
        decreases n - i,
    {
        let e = entities[i];
        proof {
            assert(entities@.take(i as int + 1).drop_last() =~= entities@.take(i as int));
            assert(entities@.take(i as int + 1).last() == entities@[i as int]);
        }
        if e.y <= bound {
            kept.push(e);
        }
        i = i + 1;
    }
    proof {
        assert(entities@.take(n as int) =~= entities@);
    }
    *entities = kept;
}

} // verus!
