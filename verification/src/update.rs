//! One soldier's whole tick: bounds, movement, collisions, drag, then its move.

use vstd::prelude::*;
use crate::army::{ages, army_wf, evolves, lemma_evolves_transitive};
use crate::combat::{act, lemma_act_keeps, spec_act};
use crate::physics::{collide_all, lemma_collide_all_keeps, same_soldier_but_velocity,
    spec_collide_all};
use crate::soldier::{Soldier, DRAG};

verus! {

/// The army after soldier `me` has turned back from the bounds and moved on.
pub open spec fn spec_march(army: Seq<Soldier>, me: int) -> Seq<Soldier> {
    army.update(me, army[me].spec_rebound().spec_advance())
}

/// The army after soldier `me` has lost the usual share of its velocity.
pub open spec fn spec_drag(army: Seq<Soldier>, me: int) -> Seq<Soldier> {
    army.update(me, army[me].spec_slowed(DRAG))
}

/// The army after soldier `me` has lived through one tick. A dead soldier
/// changes nothing. A living one is turned back inward if it has left the arena,
/// moves on, repels and is repelled by every living soldier it overlaps, loses
/// some of its velocity, and then makes its move, for which `draw` supplies the
/// chance. Later soldiers of the same tick see what earlier ones have done.
pub open spec fn spec_update(army: Seq<Soldier>, me: int, draw: u32) -> Seq<Soldier> {
    if army[me].dead() {
        army
    } else {
        let marched = spec_march(army, me);
        let pushed = spec_collide_all(marched, me, marched.len() as int);
        spec_act(spec_drag(pushed, me), me, draw)
    }
}

/// A soldier's tick keeps the army well formed, and only ages it.
pub proof fn lemma_update_keeps(army: Seq<Soldier>, me: int, draw: u32)
    requires
        army_wf(army),
        0 <= me < army.len(),
    ensures
        army_wf(spec_update(army, me, draw)),
        evolves(army, spec_update(army, me, draw)),
{
    if army[me].alive() {
        let marched = spec_march(army, me);
        assert(army[me].spec_rebound().spec_advance().wf());
        assert(army_wf(marched));
        assert(evolves(army, marched));
        lemma_collide_all_keeps(marched, me, marched.len() as int);
        let pushed = spec_collide_all(marched, me, marched.len() as int);
        assert forall|i: int| 0 <= i < marched.len() implies ages(
            #[trigger] marched[i],
            pushed[i],
        ) by {
            assert(same_soldier_but_velocity(marched[i], pushed[i]));
        }
        let dragged = spec_drag(pushed, me);
        assert(army_wf(dragged));
        assert(evolves(pushed, dragged));
        lemma_act_keeps(dragged, me, draw);
        let acted = spec_act(dragged, me, draw);
        lemma_evolves_transitive(army, marched, pushed);
        lemma_evolves_transitive(army, pushed, dragged);
        lemma_evolves_transitive(army, dragged, acted);
    }
}

impl Soldier {
    /// Takes soldier `me` of the army through one tick, with `draw` as the chance
    /// in its move.
    pub fn update(army: &mut Vec<Soldier>, me: usize, draw: u32)
        requires
            army_wf(old(army)@),
            me < old(army).len(),
        ensures
            final(army)@ == spec_update(old(army)@, me as int, draw),
            army_wf(final(army)@),
            evolves(old(army)@, final(army)@),
    {
        proof {
            lemma_update_keeps(army@, me as int, draw);
        }
        let mut own: Soldier = army[me];
        if own.alive() {
            own.rebound();
            own.advance();
            army[me] = own;
            assert(army@ =~= spec_march(old(army)@, me as int));
            collide_all(army, me);
            let mut own: Soldier = army[me];
            own.slow(DRAG);
            army[me] = own;
            act(army, me, draw);
        }
    }
}

} // verus!
