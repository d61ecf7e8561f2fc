//! What holds of the whole army, and of any two of its states in time.

use vstd::prelude::*;
use crate::soldier::Soldier;

verus! {

/// Soldier `i` has its place in the army: it is well formed, its handle is `i`,
/// and whoever its state refers to is another soldier of the army.
pub open spec fn in_ranks(army: Seq<Soldier>, i: int) -> bool {
    &&& army[i].wf()
    &&& army[i].id == i
    &&& match army[i].state.opponent() {
        Some(h) => h < army.len() && h != i,
        None => true,
    }
}

/// The invariant of an army: every soldier has its place in it.
pub open spec fn army_wf(army: Seq<Soldier>) -> bool {
    forall|i: int| #![trigger army[i]] 0 <= i < army.len() ==> in_ranks(army, i)
}

/// What time may do to one soldier: handle, class, side and level stay, health
/// never grows, and a dead soldier does not change at all.
pub open spec fn ages(before: Soldier, after: Soldier) -> bool {
    &&& after.id == before.id
    &&& after.legion == before.legion
    &&& after.team == before.team
    &&& after.level == before.level
    &&& after.health <= before.health
    &&& before.dead() ==> after == before
}

/// What time may do to an army: no soldier joins or leaves, and each one ages.
pub open spec fn evolves(before: Seq<Soldier>, after: Seq<Soldier>) -> bool {
    &&& after.len() == before.len()
    &&& forall|i: int| 0 <= i < before.len() ==> ages(#[trigger] before[i], after[i])
}

/// Evolving twice is evolving.
pub proof fn lemma_evolves_transitive(
    first: Seq<Soldier>,
    second: Seq<Soldier>,
    third: Seq<Soldier>,
)
    requires
        evolves(first, second),
        evolves(second, third),
    ensures
        evolves(first, third),
{
    assert forall|i: int| 0 <= i < first.len() implies ages(#[trigger] first[i], third[i]) by {
        assert(ages(first[i], second[i]));
        assert(ages(second[i], third[i]));
    }
}

} // verus!
