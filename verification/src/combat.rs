//! The combat state machine: what one soldier decides and does in one tick.

use vstd::prelude::*;
use crate::army::{army_wf, evolves, in_ranks};
use crate::soldier::{battle_time, battle_won, spec_battle_time, spec_battle_won, BattleState,
    Soldier, DAMAGE, GRAPPLE};

verus! {

/// The number of ticks a soldier runs at a target before it gives up.
pub const CHARGE_TICKS: u32 = 10;

/// The number of ticks a soldier rests after a fight, or when it has lost its
/// opponent or found none.
pub const REST_TICKS: u32 = 5;

/// The number of ticks a soldier rests after a charge that reached nobody.
pub const BREATH_TICKS: u32 = 2;

/// Soldier `k` is one that soldier `me` may pick as its target: another
/// soldier, alive, of the other side.
pub open spec fn targetable(army: Seq<Soldier>, me: int, k: int) -> bool {
    &&& 0 <= k < army.len()
    &&& k != me
    &&& army[k].alive()
    &&& army[k].team != army[me].team
}

/// Soldier `h` is the target that soldier `me` picks: no targetable soldier is
/// nearer, and none with a lower handle is as near.
pub open spec fn is_nearest(army: Seq<Soldier>, me: int, h: int) -> bool {
    &&& targetable(army, me, h)
    &&& forall|k: int| #[trigger]
        targetable(army, me, k) ==> {
            &&& army[me].spec_gap_sq(&army[h]) <= army[me].spec_gap_sq(&army[k])
            &&& k < h ==> army[me].spec_gap_sq(&army[h]) < army[me].spec_gap_sq(&army[k])
        }
}

/// The handle of the target that soldier `me` picks, if there is any to pick.
pub open spec fn spec_nearest(army: Seq<Soldier>, me: int) -> Option<u64> {
    if exists|h: int| is_nearest(army, me, h) {
        Some((choose|h: int| is_nearest(army, me, h)) as u64)
    } else {
        None
    }
}

/// There is at most one target to pick.
pub proof fn lemma_nearest_unique(army: Seq<Soldier>, me: int, h: int)
    requires
        is_nearest(army, me, h),
    ensures
        spec_nearest(army, me) == Some(h as u64),
{
    let c = choose|c: int| is_nearest(army, me, c);
    assert(targetable(army, me, c));
    assert(targetable(army, me, h));
}

/// The army once soldier `me` has taken the given state.
pub open spec fn spec_turn(army: Seq<Soldier>, me: int, state: BattleState) -> Seq<Soldier> {
    army.update(me, army[me].with_state(state))
}

/// The army once soldier `me` has closed with soldier `target`: the target
/// defends and `me` attacks, for the same number of ticks.
pub open spec fn spec_engage(army: Seq<Soldier>, me: int, target: int, ticks: u32) -> Seq<
    Soldier,
> {
    spec_turn(
        spec_turn(army, target, BattleState::Defending(ticks, me as u64)),
        me,
        BattleState::Attacking(ticks, target as u64),
    )
}

/// The army once the fight between attacker `me` and soldier `target` is
/// decided. A beaten attacker dies and the target is left as it is. A winning
/// attacker pays with health, the target dies, and the attacker dies too if it
/// has no health left.
pub open spec fn spec_resolve(army: Seq<Soldier>, me: int, target: int, won: bool) -> Seq<
    Soldier,
> {
    if !won {
        army.update(me, Soldier { health: 0, state: BattleState::Dead, ..army[me] })
    } else {
        let left: u32 = if army[me].health >= DAMAGE {
            (army[me].health - DAMAGE) as u32
        } else {
            0
        };
        let state = if left == 0 {
            BattleState::Dead
        } else {
            BattleState::Idle(REST_TICKS)
        };
        spec_turn(army, target, BattleState::Dead).update(
            me,
            Soldier { health: left, state, ..army[me] },
        )
    }
}

/// The army after soldier `me` has made its move for this tick.
pub open spec fn spec_act(army: Seq<Soldier>, me: int, draw: u32) -> Seq<Soldier> {
    let own = army[me];
    match own.state {
        BattleState::Dead => army,
        BattleState::Idle(t) => {
            if t > 0 {
                spec_turn(army, me, BattleState::Idle((t - 1) as u32))
            } else {
                match spec_nearest(army, me) {
                    Some(h) => spec_turn(army, me, BattleState::Charging(CHARGE_TICKS, h)),
                    None => spec_turn(army, me, BattleState::Idle(REST_TICKS)),
                }
            }
        },
        BattleState::Charging(t, h) => {
            let target = army[h as int];
            if target.dead() {
                spec_turn(army, me, BattleState::Idle(REST_TICKS))
            } else if t == 0 {
                spec_turn(army, me, BattleState::Idle(BREATH_TICKS))
            } else {
                let steered = army.update(me, own.spec_steer(&target));
                if own.spec_reaches(&target) {
                    spec_engage(steered, me, h as int, spec_battle_time(draw))
                } else {
                    spec_turn(steered, me, BattleState::Charging((t - 1) as u32, h))
                }
            }
        },
        BattleState::Attacking(t, h) => {
            let target = army[h as int];
            if target.dead() {
                spec_turn(army, me, BattleState::Idle(REST_TICKS))
            } else if t > 0 {
                spec_turn(
                    army.update(me, own.spec_slowed(GRAPPLE)),
                    me,
                    BattleState::Attacking((t - 1) as u32, h),
                )
            } else {
                spec_resolve(
                    army,
                    me,
                    h as int,
                    spec_battle_won(own.spec_strength(), target.spec_strength(), draw),
                )
            }
        },
        BattleState::Defending(t, h) => {
            let attacker = army[h as int];
            if attacker.dead() {
                spec_turn(army, me, BattleState::Idle(REST_TICKS))
            } else if t > 0 {
                spec_turn(
                    army.update(me, own.spec_slowed(GRAPPLE)),
                    me,
                    BattleState::Defending((t - 1) as u32, h),
                )
            } else {
                spec_turn(army, me, BattleState::Idle(REST_TICKS))
            }
        },
    }
}

/// Picks the target of soldier `me`: the nearest living soldier of the other
/// side, the one with the lowest handle among equally near ones.
pub fn nearest(army: &Vec<Soldier>, me: usize) -> (target: Option<u64>)
    requires
        army_wf(army@),
        me < army.len(),
    ensures
        target == spec_nearest(army@, me as int),
        target is Some ==> is_nearest(army@, me as int, target->0 as int),
        target is None ==> forall|k: int| !targetable(army@, me as int, k),
{
    let own: Soldier = army[me];
    let count: usize = army.len();
    let mut best: Option<(usize, u64)> = None;
    let mut k: usize = 0;
    while k < count
        invariant
            k <= count,
            count == army.len(),
            me < count,
            own == army@[me as int],
            army_wf(army@),
            match best {
                None => forall|j: int| 0 <= j < k ==> !targetable(army@, me as int, j),
                Some((b, gap)) => {
                    &&& b < k
                    &&& targetable(army@, me as int, b as int)
                    &&& gap == own.spec_gap_sq(&army@[b as int])
                    &&& forall|j: int|
                        0 <= j < k && #[trigger] targetable(army@, me as int, j) ==> {
                            &&& gap <= own.spec_gap_sq(&army@[j])
                            &&& j < b ==> gap < own.spec_gap_sq(&army@[j])
                        }
                },
            },
        decreases count - k,
    {
        let other: Soldier = army[k];
        if k != me && other.alive() && other.team != own.team {
            let gap: u64 = own.gap_sq(&other);
            match best {
                Some((_, least)) => {
                    if gap < least {
                        best = Some((k, gap));
                    }
                },
                None => {
                    best = Some((k, gap));
                },
            }
        }
        k += 1;
    }
    match best {
        Some((b, _)) => {
            proof {
                lemma_nearest_unique(army@, me as int, b as int);
            }
            Some(b as u64)
        },
        None => {
            assert(forall|h: int| is_nearest(army@, me as int, h) ==> targetable(army@, me as int, h));
            None
        },
    }
}

/// Closing with a living soldier keeps the army well formed, and only ages it.
pub proof fn lemma_engage_keeps(army: Seq<Soldier>, me: int, target: int, ticks: u32)
    requires
        army_wf(army),
        0 <= me < army.len(),
        0 <= target < army.len(),
        target != me,
        army[me].alive(),
        army[target].alive(),
    ensures
        army_wf(spec_engage(army, me, target, ticks)),
        evolves(army, spec_engage(army, me, target, ticks)),
{
    let after = spec_engage(army, me, target, ticks);
    assert forall|i: int| 0 <= i < after.len() implies #[trigger] in_ranks(after, i) by {
        assert(in_ranks(army, i));
    }
}

/// A fight decided one way or the other keeps the army well formed, and only
/// ages it.
pub proof fn lemma_resolve_keeps(army: Seq<Soldier>, me: int, target: int, won: bool)
    requires
        army_wf(army),
        0 <= me < army.len(),
        0 <= target < army.len(),
        target != me,
        army[me].alive(),
    ensures
        army_wf(spec_resolve(army, me, target, won)),
        evolves(army, spec_resolve(army, me, target, won)),
{
    let after = spec_resolve(army, me, target, won);
    assert forall|i: int| 0 <= i < after.len() implies #[trigger] in_ranks(after, i) by {
        assert(in_ranks(army, i));
    }
}

/// A soldier's move keeps the army well formed, and only ages it.
pub proof fn lemma_act_keeps(army: Seq<Soldier>, me: int, draw: u32)
    requires
        army_wf(army),
        0 <= me < army.len(),
    ensures
        army_wf(spec_act(army, me, draw)),
        evolves(army, spec_act(army, me, draw)),
{
    let after = spec_act(army, me, draw);
    if spec_nearest(army, me) is Some {
        assert(targetable(army, me, choose|h: int| is_nearest(army, me, h)));
    }
    if let BattleState::Attacking(t, h) = army[me].state {
        lemma_resolve_keeps(
            army,
            me,
            h as int,
            spec_battle_won(army[me].spec_strength(), army[h as int].spec_strength(), draw),
        );
    }
    assert forall|i: int| 0 <= i < after.len() implies #[trigger] in_ranks(after, i) by {
        assert(in_ranks(army, i));
    }
}

/// Closes soldier `me` with soldier `target`: the target defends and `me`
/// attacks, for the same number of ticks. Whatever the target was doing is
/// overwritten.
pub fn engage(army: &mut Vec<Soldier>, me: usize, target: usize, ticks: u32)
    requires
        army_wf(old(army)@),
        me < old(army).len(),
        target < old(army).len(),
        target != me,
        old(army)@[me as int].alive(),
        old(army)@[target as int].alive(),
    ensures
        final(army)@ == spec_engage(old(army)@, me as int, target as int, ticks),
        army_wf(final(army)@),
        evolves(old(army)@, final(army)@),
{
    proof {
        lemma_engage_keeps(army@, me as int, target as int, ticks);
    }
    let mut defender: Soldier = army[target];
    defender.state = BattleState::Defending(ticks, me as u64);
    army[target] = defender;
    let mut attacker: Soldier = army[me];
    attacker.state = BattleState::Attacking(ticks, target as u64);
    army[me] = attacker;
    assert(army@ =~= spec_engage(old(army)@, me as int, target as int, ticks));
}

/// Decides the fight between attacker `me` and soldier `target`.
pub fn resolve(army: &mut Vec<Soldier>, me: usize, target: usize, won: bool)
    requires
        army_wf(old(army)@),
        me < old(army).len(),
        target < old(army).len(),
        target != me,
        old(army)@[me as int].alive(),
        old(army)@[target as int].alive(),
    ensures
        final(army)@ == spec_resolve(old(army)@, me as int, target as int, won),
        army_wf(final(army)@),
        evolves(old(army)@, final(army)@),
{
    proof {
        lemma_resolve_keeps(army@, me as int, target as int, won);
    }
    let mut attacker: Soldier = army[me];
    if !won {
        attacker.health = 0;
        attacker.state = BattleState::Dead;
        army[me] = attacker;
    } else {
        let mut defender: Soldier = army[target];
        defender.state = BattleState::Dead;
        army[target] = defender;
        let left: u32 = attacker.health.saturating_sub(DAMAGE);
        attacker.health = left;
        attacker.state = if left == 0 {
            BattleState::Dead
        } else {
            BattleState::Idle(REST_TICKS)
        };
        army[me] = attacker;
    }
    assert(army@ =~= spec_resolve(old(army)@, me as int, target as int, won));
}

/// Lets soldier `me` make its move for this tick: wait, pick a target, charge,
/// close, fight on, or decide the fight by the draw.
pub fn act(army: &mut Vec<Soldier>, me: usize, draw: u32)
    requires
        army_wf(old(army)@),
        me < old(army).len(),
    ensures
        final(army)@ == spec_act(old(army)@, me as int, draw),
        army_wf(final(army)@),
        evolves(old(army)@, final(army)@),
{
    proof {
        lemma_act_keeps(army@, me as int, draw);
    }
    let mut own: Soldier = army[me];
    match own.state {
        BattleState::Dead => {},
        BattleState::Idle(t) => {
            if t > 0 {
                own.state = BattleState::Idle(t - 1);
            } else {
                match nearest(army, me) {
                    Some(h) => {
                        own.state = BattleState::Charging(CHARGE_TICKS, h);
                    },
                    None => {
                        own.state = BattleState::Idle(REST_TICKS);
                    },
                }
            }
            army[me] = own;
        },
        BattleState::Charging(t, h) => {
            let target: Soldier = army[h as usize];
            if target.dead() {
                own.state = BattleState::Idle(REST_TICKS);
                army[me] = own;
            } else if t == 0 {
                own.state = BattleState::Idle(BREATH_TICKS);
                army[me] = own;
            } else {
                let near: bool = own.reaches(&target);
                own.steer(&target);
                army[me] = own;
                if near {
                    engage(army, me, h as usize, battle_time(draw));
                } else {
                    own.state = BattleState::Charging(t - 1, h);
                    army[me] = own;
                }
            }
        },
        BattleState::Attacking(t, h) => {
            let target: Soldier = army[h as usize];
            if target.dead() {
                own.state = BattleState::Idle(REST_TICKS);
                army[me] = own;
            } else if t > 0 {
                own.slow(GRAPPLE);
                own.state = BattleState::Attacking(t - 1, h);
                army[me] = own;
            } else {
                let won: bool = battle_won(own.strength(), target.strength(), draw);
                resolve(army, me, h as usize, won);
            }
        },
        BattleState::Defending(t, h) => {
            let attacker: Soldier = army[h as usize];
            if attacker.dead() {
                own.state = BattleState::Idle(REST_TICKS);
            } else if t > 0 {
                own.slow(GRAPPLE);
                own.state = BattleState::Defending(t - 1, h);
            } else {
                own.state = BattleState::Idle(REST_TICKS);
            }
            army[me] = own;
        },
    }
    assert(army@ =~= spec_act(old(army)@, me as int, draw));
}

} // verus!
