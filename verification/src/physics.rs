//! The movement of one soldier and the repulsion between overlapping soldiers.

use vstd::prelude::*;
use crate::army::army_wf;
use crate::fixed::{bounded, clamp, product, sum};
use crate::soldier::{Soldier, ACCEL, ENGAGE_RANGE, MAX_SPEED, MIN_SEPARATION, PUSH_POWER,
    REBOUND, SCREEN_HEIGHT, SCREEN_WIDTH};

verus! {

/// The two are different soldiers, both alive, whose squares overlap.
pub open spec fn colliding(army: Seq<Soldier>, me: int, other: int) -> bool {
    &&& other != me
    &&& army[me].alive()
    &&& army[other].alive()
    &&& army[me].inside(&army[other])
}

/// The army after soldier `me` and soldier `other` have repelled each other, if
/// they collide: `other` gains the push and `me` loses it.
pub open spec fn spec_collide(army: Seq<Soldier>, me: int, other: int) -> Seq<Soldier> {
    if colliding(army, me, other) {
        let push = army[me].spec_push_on(&army[other]);
        army.update(me, army[me].spec_add_velocity((-push[0]) as i64, (-push[1]) as i64)).update(
            other,
            army[other].spec_add_velocity(push[0], push[1]),
        )
    } else {
        army
    }
}

/// The army after soldier `me` has been held against each of the first `upto`
/// soldiers in turn.
pub open spec fn spec_collide_all(army: Seq<Soldier>, me: int, upto: int) -> Seq<Soldier>
    decreases upto,
{
    if upto <= 0 {
        army
    } else {
        spec_collide(spec_collide_all(army, me, upto - 1), me, upto - 1)
    }
}

/// Two soldiers that differ at most in velocity, the later one's being in range.
pub open spec fn same_soldier_but_velocity(before: Soldier, after: Soldier) -> bool {
    &&& after == Soldier { vel: after.vel, ..before }
    &&& bounded(after.vel[0] as int)
    &&& bounded(after.vel[1] as int)
    &&& before.dead() ==> after == before
}

/// Two armies whose soldiers differ at most in velocity, and the dead not at all.
pub open spec fn same_but_velocity(before: Seq<Soldier>, after: Seq<Soldier>) -> bool {
    &&& after.len() == before.len()
    &&& forall|i: int|
        0 <= i < before.len() ==> same_soldier_but_velocity(#[trigger] before[i], after[i])
}

/// A collision changes velocities and nothing else, and keeps the army well
/// formed.
pub proof fn lemma_collide_keeps(army: Seq<Soldier>, me: int, other: int)
    requires
        army_wf(army),
        0 <= me < army.len(),
        0 <= other < army.len(),
    ensures
        army_wf(spec_collide(army, me, other)),
        same_but_velocity(army, spec_collide(army, me, other)),
{
    let after = spec_collide(army, me, other);
    assert forall|i: int| 0 <= i < after.len() implies same_soldier_but_velocity(
        #[trigger] army[i],
        after[i],
    ) by {}
    assert forall|i: int| #![trigger after[i]] 0 <= i < after.len() implies after[i].wf() by {
        assert(same_soldier_but_velocity(army[i], after[i]));
    }
}

/// Holding one soldier against any number of others changes velocities and
/// nothing else.
pub proof fn lemma_collide_all_keeps(army: Seq<Soldier>, me: int, upto: int)
    requires
        army_wf(army),
        0 <= me < army.len(),
        0 <= upto <= army.len(),
    ensures
        army_wf(spec_collide_all(army, me, upto)),
        same_but_velocity(army, spec_collide_all(army, me, upto)),
    decreases upto,
{
    if upto > 0 {
        lemma_collide_all_keeps(army, me, upto - 1);
        let before = spec_collide_all(army, me, upto - 1);
        lemma_collide_keeps(before, me, upto - 1);
        let after = spec_collide(before, me, upto - 1);
        assert forall|i: int| 0 <= i < army.len() implies same_soldier_but_velocity(
            #[trigger] army[i],
            after[i],
        ) by {
            assert(same_soldier_but_velocity(army[i], before[i]));
            assert(same_soldier_but_velocity(before[i], after[i]));
        }
    } else {
        assert forall|i: int| 0 <= i < army.len() implies same_soldier_but_velocity(
            #[trigger] army[i],
            army[i],
        ) by {}
    }
}

impl Soldier {
    /// Applies the arena's bounds: an impulse back inward on each axis on which
    /// the soldier stands outside the arena.
    pub fn rebound(&mut self)
        requires
            old(self).wf(),
        ensures
            *final(self) == old(self).spec_rebound(),
            final(self).wf(),
    {
        if self.x() > SCREEN_WIDTH {
            self.add_velocity(-REBOUND, 0);
        }
        if self.x() < 0 {
            self.add_velocity(REBOUND, 0);
        }
        if self.y() > SCREEN_HEIGHT {
            self.add_velocity(0, -REBOUND);
        }
        if self.y() < 0 {
            self.add_velocity(0, REBOUND);
        }
        proof {
            let turned = old(self).spec_rebound();
            assert(self.vel[0] == turned.vel[0] && self.vel[1] == turned.vel[1]);
            assert(self.vel == turned.vel);
        }
    }

    /// Moves the soldier on by one tick at its velocity, no component of which
    /// counts for more than the maximum speed.
    pub fn advance(&mut self)
        requires
            old(self).wf(),
        ensures
            *final(self) == old(self).spec_advance(),
            final(self).wf(),
    {
        let speed: i64 = self.legion.speed_multiplier();
        self.pos = [
            sum(self.x(), product(speed, clamp(self.x_vel(), -MAX_SPEED, MAX_SPEED))),
            sum(self.y(), product(speed, clamp(self.y_vel(), -MAX_SPEED, MAX_SPEED))),
        ];
    }

    /// Scales the velocity by a factor.
    pub fn slow(&mut self, factor: i64)
        requires
            old(self).wf(),
        ensures
            *final(self) == old(self).spec_slowed(factor),
            final(self).wf(),
    {
        self.vel = [product(self.x_vel(), factor), product(self.y_vel(), factor)];
    }

    /// The impulse with which this soldier repels the other.
    pub fn push_on(&self, other: &Soldier) -> (push: [i64; 2])
        requires
            self.wf(),
            other.wf(),
        ensures
            push == self.spec_push_on(other),
            bounded(push[0] as int),
            bounded(push[1] as int),
    {
        let dir: [i64; 2] = self.angle_to(other);
        let distance: i64 = self.distance_from(other);
        let slack: i64 = if distance < MIN_SEPARATION { MIN_SEPARATION - distance } else { 0 };
        let force: i64 = product(PUSH_POWER, slack);
        [product(dir[0], force), product(dir[1], force)]
    }

    /// Accelerates the soldier toward the other by one tick's worth.
    pub fn steer(&mut self, other: &Soldier)
        requires
            old(self).wf(),
            other.wf(),
        ensures
            *final(self) == old(self).spec_steer(other),
            final(self).wf(),
    {
        let dir: [i64; 2] = self.angle_to(other);
        self.add_velocity(product(dir[0], ACCEL), product(dir[1], ACCEL));
    }

    /// Whether the other stands within this soldier's reach.
    pub fn reaches(&self, other: &Soldier) -> (near: bool)
        requires
            self.wf(),
            other.wf(),
        ensures
            near == self.spec_reaches(other),
    {
        self.distance_from(other) < product(ENGAGE_RANGE, self.legion.range_multiplier())
    }
}

/// Lets soldier `me` and soldier `other` repel each other, if they overlap.
pub fn collide(army: &mut Vec<Soldier>, me: usize, other: usize)
    requires
        army_wf(old(army)@),
        me < old(army).len(),
        other < old(army).len(),
    ensures
        final(army)@ == spec_collide(old(army)@, me as int, other as int),
        army_wf(final(army)@),
{
    proof {
        lemma_collide_keeps(army@, me as int, other as int);
    }
    if other != me {
        let mut pusher: Soldier = army[me];
        let mut pushed: Soldier = army[other];
        if pusher.alive() && pushed.alive() && pusher.inside(&pushed) {
            let push: [i64; 2] = pusher.push_on(&pushed);
            pusher.add_velocity(-push[0], -push[1]);
            pushed.add_velocity(push[0], push[1]);
            army[me] = pusher;
            army[other] = pushed;
        }
    }
}

/// Holds soldier `me` against every other soldier of the army in turn.
pub fn collide_all(army: &mut Vec<Soldier>, me: usize)
    requires
        army_wf(old(army)@),
        me < old(army).len(),
    ensures
        final(army)@ == spec_collide_all(old(army)@, me as int, old(army)@.len() as int),
        army_wf(final(army)@),
        same_but_velocity(old(army)@, final(army)@),
{
    let count: usize = army.len();
    let mut other: usize = 0;
    while other < count
        invariant
            other <= count,
            count == army.len(),
            count == old(army).len(),
            me < count,
            army_wf(army@),
            army@ == spec_collide_all(old(army)@, me as int, other as int),
        decreases count - other,
    {
        collide(army, me, other);
        other += 1;
    }
    proof {
        lemma_collide_all_keeps(old(army)@, me as int, count as int);
    }
}

} // verus!
