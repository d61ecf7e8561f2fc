//! What holds of the simulation as a whole.

use vstd::prelude::*;
use crate::app::{draw_at, lemma_tick_keeps, spec_tick};
use crate::army::{army_wf, evolves, lemma_evolves_transitive};
use crate::combat::{spec_act, spec_engage, spec_resolve};
use crate::fixed::{bounded, spec_clamp, spec_product, spec_sum, LIMIT};
use crate::legion::SoldierType;
use crate::physics::{colliding, spec_collide, spec_collide_all};
use crate::soldier::{spec_battle_won, spec_win_chance, BattleState, Soldier, DAMAGE, DRAG, MAX_SPEED,
    REBOUND, SCREEN_HEIGHT, SCREEN_WIDTH};
use crate::update::{spec_drag, spec_march, spec_update};

verus! {

/// The draws of tick `t`; a tick for which none were supplied gets none.
pub open spec fn draws_of(schedule: Seq<Seq<u32>>, t: int) -> Seq<u32> {
    if 0 <= t < schedule.len() { schedule[t] } else { Seq::empty() }
}

/// The army after the given number of whole ticks, tick `t` taking its draws
/// from `schedule[t]`.
pub open spec fn spec_run(army: Seq<Soldier>, schedule: Seq<Seq<u32>>, ticks: int) -> Seq<Soldier>
    decreases ticks,
{
    if ticks <= 0 {
        army
    } else {
        let before = spec_run(army, schedule, ticks - 1);
        spec_tick(before, draws_of(schedule, ticks - 1), before.len() as int)
    }
}

/// However many ticks pass and whatever is drawn, the army stays well formed
/// and only ages: nobody joins or leaves, and nobody changes handle, class,
/// side or level.
pub proof fn law_run_keeps(army: Seq<Soldier>, schedule: Seq<Seq<u32>>, ticks: int)
    requires
        army_wf(army),
    ensures
        army_wf(spec_run(army, schedule, ticks)),
        evolves(army, spec_run(army, schedule, ticks)),
    decreases ticks,
{
    if ticks > 0 {
        law_run_keeps(army, schedule, ticks - 1);
        let before = spec_run(army, schedule, ticks - 1);
        lemma_tick_keeps(before, draws_of(schedule, ticks - 1), before.len() as int);
        lemma_evolves_transitive(army, before, spec_run(army, schedule, ticks));
    }
}

/// Health never grows: after any number of ticks, whatever is drawn, every
/// soldier has at most the health it had.
pub proof fn law_health_never_grows(
    army: Seq<Soldier>,
    schedule: Seq<Seq<u32>>,
    ticks: int,
    i: int,
)
    requires
        army_wf(army),
        0 <= i < army.len(),
    ensures
        spec_run(army, schedule, ticks).len() == army.len(),
        spec_run(army, schedule, ticks)[i].health <= army[i].health,
{
    law_run_keeps(army, schedule, ticks);
}

/// Death is final: after any number of ticks, whatever is drawn, a soldier that
/// was dead is still dead, and stands and moves exactly as it did.
pub proof fn law_death_is_final(army: Seq<Soldier>, schedule: Seq<Seq<u32>>, ticks: int, i: int)
    requires
        army_wf(army),
        0 <= i < army.len(),
        army[i].dead(),
    ensures
        spec_run(army, schedule, ticks).len() == army.len(),
        spec_run(army, schedule, ticks)[i] == army[i],
{
    law_run_keeps(army, schedule, ticks);
}

/// The last to close with a soldier is the one it defends against: when `first`
/// and then `second` close with the same `target`, the target defends against
/// `second` for the time drawn by `second`, while both of them attack it.
pub proof fn law_last_engagement_wins(
    army: Seq<Soldier>,
    first: int,
    second: int,
    target: int,
    first_ticks: u32,
    second_ticks: u32,
)
    requires
        0 <= first < army.len() <= u64::MAX,
        0 <= second < army.len(),
        0 <= target < army.len(),
        first != second,
        first != target,
        second != target,
    ensures
        ({
            let after = spec_engage(
                spec_engage(army, first, target, first_ticks),
                second,
                target,
                second_ticks,
            );
            &&& after[target].state == BattleState::Defending(second_ticks, second as u64)
            &&& after[first].state == BattleState::Attacking(first_ticks, target as u64)
            &&& after[second].state == BattleState::Attacking(second_ticks, target as u64)
        }),
{
}

/// A fight costs exactly one life where the attacker can afford its victory:
/// decided between two living soldiers, with the attacker holding more health
/// than a victory costs, it leaves one of the two dead and the other alive.
pub proof fn law_one_falls(army: Seq<Soldier>, me: int, target: int, won: bool)
    requires
        0 <= me < army.len(),
        0 <= target < army.len(),
        me != target,
        army[me].alive(),
        army[target].alive(),
        army[me].health > DAMAGE,
    ensures
        ({
            let after = spec_resolve(army, me, target, won);
            &&& after[me].dead() != after[target].dead()
            &&& after[target].dead() == won
        }),
{
}

/// Between two soldiers of positive strength the chance of winning lies
/// strictly between zero and one; between equals it is exactly one half, and
/// exactly the lower half of all draws wins.
pub proof fn law_win_chance(own: u64, rival: u64)
    requires
        own > 0,
        rival > 0,
    ensures
        0 < spec_win_chance(own, rival).0 < spec_win_chance(own, rival).1,
        own == rival ==> 2 * spec_win_chance(own, rival).0 == spec_win_chance(own, rival).1,
        own == rival ==> forall|draw: u32|
            #[trigger] spec_battle_won(own, rival, draw) <==> draw < 0x8000_0000,
{
    if own == rival {
        assert forall|draw: u32| #[trigger]
            spec_battle_won(own, rival, draw) <==> draw < 0x8000_0000 by {
            assert(draw * (own + rival) == (2 * draw) * own) by (nonlinear_arith)
                requires
                    own == rival,
            ;
            assert(((2 * draw) * own < 0x1_0000_0000 * own) <==> (2 * draw < 0x1_0000_0000))
                by (nonlinear_arith)
                requires
                    own > 0,
            ;
        }
    }
}

/// The more favourable the draw, the better for the attacker: a fight won with
/// one draw is won with every lower draw.
pub proof fn law_lower_draws_win(own: u64, rival: u64, draw: u32, lower: u32)
    requires
        spec_battle_won(own, rival, draw),
        lower <= draw,
    ensures
        spec_battle_won(own, rival, lower),
{
    assert(lower * (own + rival) <= draw * (own + rival)) by (nonlinear_arith)
        requires
            lower <= draw,
            own + rival >= 0,
    ;
}

/// A fight between two living soldiers can go either way: the lowest draw wins
/// it for the attacker and the highest loses it.
pub proof fn law_fights_are_open(attacker: Soldier, defender: Soldier)
    requires
        attacker.wf(),
        defender.wf(),
        attacker.alive(),
        defender.alive(),
    ensures
        spec_battle_won(attacker.spec_strength(), defender.spec_strength(), 0),
        !spec_battle_won(attacker.spec_strength(), defender.spec_strength(), u32::MAX),
{
    lemma_strength_range(attacker);
    lemma_strength_range(defender);
    let own = attacker.spec_strength();
    let rival = defender.spec_strength();
    assert(0xffff_ffff * (own + rival) >= own * 0x1_0000_0000) by (nonlinear_arith)
        requires
            0 < own <= 3000 * 1728,
            0 < rival,
    ;
}

/// The strength of a well-formed soldier with health left is positive and small.
pub proof fn lemma_strength_range(soldier: Soldier)
    requires
        soldier.wf(),
        soldier.health > 0,
    ensures
        0 < soldier.spec_strength() <= 3000 * 1728,
{
    let multiplier = soldier.spec_battle_multiplier();
    let health = soldier.health as int;
    match soldier.legion {
        SoldierType::Triarii => {
            assert(1 <= health <= 54);
            assert(multiplier == (1600 * health) / 50);
            assert(0 < (1600 * health) / 50 <= 1728) by (nonlinear_arith)
                requires
                    1 <= health <= 54,
            ;
        },
        SoldierType::Principes => {
            assert(1 <= health <= 44);
            assert(multiplier == (1300 * health) / 40);
            assert(0 < multiplier <= 1728);
        },
        SoldierType::Hastati => {
            assert(1 <= health <= 34);
            assert(multiplier == (900 * health) / 30);
            assert(0 < multiplier <= 1728);
        },
        SoldierType::Velites => {
            assert(1 <= health <= 24);
            assert(multiplier == (1000 * health) / 20);
            assert(0 < multiplier <= 1728);
        },
    }
    assert(0 < multiplier <= 1728);
    assert(0 < soldier.level * multiplier <= 3000 * 1728) by (nonlinear_arith)
        requires
            1000 <= soldier.level <= 3000,
            0 < multiplier <= 1728,
    ;
}

/// A collision moves the two velocities by exactly opposite vectors: what the
/// one soldier gains the other loses, on each axis. This holds wherever neither
/// velocity is cut off at the limit of the representable range.
pub proof fn law_collision_symmetry(army: Seq<Soldier>, me: int, other: int)
    requires
        0 <= me < army.len(),
        0 <= other < army.len(),
        ({
            let push = army[me].spec_push_on(&army[other]);
            &&& bounded(army[me].vel[0] - push[0])
            &&& bounded(army[me].vel[1] - push[1])
            &&& bounded(army[other].vel[0] + push[0])
            &&& bounded(army[other].vel[1] + push[1])
        }),
    ensures
        ({
            let after = spec_collide(army, me, other);
            let push = army[me].spec_push_on(&army[other]);
            &&& after[me].vel[0] - army[me].vel[0] == -(after[other].vel[0] - army[other].vel[0])
            &&& after[me].vel[1] - army[me].vel[1] == -(after[other].vel[1] - army[other].vel[1])
            &&& colliding(army, me, other) ==> after[other].vel[0] - army[other].vel[0] == push[0]
            &&& colliding(army, me, other) ==> after[other].vel[1] - army[other].vel[1] == push[1]
        }),
{
}

/// A soldier that has left the arena on an axis is turned back on that axis:
/// its velocity there changes by the rebound impulse toward the inside, as far
/// as the representable range allows. On an axis on which it stands inside,
/// its velocity stays, and so does everything else about it.
pub proof fn law_rebound_turns_inward(soldier: Soldier)
    requires
        soldier.wf(),
    ensures
        ({
            let turned = soldier.spec_rebound();
            &&& turned == Soldier { vel: turned.vel, ..soldier }
            &&& soldier.pos[0] > SCREEN_WIDTH ==> turned.vel[0] == if soldier.vel[0] - REBOUND
                >= -LIMIT {
                soldier.vel[0] - REBOUND
            } else {
                -LIMIT as int
            }
            &&& soldier.pos[0] < 0 ==> turned.vel[0] == if soldier.vel[0] + REBOUND <= LIMIT {
                soldier.vel[0] + REBOUND
            } else {
                LIMIT as int
            }
            &&& 0 <= soldier.pos[0] <= SCREEN_WIDTH ==> turned.vel[0] == soldier.vel[0]
            &&& soldier.pos[1] > SCREEN_HEIGHT ==> turned.vel[1] == if soldier.vel[1] - REBOUND
                >= -LIMIT {
                soldier.vel[1] - REBOUND
            } else {
                -LIMIT as int
            }
            &&& soldier.pos[1] < 0 ==> turned.vel[1] == if soldier.vel[1] + REBOUND <= LIMIT {
                soldier.vel[1] + REBOUND
            } else {
                LIMIT as int
            }
            &&& 0 <= soldier.pos[1] <= SCREEN_HEIGHT ==> turned.vel[1] == soldier.vel[1]
        }),
{
}

} // verus!

verus! {

/// The greatest velocity, along an axis, of a soldier that counts as calm.
pub const CALM: i64 = 400_000;

/// How far beyond the arena a calm soldier on its own can ever get.
pub const LEEWAY: i64 = 103_900;

/// Position `x` and velocity `v` along an axis of length `extent` are such that
/// the bounds of the arena keep the upper hand: the velocity is calm, and the
/// further out the position, the less the velocity points outward.
pub open spec fn calm_on_axis(x: i64, v: i64, extent: i64) -> bool {
    &&& -CALM <= v <= CALM
    &&& 4 * x + (if v > 0 { v as int } else { 0 }) <= 4 * (extent + 3900) + CALM
    &&& 4 * x - (if v < 0 { -v } else { 0 }) >= -(4 * 3900 + CALM)
}

/// The soldier is calm along both axes.
pub open spec fn calm(soldier: Soldier) -> bool {
    &&& calm_on_axis(soldier.pos[0], soldier.vel[0], SCREEN_WIDTH)
    &&& calm_on_axis(soldier.pos[1], soldier.vel[1], SCREEN_HEIGHT)
}

/// One tick of bounds, movement and drag along one axis keeps a calm soldier
/// calm.
proof fn lemma_axis_stays_calm(x: i64, v: i64, extent: i64, speed: i64)
    requires
        calm_on_axis(x, v, extent),
        0 <= extent <= 2_000_000,
        speed == 700 || speed == 1200 || speed == 1500,
    ensures
        ({
            let turned = if x > extent {
                spec_sum(v, (-REBOUND) as i64)
            } else if x < 0 {
                spec_sum(v, REBOUND)
            } else {
                v
            };
            let stride = spec_product(
                speed,
                spec_clamp(turned as int, -MAX_SPEED as int, MAX_SPEED as int) as i64,
            );
            calm_on_axis(spec_sum(x, stride), spec_product(turned, DRAG), extent)
        }),
{
    let turned = if x > extent {
        spec_sum(v, (-REBOUND) as i64)
    } else if x < 0 {
        spec_sum(v, REBOUND)
    } else {
        v
    };
    let capped = spec_clamp(turned as int, -MAX_SPEED as int, MAX_SPEED as int) as i64;
    let stride = spec_product(speed, capped);
    let slowed = spec_product(turned, DRAG);
    assert(speed * capped == if speed == 700 {
        700 * capped
    } else if speed == 1200 {
        1200 * capped
    } else {
        1500 * capped
    });
    assert(-1950 <= stride <= 1950);
    assert(turned >= 0 ==> stride >= 0);
    assert(turned <= 0 ==> stride <= 0);
    assert(turned * DRAG == turned * 970);
    assert(turned >= 0 ==> 0 <= slowed <= turned);
    assert(turned <= 0 ==> turned <= slowed <= 0);
    assert(-397_700 <= slowed <= 397_700);
}

/// A tick keeps a calm soldier that is alone in the arena calm.
proof fn lemma_alone_stays_calm(soldier: Soldier, draws: Seq<u32>)
    requires
        army_wf(seq![soldier]),
        calm(soldier),
    ensures
        calm(spec_tick(seq![soldier], draws, 1)[0]),
{
    let army = seq![soldier];
    assert(spec_tick(army, draws, 0) == army);
    assert(spec_tick(army, draws, 1) == spec_update(army, 0, draw_at(draws, 0)));
    if soldier.alive() {
        let speed = soldier.legion.spec_speed_multiplier();
        lemma_axis_stays_calm(soldier.pos[0], soldier.vel[0], SCREEN_WIDTH, speed);
        lemma_axis_stays_calm(soldier.pos[1], soldier.vel[1], SCREEN_HEIGHT, speed);
        let marched = spec_march(army, 0);
        assert(spec_collide_all(marched, 0, 0) == marched);
        assert(spec_collide_all(marched, 0, 1) == marched);
        let dragged = spec_drag(marched, 0);
        let acted = spec_act(dragged, 0, draw_at(draws, 0));
        assert(acted[0].pos == dragged[0].pos && acted[0].vel == dragged[0].vel);
    }
}

/// A soldier on its own does not get lost: alone in the arena, starting
/// anywhere inside it at a calm velocity, it is never further than the leeway
/// from the arena, and never faster than calm, however many ticks pass.
pub proof fn law_alone_stays_near(soldier: Soldier, schedule: Seq<Seq<u32>>, ticks: int)
    requires
        army_wf(seq![soldier]),
        0 <= soldier.pos[0] <= SCREEN_WIDTH,
        0 <= soldier.pos[1] <= SCREEN_HEIGHT,
        -CALM <= soldier.vel[0] <= CALM,
        -CALM <= soldier.vel[1] <= CALM,
    ensures
        ({
            let later = spec_run(seq![soldier], schedule, ticks)[0];
            &&& spec_run(seq![soldier], schedule, ticks).len() == 1
            &&& -LEEWAY <= later.pos[0] <= SCREEN_WIDTH + LEEWAY
            &&& -LEEWAY <= later.pos[1] <= SCREEN_HEIGHT + LEEWAY
            &&& -CALM <= later.vel[0] <= CALM
            &&& -CALM <= later.vel[1] <= CALM
        }),
{
    lemma_run_alone_stays_calm(soldier, schedule, ticks);
}

/// Any number of ticks keep a calm soldier that is alone in the arena calm.
proof fn lemma_run_alone_stays_calm(soldier: Soldier, schedule: Seq<Seq<u32>>, ticks: int)
    requires
        army_wf(seq![soldier]),
        calm(soldier),
    ensures
        spec_run(seq![soldier], schedule, ticks).len() == 1,
        calm(spec_run(seq![soldier], schedule, ticks)[0]),
    decreases ticks,
{
    let army = seq![soldier];
    law_run_keeps(army, schedule, ticks);
    if ticks > 0 {
        lemma_run_alone_stays_calm(soldier, schedule, ticks - 1);
        law_run_keeps(army, schedule, ticks - 1);
        let before = spec_run(army, schedule, ticks - 1);
        assert(before =~= seq![before[0]]);
        lemma_alone_stays_calm(before[0], draws_of(schedule, ticks - 1));
    } else {
        assert(army[0] == soldier);
    }
}

} // verus!
