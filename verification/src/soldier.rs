//! One combatant: its data, its geometry and the physics of a single soldier.
//!
//! Positions, velocities and multipliers are fixed-point numbers (see
//! [`crate::fixed`]); a position of `5000` is five units from the origin.

use vstd::prelude::*;
use crate::chance::draw;
use crate::fixed::{bounded, root, spec_clamp, spec_product, spec_root, spec_sum, sum, LIMIT, ONE};
use crate::legion::{SoldierType, Team};

verus! {

/// The width of the arena.
pub const SCREEN_WIDTH: i64 = 1_280_000;

/// The height of the arena.
pub const SCREEN_HEIGHT: i64 = 720_000;

/// The side of the square a soldier occupies.
pub const SOLDIER_SIZE: i64 = 4000;

/// The acceleration of a charging soldier toward its target, per tick.
pub const ACCEL: i64 = 100;

/// The share of its velocity a soldier keeps from one tick to the next.
pub const DRAG: i64 = 970;

/// The share of its velocity a soldier locked in combat keeps each tick.
pub const GRAPPLE: i64 = 700;

/// The largest velocity component that still moves a soldier.
pub const MAX_SPEED: i64 = 1300;

/// The strength with which two overlapping soldiers repel each other.
pub const PUSH_POWER: i64 = 600;

/// The distance under which two overlapping soldiers repel each other.
pub const MIN_SEPARATION: i64 = 6000;

/// The impulse that turns a soldier back once it has left the arena.
pub const REBOUND: i64 = 10_000;

/// The distance at which a charge turns into a fight, before the class multiplier.
pub const ENGAGE_RANGE: i64 = 8000;

/// The health a victorious attacker pays for its victory.
pub const DAMAGE: u32 = 3;

/// The lowest level a soldier can have; levels span the two units above it.
pub const LEVEL_FLOOR: u32 = 1000;

/// The width of the range from which levels and position jitters are drawn.
pub const SPREAD: u32 = 2000;

/// The number of values the health of a new soldier can take.
pub const HEALTH_SPREAD: u32 = 10;

/// How far below the pool of its class the health of a new soldier can lie.
pub const HEALTH_DIP: u32 = 5;

/// The number of ticks the shortest fight lasts.
pub const FIGHT_FLOOR: u32 = 60;

/// The number of lengths a fight can have.
pub const FIGHT_SPREAD: u32 = 60;

/// What a soldier is doing. A soldier refers to another by its handle, its index
/// in the army, never by address.
#[derive(Clone, Copy, Debug, PartialEq, Eq, Structural)]
pub enum BattleState {
    /// Standing by for the given number of ticks.
    Idle(u32),
    /// Running at the soldier with the given handle, for at most the given ticks.
    Charging(u32, u64),
    /// Fighting the soldier with the given handle, as the one who struck first.
    Attacking(u32, u64),
    /// Fighting the soldier with the given handle, as the one who was struck.
    Defending(u32, u64),
    /// Fallen. Nothing leads out of this state.
    Dead,
}

impl BattleState {
    /// The handle this state refers to, if it refers to one.
    pub open spec fn opponent(&self) -> Option<u64> {
        match self {
            BattleState::Charging(_, h) => Some(*h),
            BattleState::Attacking(_, h) => Some(*h),
            BattleState::Defending(_, h) => Some(*h),
            _ => None,
        }
    }
}

/// One combatant.
#[derive(Clone, Copy, Debug)]
pub struct Soldier {
    pub legion: SoldierType,
    pub pos: [i64; 2],
    pub vel: [i64; 2],
    pub state: BattleState,
    pub team: Team,
    pub level: u32,
    pub health: u32,
    pub id: u64,
}

/// The component of the unit vector along an offset `d`, where `gap_sq` is the
/// squared length of the whole offset: `1000 * |d| / sqrt(gap_sq)` rounded down,
/// with the sign of `d`.
pub open spec fn spec_unit(d: i64, gap_sq: nat) -> i64
    recommends
        gap_sq > 0,
        d * d <= gap_sq,
{
    let size = spec_root(((d * d) * 1_000_000 / (gap_sq as int)) as nat);
    if d >= 0 { size as i64 } else { (-size) as i64 }
}

/// The chance that an attacker of strength `own` beats a soldier of strength
/// `rival`, as a fraction: its numerator and its denominator.
pub open spec fn spec_win_chance(own: u64, rival: u64) -> (int, int) {
    (own as int, own + rival)
}

/// Whether the attacker wins an exchange: the draw, read as a fraction of
/// `2^32`, lies below the chance of winning.
pub open spec fn spec_battle_won(own: u64, rival: u64, draw: u32) -> bool {
    let (wins, all) = spec_win_chance(own, rival);
    draw * all < wins * 0x1_0000_0000
}

/// The number of ticks a fight lasts: from 60 up to 119, by the draw.
pub open spec fn spec_battle_time(draw: u32) -> u32 {
    (FIGHT_FLOOR + draw % FIGHT_SPREAD) as u32
}

/// The component of the unit vector along an offset `d`, where `gap_sq` is the
/// squared length of the whole offset.
pub fn unit(d: i64, gap_sq: u64) -> (r: i64)
    requires
        gap_sq > 0,
        d * d <= gap_sq,
    ensures
        r == spec_unit(d, gap_sq as nat),
        -ONE <= r <= ONE,
        d >= 0 ==> r >= 0,
        d <= 0 ==> r <= 0,
{
    let size: u128 = if d >= 0 { d as u128 } else { (-(d as i128)) as u128 };
    assert(size * size == d * d) by (nonlinear_arith)
        requires
            size == d || size == -d,
    ;
    assert(size * size * 1_000_000 <= gap_sq * 1_000_000);
    let ratio: u128 = size * size * 1_000_000 / (gap_sq as u128);
    assert(ratio <= 1_000_000) by (nonlinear_arith)
        requires
            ratio == (size * size * 1_000_000) / (gap_sq as int),
            size * size * 1_000_000 <= gap_sq * 1_000_000,
            gap_sq > 0,
    ;
    let r: u64 = root(ratio as u64);
    assert(r <= 1000) by (nonlinear_arith)
        requires
            r * r <= ratio,
            ratio <= 1_000_000,
    ;
    assert(d == 0 ==> r == 0) by (nonlinear_arith)
        requires
            r * r <= ratio,
            d == 0 ==> ratio == 0,
    ;
    if d >= 0 { r as i64 } else { -(r as i64) }
}

/// Decides an exchange between an attacker of strength `own` and a soldier of
/// strength `rival` by the draw.
pub fn battle_won(own: u64, rival: u64, draw: u32) -> (won: bool)
    ensures
        won == spec_battle_won(own, rival, draw),
{
    let pool: u128 = own as u128 + rival as u128;
    assert(draw * pool <= 0xffff_ffff * 0x2_0000_0000_0000_0000) by (nonlinear_arith)
        requires
            0 <= draw <= 0xffff_ffff,
            0 <= pool <= 0x2_0000_0000_0000_0000,
    ;
    (draw as u128) * pool < (own as u128) * 0x1_0000_0000
}

/// The number of ticks a fight lasts, by the draw.
pub fn battle_time(draw: u32) -> (ticks: u32)
    ensures
        ticks == spec_battle_time(draw),
        FIGHT_FLOOR <= ticks < FIGHT_FLOOR + FIGHT_SPREAD,
{
    FIGHT_FLOOR + draw % FIGHT_SPREAD
}

impl Soldier {
    /// What a soldier freshly made from four draws looks like: each coordinate
    /// moved up by a jitter below two units, a level from one up to three units,
    /// a health within five of the class's pool, at rest and idle.
    pub open spec fn spec_from_draws(
        team: Team,
        legion: SoldierType,
        pos: [i64; 2],
        wait_frames: u32,
        id: u64,
        draws: [u32; 4],
    ) -> Soldier {
        Soldier {
            legion,
            pos: [
                spec_sum(pos[0], (draws[0] % SPREAD) as i64),
                spec_sum(pos[1], (draws[1] % SPREAD) as i64),
            ],
            vel: [0, 0],
            state: BattleState::Idle(wait_frames),
            team,
            level: (LEVEL_FLOOR + draws[2] % SPREAD) as u32,
            health: (legion.spec_base_health() + draws[3] % HEALTH_SPREAD - HEALTH_DIP) as u32,
            id,
        }
    }

    /// The invariant of a soldier: it stands and moves within the representable
    /// range, its level and health are ones a new soldier can have or reach, and
    /// with no health left it is dead.
    pub open spec fn wf(&self) -> bool {
        &&& bounded(self.pos[0] as int)
        &&& bounded(self.pos[1] as int)
        &&& bounded(self.vel[0] as int)
        &&& bounded(self.vel[1] as int)
        &&& LEVEL_FLOOR <= self.level < LEVEL_FLOOR + SPREAD
        &&& self.health + HEALTH_DIP < self.legion.spec_base_health() + HEALTH_SPREAD
        &&& (self.health == 0 ==> self.state == BattleState::Dead)
    }

    /// Whether the soldier is well formed.
    pub fn valid(&self) -> (valid: bool)
        ensures
            valid == self.wf(),
    {
        -LIMIT <= self.pos[0] && self.pos[0] <= LIMIT && -LIMIT <= self.pos[1] && self.pos[1]
            <= LIMIT && -LIMIT <= self.vel[0] && self.vel[0] <= LIMIT && -LIMIT <= self.vel[1]
            && self.vel[1] <= LIMIT && LEVEL_FLOOR <= self.level && self.level < LEVEL_FLOOR
            + SPREAD && self.health < self.legion.base_health() + (HEALTH_SPREAD - HEALTH_DIP)
            && (self.health != 0 || self.dead())
    }

    /// A new soldier from explicit draws, for a caller that brings its own
    /// randomness.
    pub fn from_draws(
        team: Team,
        legion: SoldierType,
        pos: [i64; 2],
        wait_frames: u32,
        id: u64,
        draws: [u32; 4],
    ) -> (soldier: Soldier)
        ensures
            soldier == Soldier::spec_from_draws(team, legion, pos, wait_frames, id, draws),
            soldier.wf(),
            soldier.alive(),
    {
        Soldier {
            legion,
            pos: [
                sum(pos[0], (draws[0] % SPREAD) as i64),
                sum(pos[1], (draws[1] % SPREAD) as i64),
            ],
            vel: [0, 0],
            state: BattleState::Idle(wait_frames),
            team,
            level: LEVEL_FLOOR + draws[2] % SPREAD,
            health: legion.base_health() + draws[3] % HEALTH_SPREAD - HEALTH_DIP,
            id,
        }
    }

    /// A new soldier with a random jitter on its position, a random level and a
    /// random health.
    pub fn new(team: Team, legion: SoldierType, pos: [i64; 2], wait_frames: u32, id: u64) -> (soldier:
        Soldier)
        ensures
            exists|draws: [u32; 4]|
                soldier == #[trigger] Soldier::spec_from_draws(
                    team,
                    legion,
                    pos,
                    wait_frames,
                    id,
                    draws,
                ),
            soldier.wf(),
            soldier.alive(),
    {
        let draws: [u32; 4] = [draw(), draw(), draw(), draw()];
        Soldier::from_draws(team, legion, pos, wait_frames, id, draws)
    }

    /// The position on the first axis.
    pub open spec fn spec_x(&self) -> i64 {
        self.pos[0]
    }

    /// The position on the second axis.
    pub open spec fn spec_y(&self) -> i64 {
        self.pos[1]
    }

    /// The velocity along the first axis.
    pub open spec fn spec_x_vel(&self) -> i64 {
        self.vel[0]
    }

    /// The velocity along the second axis.
    pub open spec fn spec_y_vel(&self) -> i64 {
        self.vel[1]
    }

    /// The soldier is in any state but `Dead`.
    pub open spec fn spec_alive(&self) -> bool {
        self.state != BattleState::Dead
    }

    /// The soldier is in the state `Dead`.
    pub open spec fn spec_dead(&self) -> bool {
        self.state == BattleState::Dead
    }

    /// The squares of the two soldiers overlap.
    pub open spec fn spec_inside(&self, other: &Soldier) -> bool {
        &&& -SOLDIER_SIZE < self.pos[0] - other.pos[0] < SOLDIER_SIZE
        &&& -SOLDIER_SIZE < self.pos[1] - other.pos[1] < SOLDIER_SIZE
    }

    /// The squared distance between the two soldiers.
    pub open spec fn spec_gap_sq(&self, other: &Soldier) -> nat {
        let dx = other.pos[0] - self.pos[0];
        let dy = other.pos[1] - self.pos[1];
        (dx * dx + dy * dy) as nat
    }

    /// The distance between the two soldiers, rounded down.
    pub open spec fn spec_distance_from(&self, other: &Soldier) -> i64 {
        spec_root(self.spec_gap_sq(other)) as i64
    }

    /// The direction from this soldier to the other, as the cosine and the sine
    /// of its angle. Two soldiers on one spot face along the first axis.
    pub open spec fn spec_angle_to(&self, other: &Soldier) -> [i64; 2] {
        let gap_sq = self.spec_gap_sq(other);
        if gap_sq == 0 {
            [ONE, 0]
        } else {
            [
                spec_unit((other.pos[0] - self.pos[0]) as i64, gap_sq),
                spec_unit((other.pos[1] - self.pos[1]) as i64, gap_sq),
            ]
        }
    }

    /// The class's battle bonus, scaled by the share of its health the soldier
    /// has left.
    pub open spec fn spec_battle_multiplier(&self) -> i64 {
        (self.legion.spec_battle_bonus() * self.health / (
        self.legion.spec_base_health() as int)) as i64
    }

    /// The combat strength: level times battle multiplier.
    pub open spec fn spec_strength(&self) -> u64 {
        (self.level * self.spec_battle_multiplier()) as u64
    }

    /// The colour of the soldier, as red, green, blue and opacity out of 255.
    pub open spec fn spec_color(&self) -> [u8; 4] {
        match self.team {
            Team::Blue => match self.legion {
                SoldierType::Triarii => [0, 0, 125, 255],
                SoldierType::Principes => [32, 32, 150, 255],
                SoldierType::Hastati => [65, 65, 175, 255],
                SoldierType::Velites => [100, 100, 200, 255],
            },
            Team::Red => match self.legion {
                SoldierType::Triarii => [125, 0, 0, 255],
                SoldierType::Principes => [150, 32, 32, 255],
                SoldierType::Hastati => [175, 65, 65, 255],
                SoldierType::Velites => [200, 100, 100, 255],
            },
        }
    }

    /// The soldier with the given impulse added to its velocity.
    pub open spec fn spec_add_velocity(&self, x: i64, y: i64) -> Soldier {
        Soldier { vel: [spec_sum(self.vel[0], x), spec_sum(self.vel[1], y)], ..*self }
    }

    /// The soldier in the given state.
    pub open spec fn with_state(&self, state: BattleState) -> Soldier {
        Soldier { state, ..*self }
    }

    /// The soldier after the arena's bounds have acted on it: on each axis on
    /// which it stands outside the arena, an impulse of fixed size back inward.
    pub open spec fn spec_rebound(&self) -> Soldier {
        let x_vel = if self.pos[0] > SCREEN_WIDTH {
            spec_sum(self.vel[0], (-REBOUND) as i64)
        } else if self.pos[0] < 0 {
            spec_sum(self.vel[0], REBOUND)
        } else {
            self.vel[0]
        };
        let y_vel = if self.pos[1] > SCREEN_HEIGHT {
            spec_sum(self.vel[1], (-REBOUND) as i64)
        } else if self.pos[1] < 0 {
            spec_sum(self.vel[1], REBOUND)
        } else {
            self.vel[1]
        };
        Soldier { vel: [x_vel, y_vel], ..*self }
    }

    /// The distance the soldier covers along an axis in one tick at velocity `v`.
    pub open spec fn spec_stride(&self, v: i64) -> i64 {
        spec_product(
            self.legion.spec_speed_multiplier(),
            spec_clamp(v as int, -MAX_SPEED as int, MAX_SPEED as int) as i64,
        )
    }

    /// The soldier moved on by one tick at its velocity.
    pub open spec fn spec_advance(&self) -> Soldier {
        Soldier {
            pos: [
                spec_sum(self.pos[0], self.spec_stride(self.vel[0])),
                spec_sum(self.pos[1], self.spec_stride(self.vel[1])),
            ],
            ..*self
        }
    }

    /// The soldier with its velocity scaled by a factor.
    pub open spec fn spec_slowed(&self, factor: i64) -> Soldier {
        Soldier {
            vel: [spec_product(self.vel[0], factor), spec_product(self.vel[1], factor)],
            ..*self
        }
    }

    /// The impulse with which this soldier repels the other: along the line from
    /// this one to the other, growing as they come closer than the minimum
    /// separation.
    pub open spec fn spec_push_on(&self, other: &Soldier) -> [i64; 2] {
        let dir = self.spec_angle_to(other);
        let distance = self.spec_distance_from(other);
        let slack = if distance < MIN_SEPARATION { (MIN_SEPARATION - distance) as i64 } else { 0 };
        let force = spec_product(PUSH_POWER, slack);
        [spec_product(dir[0], force), spec_product(dir[1], force)]
    }

    /// The soldier after one tick of acceleration toward the other.
    pub open spec fn spec_steer(&self, other: &Soldier) -> Soldier {
        let dir = self.spec_angle_to(other);
        self.spec_add_velocity(spec_product(dir[0], ACCEL), spec_product(dir[1], ACCEL))
    }

    /// The other stands within this soldier's reach.
    pub open spec fn spec_reaches(&self, other: &Soldier) -> bool {
        self.spec_distance_from(other) < spec_product(
            ENGAGE_RANGE,
            self.legion.spec_range_multiplier(),
        )
    }

    /// The colour of the soldier, as red, green, blue and opacity out of 255.
    pub fn color(&self) -> (rgba: [u8; 4])
        ensures
            rgba == self.spec_color(),
    {
        match self.team {
            Team::Blue => match self.legion {
                SoldierType::Triarii => [0, 0, 125, 255],
                SoldierType::Principes => [32, 32, 150, 255],
                SoldierType::Hastati => [65, 65, 175, 255],
                SoldierType::Velites => [100, 100, 200, 255],
            },
            Team::Red => match self.legion {
                SoldierType::Triarii => [125, 0, 0, 255],
                SoldierType::Principes => [150, 32, 32, 255],
                SoldierType::Hastati => [175, 65, 65, 255],
                SoldierType::Velites => [200, 100, 100, 255],
            },
        }
    }

    /// The squared distance between the two soldiers.
    pub fn gap_sq(&self, other: &Soldier) -> (gap: u64)
        requires
            self.wf(),
            other.wf(),
        ensures
            gap == self.spec_gap_sq(other),
            gap <= 8 * LIMIT * LIMIT,
    {
        let dx: i64 = other.pos[0] - self.pos[0];
        let dy: i64 = other.pos[1] - self.pos[1];
        assert(0 <= dx * dx <= 4 * LIMIT * LIMIT) by (nonlinear_arith)
            requires
                -2 * LIMIT <= dx <= 2 * LIMIT,
        ;
        assert(0 <= dy * dy <= 4 * LIMIT * LIMIT) by (nonlinear_arith)
            requires
                -2 * LIMIT <= dy <= 2 * LIMIT,
        ;
        (dx * dx + dy * dy) as u64
    }

    /// The distance between the two soldiers, rounded down.
    #[verifier::when_used_as_spec(spec_distance_from)]
    pub fn distance_from(&self, other: &Soldier) -> (distance: i64)
        requires
            self.wf(),
            other.wf(),
        ensures
            distance == self.spec_distance_from(other),
            0 <= distance < 0x1_0000_0000,
    {
        root(self.gap_sq(other)) as i64
    }

    /// The direction from this soldier to the other, as the cosine and the sine
    /// of its angle.
    #[verifier::when_used_as_spec(spec_angle_to)]
    pub fn angle_to(&self, other: &Soldier) -> (dir: [i64; 2])
        requires
            self.wf(),
            other.wf(),
        ensures
            dir == self.spec_angle_to(other),
            -ONE <= dir[0] <= ONE,
            -ONE <= dir[1] <= ONE,
    {
        let gap: u64 = self.gap_sq(other);
        if gap == 0 {
            [ONE, 0]
        } else {
            let dx: i64 = other.pos[0] - self.pos[0];
            let dy: i64 = other.pos[1] - self.pos[1];
            assert(dx * dx >= 0 && dy * dy >= 0) by (nonlinear_arith);
            [unit(dx, gap), unit(dy, gap)]
        }
    }

    /// The position on the first axis.
    #[verifier::when_used_as_spec(spec_x)]
    pub fn x(&self) -> (x: i64)
        ensures
            x == self.pos[0],
    {
        self.pos[0]
    }

    /// The position on the second axis.
    #[verifier::when_used_as_spec(spec_y)]
    pub fn y(&self) -> (y: i64)
        ensures
            y == self.pos[1],
    {
        self.pos[1]
    }

    /// The velocity along the first axis.
    #[verifier::when_used_as_spec(spec_x_vel)]
    pub fn x_vel(&self) -> (x_vel: i64)
        ensures
            x_vel == self.vel[0],
    {
        self.vel[0]
    }

    /// The velocity along the second axis.
    #[verifier::when_used_as_spec(spec_y_vel)]
    pub fn y_vel(&self) -> (y_vel: i64)
        ensures
            y_vel == self.vel[1],
    {
        self.vel[1]
    }

    /// The position.
    pub fn pos(&self) -> (pos: [i64; 2])
        ensures
            pos == self.pos,
    {
        self.pos
    }

    /// The middle of the square the soldier occupies.
    pub fn pos_centered(&self) -> (center: [i64; 2])
        requires
            self.wf(),
        ensures
            center[0] == self.pos[0] + SOLDIER_SIZE / 2,
            center[1] == self.pos[1] + SOLDIER_SIZE / 2,
    {
        [self.x() + (SOLDIER_SIZE / 2), self.y() + (SOLDIER_SIZE / 2)]
    }

    /// Adds an impulse to the velocity.
    pub fn add_velocity(&mut self, x: i64, y: i64)
        ensures
            *final(self) == old(self).spec_add_velocity(x, y),
            bounded(final(self).vel[0] as int),
            bounded(final(self).vel[1] as int),
    {
        self.vel = [sum(self.x_vel(), x), sum(self.y_vel(), y)];
    }

    /// Whether the soldier is alive: in any state but `Dead`.
    #[verifier::when_used_as_spec(spec_alive)]
    pub fn alive(&self) -> (alive: bool)
        ensures
            alive == (self.state != BattleState::Dead),
    {
        self.state != BattleState::Dead
    }

    /// Whether the soldier is dead.
    #[verifier::when_used_as_spec(spec_dead)]
    pub fn dead(&self) -> (dead: bool)
        ensures
            dead == (self.state == BattleState::Dead),
    {
        self.state == BattleState::Dead
    }

    /// Whether the squares of the two soldiers overlap.
    #[verifier::when_used_as_spec(spec_inside)]
    pub fn inside(&self, other: &Soldier) -> (overlap: bool)
        requires
            self.wf(),
            other.wf(),
        ensures
            overlap == self.spec_inside(other),
    {
        let dx: i64 = self.x() - other.x();
        let dy: i64 = self.y() - other.y();
        -SOLDIER_SIZE < dx && dx < SOLDIER_SIZE && -SOLDIER_SIZE < dy && dy < SOLDIER_SIZE
    }

    /// The class's battle bonus, scaled by the share of its health the soldier
    /// has left.
    #[verifier::when_used_as_spec(spec_battle_multiplier)]
    pub fn battle_multiplier(&self) -> (multiplier: i64)
        ensures
            multiplier == self.spec_battle_multiplier(),
            self.wf() ==> 0 <= multiplier <= 1728,
            self.wf() && self.health > 0 ==> multiplier > 0,
    {
        let bonus: i64 = self.legion.battle_bonus();
        let base: i64 = self.legion.base_health() as i64;
        let health: i64 = self.health as i64;
        assert(bonus * health == match self.legion {
            SoldierType::Triarii => 1600 * health,
            SoldierType::Principes => 1300 * health,
            SoldierType::Hastati => 900 * health,
            SoldierType::Velites => 1000 * health,
        });
        bonus * health / base
    }

    /// The combat strength: level times battle multiplier.
    #[verifier::when_used_as_spec(spec_strength)]
    pub fn strength(&self) -> (strength: u64)
        requires
            self.wf(),
        ensures
            strength == self.spec_strength(),
            strength <= 3000 * 1728,
            self.health > 0 ==> strength > 0,
    {
        let multiplier: i64 = self.battle_multiplier();
        assert(0 <= self.level * multiplier <= 3000 * 1728) by (nonlinear_arith)
            requires
                0 <= self.level <= 3000,
                0 <= multiplier <= 1728,
        ;
        assert(self.health > 0 ==> self.level * multiplier > 0) by (nonlinear_arith)
            requires
                self.level >= 1000,
                self.health > 0 ==> multiplier > 0,
        ;
        (self.level as u64) * (multiplier as u64)
    }
}

} // verus!
