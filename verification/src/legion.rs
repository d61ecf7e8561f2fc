//! The two sides and the four classes of soldier, with the constants of each class.
//!
//! Multipliers are fixed-point numbers (see [`crate::fixed`]): `1600` stands for 1.6.

use vstd::prelude::*;

verus! {

/// The health pool of the sturdiest class, before the jitter a new soldier gets.
pub const MAX_HEALTH: u32 = 50;

/// One of the two opposing sides.
#[derive(Clone, Copy, Debug, PartialEq, Eq, Structural)]
pub enum Team {
    Red,
    Blue,
}

impl Team {
    /// The name of the side as text.
    pub open spec fn spec_name(&self) -> Seq<char> {
        match self {
            Team::Red => "Red"@,
            Team::Blue => "Blue"@,
        }
    }

    /// The name of the side as text.
    pub fn to_string(&self) -> (name: String)
        ensures
            name@ == self.spec_name(),
    {
        match self {
            Team::Red => "Red".to_string(),
            Team::Blue => "Blue".to_string(),
        }
    }
}

/// The class of a soldier: heavy reserve, middle line, light line, skirmisher.
#[derive(Clone, Copy, Debug, PartialEq, Eq, Structural)]
pub enum SoldierType {
    Triarii,
    Principes,
    Hastati,
    Velites,
}

impl SoldierType {
    /// The multiplier on combat strength.
    pub open spec fn spec_battle_bonus(&self) -> i64 {
        match self {
            SoldierType::Triarii => 1600,
            SoldierType::Principes => 1300,
            SoldierType::Hastati => 900,
            SoldierType::Velites => 1000,
        }
    }

    /// The multiplier on the distance at which a charge turns into a fight.
    pub open spec fn spec_range_multiplier(&self) -> i64 {
        match self {
            SoldierType::Triarii => 1400,
            SoldierType::Principes => 1800,
            SoldierType::Hastati => 1000,
            SoldierType::Velites => 2200,
        }
    }

    /// The multiplier on the distance covered per tick.
    pub open spec fn spec_speed_multiplier(&self) -> i64 {
        match self {
            SoldierType::Triarii => 700,
            SoldierType::Principes => 1200,
            SoldierType::Hastati => 1200,
            SoldierType::Velites => 1500,
        }
    }

    /// The health pool around which a new soldier's health is drawn.
    pub open spec fn spec_base_health(&self) -> u32 {
        match self {
            SoldierType::Triarii => MAX_HEALTH,
            SoldierType::Principes => (MAX_HEALTH - 10) as u32,
            SoldierType::Hastati => (MAX_HEALTH - 20) as u32,
            SoldierType::Velites => (MAX_HEALTH - 30) as u32,
        }
    }

    /// The number of ticks a new soldier stands idle before it looks for a target.
    pub open spec fn spec_idle_wait(&self) -> u32 {
        match self {
            SoldierType::Triarii => 2100,
            SoldierType::Principes => 1200,
            SoldierType::Hastati => 420,
            SoldierType::Velites => 10,
        }
    }

    /// The multiplier on combat strength.
    #[verifier::when_used_as_spec(spec_battle_bonus)]
    pub fn battle_bonus(&self) -> (bonus: i64)
        ensures
            bonus == self.spec_battle_bonus(),
    {
        match self {
            SoldierType::Triarii => 1600,
            SoldierType::Principes => 1300,
            SoldierType::Hastati => 900,
            SoldierType::Velites => 1000,
        }
    }

    /// The multiplier on the distance at which a charge turns into a fight.
    #[verifier::when_used_as_spec(spec_range_multiplier)]
    pub fn range_multiplier(&self) -> (multiplier: i64)
        ensures
            multiplier == self.spec_range_multiplier(),
    {
        match self {
            SoldierType::Triarii => 1400,
            SoldierType::Principes => 1800,
            SoldierType::Hastati => 1000,
            SoldierType::Velites => 2200,
        }
    }

    /// The multiplier on the distance covered per tick.
    #[verifier::when_used_as_spec(spec_speed_multiplier)]
    pub fn speed_multiplier(&self) -> (multiplier: i64)
        ensures
            multiplier == self.spec_speed_multiplier(),
    {
        match self {
            SoldierType::Triarii => 700,
            SoldierType::Principes => 1200,
            SoldierType::Hastati => 1200,
            SoldierType::Velites => 1500,
        }
    }

    /// The health pool around which a new soldier's health is drawn.
    #[verifier::when_used_as_spec(spec_base_health)]
    pub fn base_health(&self) -> (health: u32)
        ensures
            health == self.spec_base_health(),
    {
        match self {
            SoldierType::Triarii => MAX_HEALTH,
            SoldierType::Principes => MAX_HEALTH - 10,
            SoldierType::Hastati => MAX_HEALTH - 20,
            SoldierType::Velites => MAX_HEALTH - 30,
        }
    }

    /// The number of ticks a new soldier stands idle before it looks for a target.
    #[verifier::when_used_as_spec(spec_idle_wait)]
    pub fn idle_wait(&self) -> (ticks: u32)
        ensures
            ticks == self.spec_idle_wait(),
    {
        match self {
            SoldierType::Triarii => 35 * 60,
            SoldierType::Principes => 20 * 60,
            SoldierType::Hastati => 7 * 60,
            SoldierType::Velites => 10,
        }
    }
}

} // verus!
