use battle_sim::soldier::{battle_time, battle_won, unit};
use battle_sim::{BattleState, Soldier, SoldierType, Team};

fn at(x: i64, y: i64) -> Soldier {
    Soldier {
        legion: SoldierType::Hastati,
        pos: [x, y],
        vel: [0, 0],
        state: BattleState::Idle(0),
        team: Team::Red,
        level: 1000,
        health: 30,
        id: 0,
    }
}

#[test]
fn from_draws_without_jitter() {
    let s = Soldier::from_draws(Team::Red, SoldierType::Hastati, [5000, 7000], 42, 3, [0, 0, 0, 0]);
    assert_eq!(s.pos, [5000, 7000]);
    assert_eq!(s.vel, [0, 0]);
    assert_eq!(s.state, BattleState::Idle(42));
    assert_eq!(s.team, Team::Red);
    assert_eq!(s.legion, SoldierType::Hastati);
    assert_eq!(s.level, 1000);
    assert_eq!(s.health, 25);
    assert_eq!(s.id, 3);
}

#[test]
fn from_draws_with_jitter() {
    let s = Soldier::from_draws(
        Team::Blue,
        SoldierType::Triarii,
        [-1000, 0],
        0,
        7,
        [1999, 2000, 4001, 19],
    );
    assert_eq!(s.pos, [999, 0]);
    assert_eq!(s.level, 1001);
    assert_eq!(s.health, 54);
    assert_eq!(s.id, 7);
}

#[test]
fn from_draws_takes_the_largest_draws() {
    let s = Soldier::from_draws(
        Team::Blue,
        SoldierType::Velites,
        [0, 0],
        0,
        0,
        [u32::MAX, u32::MAX, u32::MAX, u32::MAX],
    );
    // 4294967295 = 2147483 * 2000 + 1295 = 429496729 * 10 + 5
    assert_eq!(s.pos, [1295, 1295]);
    assert_eq!(s.level, 2295);
    assert_eq!(s.health, 20);
}

#[test]
fn from_draws_keeps_far_positions_in_range() {
    let s = Soldier::from_draws(
        Team::Blue,
        SoldierType::Velites,
        [i64::MAX, i64::MIN],
        0,
        0,
        [1, 1, 0, 0],
    );
    assert_eq!(s.pos, [1_000_000_000, -1_000_000_000]);
}

#[test]
fn new_soldiers_are_within_their_ranges() {
    for id in 0..200u64 {
        let s = Soldier::new(Team::Red, SoldierType::Principes, [10_000, 20_000], 5, id);
        assert!(10_000 <= s.pos[0] && s.pos[0] < 12_000);
        assert!(20_000 <= s.pos[1] && s.pos[1] < 22_000);
        assert!(1000 <= s.level && s.level < 3000);
        assert!(35 <= s.health && s.health <= 44);
        assert_eq!(s.vel, [0, 0]);
        assert_eq!(s.state, BattleState::Idle(5));
        assert_eq!(s.id, id);
        assert!(s.alive());
        assert!(!s.dead());
    }
}

#[test]
fn new_soldiers_differ() {
    let mut levels = Vec::new();
    for id in 0..50u64 {
        levels.push(Soldier::new(Team::Red, SoldierType::Principes, [0, 0], 5, id).level);
    }
    assert!(levels.iter().any(|l| *l != levels[0]));
}

#[test]
fn getters_read_the_fields() {
    let mut s = at(1500, -2500);
    s.vel = [30, -40];
    assert_eq!(s.x(), 1500);
    assert_eq!(s.y(), -2500);
    assert_eq!(s.x_vel(), 30);
    assert_eq!(s.y_vel(), -40);
    assert_eq!(s.pos(), [1500, -2500]);
    assert_eq!(s.pos_centered(), [3500, -500]);
}

#[test]
fn add_velocity_adds_and_saturates() {
    let mut s = at(0, 0);
    s.add_velocity(100, -200);
    assert_eq!(s.vel, [100, -200]);
    s.add_velocity(1_000_000_000, -1_000_000_000);
    assert_eq!(s.vel, [1_000_000_000, -1_000_000_000]);
    s.add_velocity(-1, 1);
    assert_eq!(s.vel, [999_999_999, -999_999_999]);
}

#[test]
fn alive_is_not_dead() {
    let mut s = at(0, 0);
    for state in [
        BattleState::Idle(3),
        BattleState::Charging(1, 2),
        BattleState::Attacking(1, 2),
        BattleState::Defending(1, 2),
    ] {
        s.state = state;
        assert!(s.alive());
        assert!(!s.dead());
    }
    s.state = BattleState::Dead;
    assert!(!s.alive());
    assert!(s.dead());
}

#[test]
fn inside_needs_overlap_on_both_axes() {
    let s = at(10_000, 10_000);
    assert!(s.inside(&at(10_000, 10_000)));
    assert!(s.inside(&at(13_999, 6_001)));
    assert!(!s.inside(&at(14_000, 10_000)));
    assert!(!s.inside(&at(10_000, 6_000)));
    assert!(!s.inside(&at(6_000, 14_000)));
    assert!(s.inside(&at(6_001, 13_999)));
}

#[test]
fn distance_is_euclidean_and_rounded_down() {
    assert_eq!(at(0, 0).distance_from(&at(3000, 4000)), 5000);
    assert_eq!(at(3000, 4000).distance_from(&at(0, 0)), 5000);
    assert_eq!(at(0, 0).distance_from(&at(5000, 5000)), 7071);
    assert_eq!(at(0, 0).distance_from(&at(0, 0)), 0);
    assert_eq!(at(0, 0).distance_from(&at(1, 1)), 1);
    assert_eq!(at(-1000, 0).distance_from(&at(1000, 0)), 2000);
    assert_eq!(at(0, 0).gap_sq(&at(3000, 4000)), 25_000_000);
}

#[test]
fn distance_between_the_far_corners() {
    let a = at(-1_000_000_000, -1_000_000_000);
    let b = at(1_000_000_000, 1_000_000_000);
    assert_eq!(a.gap_sq(&b), 8_000_000_000_000_000_000);
    assert_eq!(a.distance_from(&b), 2_828_427_124);
    assert_eq!(a.angle_to(&b), [707, 707]);
    assert_eq!(b.angle_to(&a), [-707, -707]);
}

#[test]
fn angle_is_a_unit_vector() {
    assert_eq!(at(0, 0).angle_to(&at(3000, 4000)), [600, 800]);
    assert_eq!(at(0, 0).angle_to(&at(-3000, 4000)), [-600, 800]);
    assert_eq!(at(0, 0).angle_to(&at(-3000, -4000)), [-600, -800]);
    assert_eq!(at(0, 0).angle_to(&at(5000, 0)), [1000, 0]);
    assert_eq!(at(0, 0).angle_to(&at(0, -5000)), [0, -1000]);
    assert_eq!(at(0, 0).angle_to(&at(5000, 5000)), [707, 707]);
    assert_eq!(at(0, 0).angle_to(&at(1, 1)), [707, 707]);
    assert_eq!(at(2000, 2000).angle_to(&at(2001, 2000)), [1000, 0]);
}

#[test]
fn angle_between_soldiers_on_one_spot_is_zero() {
    assert_eq!(at(700, 700).angle_to(&at(700, 700)), [1000, 0]);
}

#[test]
fn unit_component_by_hand() {
    assert_eq!(unit(3000, 25_000_000), 600);
    assert_eq!(unit(-4000, 25_000_000), -800);
    assert_eq!(unit(0, 25_000_000), 0);
    assert_eq!(unit(1, 1), 1000);
    assert_eq!(unit(-1, 1), -1000);
    assert_eq!(unit(1, 2), 707);
}

#[test]
fn battle_multiplier_scales_the_bonus_by_health() {
    let mut s = at(0, 0);
    s.health = 30;
    assert_eq!(s.battle_multiplier(), 900);
    s.health = 15;
    assert_eq!(s.battle_multiplier(), 450);
    s.health = 1;
    assert_eq!(s.battle_multiplier(), 30);
    s.health = 34;
    assert_eq!(s.battle_multiplier(), 1020);
    s.health = 0;
    assert_eq!(s.battle_multiplier(), 0);
    s.legion = SoldierType::Triarii;
    s.health = 54;
    assert_eq!(s.battle_multiplier(), 1728);
    s.legion = SoldierType::Principes;
    s.health = 7;
    assert_eq!(s.battle_multiplier(), 227);
}

#[test]
fn strength_is_level_times_multiplier() {
    let mut s = at(0, 0);
    s.level = 2500;
    s.health = 15;
    assert_eq!(s.strength(), 2500 * 450);
    s.legion = SoldierType::Triarii;
    s.level = 2999;
    s.health = 54;
    assert_eq!(s.strength(), 2999 * 1728);
}

#[test]
fn battle_time_lies_between_sixty_and_one_hundred_twenty() {
    assert_eq!(battle_time(0), 60);
    assert_eq!(battle_time(59), 119);
    assert_eq!(battle_time(60), 60);
    assert_eq!(battle_time(61), 61);
    // 4294967295 = 71582788 * 60 + 15
    assert_eq!(battle_time(u32::MAX), 75);
    for draw in 0..1000u32 {
        let t = battle_time(draw.wrapping_mul(2_654_435_761));
        assert!(60 <= t && t < 120);
    }
}

#[test]
fn equal_strengths_win_the_lower_half_of_the_draws() {
    assert!(battle_won(1000, 1000, 0));
    assert!(battle_won(1000, 1000, 0x7fff_ffff));
    assert!(!battle_won(1000, 1000, 0x8000_0000));
    assert!(!battle_won(1000, 1000, u32::MAX));
}

#[test]
fn battle_won_follows_the_odds() {
    // one in four: wins below 2^30
    assert!(battle_won(1, 3, 0x3fff_ffff));
    assert!(!battle_won(1, 3, 0x4000_0000));
    // three in four: wins below 3 * 2^30
    assert!(battle_won(3, 1, 0xbfff_ffff));
    assert!(!battle_won(3, 1, 0xc000_0000));
}

#[test]
fn battle_won_with_no_strength_at_all() {
    assert!(!battle_won(0, 5, 0));
    assert!(!battle_won(0, 0, 0));
    assert!(battle_won(5, 0, u32::MAX));
}

#[test]
fn battle_won_with_the_largest_strengths() {
    assert!(battle_won(u64::MAX, u64::MAX, 0x7fff_ffff));
    assert!(!battle_won(u64::MAX, u64::MAX, 0x8000_0000));
}

#[test]
fn equal_strengths_win_about_half_of_ten_thousand_fights() {
    let mut wins = 0;
    for _ in 0..10_000 {
        if battle_won(750_000, 750_000, rand::random::<u32>()) {
            wins += 1;
        }
    }
    assert!(4700 < wins && wins < 5300);
}
