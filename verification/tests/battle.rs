use battle_sim::app::add_block;
use battle_sim::{App, BattleState, Soldier, SoldierType, Team};

fn duel() -> App {
    let mut app = App::new();
    let a = app.add_soldier_with(Team::Red, SoldierType::Hastati, [0, 0], [0, 0, 0, 0]);
    let b = app.add_soldier_with(Team::Blue, SoldierType::Triarii, [5000, 5000], [0, 0, 0, 0]);
    assert_eq!((a, b), (0, 1));
    app
}

fn dead_among(app: &App) -> usize {
    app.soldiers.iter().filter(|s| s.dead()).count()
}

#[test]
fn a_new_battlefield_is_empty() {
    let app = App::new();
    assert_eq!(app.frame(), 0);
    assert!(app.soldiers.is_empty());
    assert!(app.snapshot().is_empty());
    assert_eq!(app.alive_count(Team::Red), 0);
    assert_eq!(app.alive_count(Team::Blue), 0);
}

#[test]
fn handles_count_up_from_zero() {
    let mut app = App::new();
    for expected in 0..20u64 {
        let handle = app.add_soldier(Team::Red, SoldierType::Velites, [0, 0]);
        assert_eq!(handle, expected);
        assert_eq!(app.soldiers[expected as usize].id, expected);
    }
    assert_eq!(app.soldiers.len(), 20);
    assert_eq!(app.frame(), 0);
}

#[test]
fn added_soldiers_wait_as_long_as_their_class_does() {
    let mut app = App::new();
    app.add_soldier(Team::Red, SoldierType::Triarii, [0, 0]);
    app.add_soldier(Team::Red, SoldierType::Principes, [0, 0]);
    app.add_soldier(Team::Blue, SoldierType::Hastati, [0, 0]);
    app.add_soldier(Team::Blue, SoldierType::Velites, [0, 0]);
    assert_eq!(app.soldiers[0].state, BattleState::Idle(2100));
    assert_eq!(app.soldiers[1].state, BattleState::Idle(1200));
    assert_eq!(app.soldiers[2].state, BattleState::Idle(420));
    assert_eq!(app.soldiers[3].state, BattleState::Idle(10));
}

#[test]
fn added_soldiers_are_within_their_ranges() {
    let mut app = App::new();
    for _ in 0..100 {
        app.add_soldier(Team::Blue, SoldierType::Velites, [600_000, 300_000]);
    }
    for s in app.soldiers.iter() {
        assert!(600_000 <= s.pos[0] && s.pos[0] < 602_000);
        assert!(300_000 <= s.pos[1] && s.pos[1] < 302_000);
        assert!(1000 <= s.level && s.level < 3000);
        assert!(15 <= s.health && s.health <= 24);
        assert_eq!(s.vel, [0, 0]);
        assert_eq!(s.team, Team::Blue);
        assert_eq!(s.legion, SoldierType::Velites);
    }
}

#[test]
fn added_soldiers_take_their_draws() {
    let mut app = App::new();
    let handle =
        app.add_soldier_with(Team::Blue, SoldierType::Principes, [1000, 2000], [500, 1500, 250, 9]);
    assert_eq!(handle, 0);
    let s = app.soldiers[0];
    assert_eq!(s.pos, [1500, 3500]);
    assert_eq!(s.level, 1250);
    assert_eq!(s.health, 44);
    assert_eq!(s.state, BattleState::Idle(1200));
    assert_eq!(s.id, 0);
}

#[test]
fn every_update_is_one_frame() {
    let mut app = duel();
    for expected in 1..=10u64 {
        app.update();
        assert_eq!(app.frame(), expected);
    }
    app.update_with(&vec![0, 0]);
    assert_eq!(app.frame(), 11);
    app.update_with(&vec![]);
    assert_eq!(app.frame(), 12);
}

#[test]
fn missing_draws_count_as_zero() {
    let mut with = duel();
    let mut without = duel();
    for _ in 0..600 {
        with.update_with(&vec![0, 0]);
        without.update_with(&vec![]);
    }
    for i in 0..2 {
        assert_eq!(with.soldiers[i].state, without.soldiers[i].state);
        assert_eq!(with.soldiers[i].pos, without.soldiers[i].pos);
        assert_eq!(with.soldiers[i].health, without.soldiers[i].health);
    }
    assert_eq!(dead_among(&with), 1);
}

#[test]
fn the_snapshot_shows_every_soldier() {
    let mut app = duel();
    app.soldiers[1].state = BattleState::Dead;
    let view = app.snapshot();
    assert_eq!(view.len(), 2);
    assert_eq!(view[0], (0, Team::Red, SoldierType::Hastati, [0, 0], true));
    assert_eq!(view[1], (1, Team::Blue, SoldierType::Triarii, [5000, 5000], false));
}

#[test]
fn the_living_are_counted_by_side() {
    let mut app = App::new();
    for _ in 0..3 {
        app.add_soldier(Team::Red, SoldierType::Hastati, [0, 0]);
    }
    for _ in 0..5 {
        app.add_soldier(Team::Blue, SoldierType::Hastati, [90_000, 0]);
    }
    assert_eq!(app.alive_count(Team::Red), 3);
    assert_eq!(app.alive_count(Team::Blue), 5);
    app.soldiers[0].state = BattleState::Dead;
    app.soldiers[7].state = BattleState::Dead;
    app.soldiers[4].state = BattleState::Dead;
    assert_eq!(app.alive_count(Team::Red), 2);
    assert_eq!(app.alive_count(Team::Blue), 3);
}

#[test]
fn a_duel_ends_with_the_attacker_winning_on_a_low_draw() {
    let mut app = duel();
    // 420 ticks of waiting, one to pick the target, one to close, 60 of fighting
    for _ in 0..420 {
        app.update_with(&vec![0, 0]);
    }
    assert_eq!(app.soldiers[0].state, BattleState::Idle(0));
    assert_eq!(app.soldiers[0].pos, [0, 0]);
    app.update_with(&vec![0, 0]);
    assert_eq!(app.soldiers[0].state, BattleState::Charging(10, 1));
    app.update_with(&vec![0, 0]);
    assert_eq!(app.soldiers[0].state, BattleState::Attacking(60, 1));
    assert_eq!(app.soldiers[1].state, BattleState::Defending(59, 0));
    for _ in 0..60 {
        app.update_with(&vec![0, 0]);
        assert_eq!(dead_among(&app), 0);
    }
    assert_eq!(app.soldiers[0].state, BattleState::Attacking(0, 1));
    assert_eq!(app.soldiers[1].state, BattleState::Idle(5));
    app.update_with(&vec![0, 0]);
    assert_eq!(app.frame(), 483);
    assert_eq!(app.soldiers[0].state, BattleState::Idle(5));
    assert_eq!(app.soldiers[0].health, 22);
    assert_eq!(app.soldiers[1].state, BattleState::Dead);
    assert_eq!(app.soldiers[1].health, 45);
    assert_eq!(app.alive_count(Team::Red), 1);
    assert_eq!(app.alive_count(Team::Blue), 0);
    for _ in 0..4517 {
        app.update_with(&vec![0, 0]);
    }
    assert_eq!(app.frame(), 5000);
    assert_eq!(dead_among(&app), 1);
    assert!(app.soldiers[0].alive());
}

#[test]
fn a_duel_ends_with_the_attacker_losing_on_a_high_draw() {
    let mut app = duel();
    let draws = vec![u32::MAX, u32::MAX];
    let mut ticks = 0;
    while dead_among(&app) == 0 && ticks < 5000 {
        app.update_with(&draws);
        ticks += 1;
    }
    // the fight lasts 75 ticks with this draw
    assert_eq!(ticks, 498);
    assert_eq!(app.soldiers[0].state, BattleState::Dead);
    assert_eq!(app.soldiers[0].health, 0);
    assert!(app.soldiers[1].alive());
    assert_eq!(app.soldiers[1].health, 45);
    for _ in ticks..5000 {
        app.update_with(&draws);
    }
    assert_eq!(dead_among(&app), 1);
    assert!(app.soldiers[1].alive());
}

#[test]
fn a_duel_with_free_chance_leaves_exactly_one_standing() {
    for _ in 0..20 {
        let mut app = App::new();
        app.add_soldier(Team::Red, SoldierType::Hastati, [0, 0]);
        app.add_soldier(Team::Blue, SoldierType::Triarii, [5000, 5000]);
        let mut ticks = 0;
        while dead_among(&app) == 0 && ticks < 5000 {
            app.update();
            ticks += 1;
        }
        assert!(ticks < 5000);
        assert_eq!(dead_among(&app), 1);
        assert_eq!(app.alive_count(Team::Red) + app.alive_count(Team::Blue), 1);
        while ticks < 5000 {
            app.update();
            ticks += 1;
        }
        assert_eq!(dead_among(&app), 1);
    }
}

#[test]
fn health_never_grows_and_the_dead_stay_as_they_are() {
    let mut app = App::new();
    for row in 0..5 {
        for col in 0..6 {
            app.add_soldier(Team::Red, SoldierType::Velites, [100_000 + col * 8000, 100_000 + row * 8000]);
            app.add_soldier(Team::Blue, SoldierType::Velites, [160_000 + col * 8000, 100_000 + row * 8000]);
        }
    }
    let born: Vec<Soldier> = app.soldiers.clone();
    let mut fallen = 0;
    for _ in 0..3000 {
        let before: Vec<Soldier> = app.soldiers.clone();
        app.update();
        assert_eq!(app.soldiers.len(), before.len());
        for (old, new) in before.iter().zip(app.soldiers.iter()) {
            assert!(new.health <= old.health);
            assert_eq!(new.id, old.id);
            assert_eq!(new.level, old.level);
            assert_eq!(new.team, old.team);
            assert_eq!(new.legion, old.legion);
            if new.health == 0 {
                assert!(new.dead());
            }
            if old.dead() {
                assert!(new.dead());
                assert_eq!(new.pos, old.pos);
                assert_eq!(new.vel, old.vel);
                assert_eq!(new.health, old.health);
            }
        }
        fallen = dead_among(&app);
    }
    assert!(fallen >= 30);
    assert!(app.alive_count(Team::Red) == 0 || app.alive_count(Team::Blue) == 0);
    for (first, last) in born.iter().zip(app.soldiers.iter()) {
        assert!(last.health <= first.health);
        assert_eq!(last.level, first.level);
    }
}

#[test]
fn states_refer_to_other_soldiers_of_the_army() {
    let mut app = App::new();
    for i in 0..12 {
        let team = if i % 2 == 0 { Team::Red } else { Team::Blue };
        app.add_soldier(team, SoldierType::Velites, [300_000 + i * 3000, 300_000]);
    }
    for _ in 0..1500 {
        app.update();
        for (i, s) in app.soldiers.iter().enumerate() {
            match s.state {
                BattleState::Charging(_, h) | BattleState::Attacking(_, h) | BattleState::Defending(_, h) => {
                    assert!((h as usize) < app.soldiers.len());
                    assert_ne!(h as usize, i);
                    assert_ne!(app.soldiers[h as usize].team, s.team);
                }
                _ => {}
            }
            assert!(s.pos[0].abs() <= 1_000_000_000 && s.pos[1].abs() <= 1_000_000_000);
        }
    }
}

#[test]
fn a_block_is_filled_row_by_row() {
    let mut app = App::new();
    app.add_soldier(Team::Blue, SoldierType::Velites, [0, 0]);
    add_block(&mut app, [100_000, 200_000], 3, 2, Team::Red, SoldierType::Principes);
    assert_eq!(app.soldiers.len(), 7);
    assert_eq!(app.soldiers[0].team, Team::Blue);
    let spots = [(0, 0), (1, 0), (2, 0), (0, 1), (1, 1), (2, 1)];
    for (k, (col, row)) in spots.iter().enumerate() {
        let s = app.soldiers[k + 1];
        assert_eq!(s.id, k as u64 + 1);
        assert_eq!(s.team, Team::Red);
        assert_eq!(s.legion, SoldierType::Principes);
        assert_eq!(s.state, BattleState::Idle(1200));
        let x = 100_000 + col * 8000;
        let y = 200_000 + row * 8000;
        assert!(x <= s.pos[0] && s.pos[0] < x + 2000);
        assert!(y <= s.pos[1] && s.pos[1] < y + 2000);
        assert!(35 <= s.health && s.health <= 44);
    }
    assert!(app.valid());
}

#[test]
fn an_empty_block_adds_nobody() {
    let mut app = App::new();
    add_block(&mut app, [0, 0], 0, 5, Team::Red, SoldierType::Principes);
    add_block(&mut app, [0, 0], 5, 0, Team::Red, SoldierType::Principes);
    assert!(app.soldiers.is_empty());
}

#[test]
fn a_battlefield_stays_valid() {
    let mut app = App::new();
    assert!(app.valid());
    add_block(&mut app, [100_000, 100_000], 4, 4, Team::Red, SoldierType::Velites);
    add_block(&mut app, [140_000, 100_000], 4, 4, Team::Blue, SoldierType::Velites);
    assert!(app.valid());
    for _ in 0..500 {
        app.update();
        assert!(app.valid());
    }
}

#[test]
fn a_battlefield_with_a_broken_soldier_is_not_valid() {
    let mut app = duel();
    assert!(app.valid());

    let mut broken = duel();
    broken.soldiers[1].id = 5;
    assert!(!broken.valid());

    let mut broken = duel();
    broken.soldiers[0].state = BattleState::Charging(3, 0);
    assert!(!broken.valid());

    let mut broken = duel();
    broken.soldiers[0].state = BattleState::Defending(3, 2);
    assert!(!broken.valid());

    let mut broken = duel();
    broken.soldiers[0].health = 0;
    assert!(!broken.valid());
    broken.soldiers[0].state = BattleState::Dead;
    assert!(broken.valid());

    let mut broken = duel();
    broken.soldiers[1].health = 55;
    assert!(!broken.valid());

    let mut broken = duel();
    broken.soldiers[1].level = 3000;
    assert!(!broken.valid());
    broken.soldiers[1].level = 999;
    assert!(!broken.valid());

    let mut broken = duel();
    broken.soldiers[1].pos = [1_000_000_001, 0];
    assert!(!broken.valid());

    let mut broken = duel();
    broken.soldiers[1].vel = [0, -1_000_000_001];
    assert!(!broken.valid());

    app.soldiers[0].state = BattleState::Attacking(3, 1);
    app.soldiers[1].pos = [-1_000_000_000, 1_000_000_000];
    assert!(app.valid());
}
