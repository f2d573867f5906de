use invaders::aliens::{Alien, Invader};
use invaders::game::{AppState, Game, GameState, Laser, Shelter, TransitionState};
use invaders::geometry::{within, within_or_touching, EntityDirection, Point};
use invaders::step::Controls;

fn in_game() -> Game {
    let mut g = Game::new();
    g.start_round();
    g
}

fn alien_laser(id: u64, x: i64, y: i64) -> Laser {
    Laser { id, direction: EntityDirection::Down, speed: 300, source: Some(Alien::Red), position: Point { x, y } }
}

fn player_laser(id: u64, x: i64, y: i64) -> Laser {
    Laser { id, direction: EntityDirection::Up, speed: 600, source: None, position: Point { x, y } }
}

#[test]
fn player_has_one_shot_at_a_time() {
    let mut g = in_game();
    assert!(!g.player_shoot(false));
    assert!(g.player_shoot(true));
    assert_eq!(g.world.player_lasers.len(), 1);
    let l = g.world.player_lasers[0];
    assert_eq!(l.position, Point { x: 400_000, y: 82_500 });
    assert_eq!(l.direction, EntityDirection::Up);
    assert_eq!(l.speed, 600);
    assert!(!g.player_shoot(true));
    assert_eq!(g.world.player_lasers.len(), 1);
}

#[test]
fn dead_player_cannot_shoot() {
    let mut g = in_game();
    g.world.player = None;
    assert!(!g.player_shoot(true));
    assert!(g.world.player_lasers.is_empty());
}

#[test]
fn alien_shots_are_capped() {
    let mut g = in_game();
    let rolls = vec![0u32; 55];
    g.aliens_shoot(&rolls);
    assert_eq!(g.world.alien_lasers.len(), 4);
    for (l, a) in g.world.alien_lasers.iter().zip(g.world.aliens.iter()) {
        assert_eq!(l.direction, EntityDirection::Down);
        assert_eq!(l.speed, 300);
        assert_eq!(l.source, Some(a.kind));
        assert_eq!(l.position, Point { x: a.position.x, y: a.position.y - 15_000 });
    }
    g.aliens_shoot(&rolls);
    assert_eq!(g.world.alien_lasers.len(), 4);
}

#[test]
fn aliens_fire_only_on_lucky_draws() {
    let mut g = in_game();
    let mut rolls = vec![1u32; 55];
    g.aliens_shoot(&rolls);
    assert!(g.world.alien_lasers.is_empty());
    rolls[7] = 2400 * 3;
    g.aliens_shoot(&rolls);
    assert_eq!(g.world.alien_lasers.len(), 1);
    assert_eq!(g.world.alien_lasers[0].source, Some(g.world.aliens[7].kind));
    // An alien without a draw does not fire.
    g.aliens_shoot(&vec![0u32; 0]);
    assert_eq!(g.world.alien_lasers.len(), 1);
}

#[test]
fn random_volleys_stay_within_the_cap() {
    let mut g = in_game();
    for _ in 0..2000 {
        g.aliens_shoot_at_random();
        assert!(g.world.alien_lasers.len() <= 4);
    }
}

#[test]
fn lasers_move_at_their_speed() {
    let mut g = in_game();
    g.world.player_lasers = vec![player_laser(1, 100_000, 200_000)];
    g.world.alien_lasers = vec![alien_laser(2, 300_000, 400_000)];
    g.move_lasers(16_667);
    assert_eq!(g.world.player_lasers[0].position, Point { x: 100_000, y: 210_000 });
    assert_eq!(g.world.alien_lasers[0].position, Point { x: 300_000, y: 395_000 });
}

#[test]
fn lasers_leaving_the_field_explode() {
    let mut g = in_game();
    g.world.player_lasers = vec![player_laser(1, 100_000, 592_501)];
    g.world.alien_lasers = vec![alien_laser(2, 300_000, 59_999), alien_laser(3, 300_000, 300_000)];
    g.despawn_lasers();
    assert_eq!(g.events.explosions, vec![1, 2]);
    let blasts = g.handle_laser_explosion();
    assert_eq!(blasts, vec![Point { x: 100_000, y: 600_001 }, Point { x: 300_000, y: 52_499 }]);
    assert!(g.world.player_lasers.is_empty());
    assert_eq!(g.world.alien_lasers.len(), 1);
    assert_eq!(g.world.alien_lasers[0].id, 3);
    assert!(g.events.explosions.is_empty());
}

#[test]
fn alien_laser_hits_player() {
    let mut g = in_game();
    let p = g.world.player.unwrap().position;
    g.world.alien_lasers = vec![alien_laser(7, p.x + 10_000, p.y + 10_000), alien_laser(8, p.x, p.y + 30_000)];
    g.check_for_collisions();
    assert!(g.events.player_hit);
    assert_eq!(g.events.explosions, vec![7]);
}

#[test]
fn player_laser_hits_first_alien_in_reach() {
    let mut g = in_game();
    let a = g.world.aliens[12];
    g.world.player_lasers = vec![player_laser(99, a.position.x, a.position.y - 20_000)];
    g.check_for_collisions();
    let h = g.events.alien_hit.unwrap();
    assert_eq!(h.id, a.id);
    assert_eq!(h.alien_type, Alien::Green);
    assert_eq!(h.position, a.position);
    assert_eq!(g.events.explosions, vec![99]);
    assert!(!g.events.player_hit);
}

#[test]
fn player_laser_misses() {
    let mut g = in_game();
    g.world.player_lasers = vec![player_laser(99, 10_000, 200_000)];
    g.check_for_collisions();
    assert!(g.events.alien_hit.is_none());
    assert!(g.events.explosions.is_empty());
}

#[test]
fn player_hit_costs_a_life() {
    let mut g = in_game();
    g.events.player_hit = true;
    assert!(g.handle_player_hit());
    assert!(g.world.player.is_none());
    assert_eq!(g.ledger.lives, 2);
    assert_eq!(g.flow.game, GameState::Transition);
    assert_eq!(g.flow.transition, TransitionState::PlayerKilled);
    assert!(!g.events.game_over);
    assert!(!g.set_transition_state(999_999));
    assert!(g.set_transition_state(1));
    assert!(g.world.player.is_some());
    assert_eq!(g.flow.game, GameState::Running);
}

#[test]
fn last_life_lost_means_game_over() {
    let mut g = in_game();
    g.ledger.lives = 1;
    g.events.player_hit = true;
    assert!(g.handle_player_hit());
    assert_eq!(g.ledger.lives, 0);
    assert!(g.events.game_over);
    assert_ne!(g.flow.transition, TransitionState::PlayerKilled);
    assert_eq!(g.flow.game, GameState::Running);
    g.handle_game_over();
    assert_eq!(g.flow.transition, TransitionState::GameOver);
}

#[test]
fn game_over_returns_to_menu_with_best_score() {
    let mut g = in_game();
    g.ledger.score = 120;
    g.ledger.best_score = 100;
    g.events.game_over = true;
    g.handle_game_over();
    assert!(g.flow.already_played);
    assert!(g.set_transition_state(1_000_000));
    assert_eq!(g.flow.app, AppState::Menu);
    assert_eq!(g.ledger.best_score, 120);
    assert!(g.world.aliens.is_empty());
    assert!(g.world.player.is_none());
}

#[test]
fn player_hit_without_player_is_ignored() {
    let mut g = in_game();
    g.world.player = None;
    g.events.player_hit = true;
    assert!(!g.handle_player_hit());
    assert_eq!(g.ledger.lives, 3);
    assert!(!g.events.player_hit);
}

#[test]
fn shelter_loses_armor_and_falls_at_zero() {
    let mut g = in_game();
    let s = g.world.shelters[1];
    assert_eq!(s.armor, 100);
    assert_eq!(s.position, Point { x: 316_000, y: 130_000 });
    g.world.alien_lasers = vec![alien_laser(5, s.position.x + 22_500, s.position.y)];
    g.shelter_hit();
    assert_eq!(g.world.shelters[1].armor, 95);
    assert_eq!(g.events.explosions, vec![5]);
    g.world.shelters[1].armor = 5;
    g.shelter_hit();
    assert_eq!(g.world.shelters.len(), 3);
    assert!(g.world.shelters.iter().all(|t| t.id != s.id));
}

#[test]
fn shelter_armor_saturates() {
    let mut g = in_game();
    g.world.shelters = vec![Shelter { id: 1, armor: 7, position: Point { x: 0, y: 0 } }];
    g.world.player_lasers = vec![player_laser(2, 0, 0)];
    g.world.alien_lasers = vec![alien_laser(3, 0, 0)];
    g.shelter_hit();
    assert!(g.world.shelters.is_empty());
    assert_eq!(g.events.explosions, vec![2, 3]);
}

#[test]
fn shelters_are_spread_evenly() {
    let g = in_game();
    let xs: Vec<i64> = g.world.shelters.iter().map(|s| s.position.x).collect();
    assert_eq!(xs, vec![148_000, 316_000, 484_000, 652_000]);
}

#[test]
fn mystery_ship_arrives_and_leaves() {
    let mut g = in_game();
    assert!(!g.spawn_ufo(999_999, 0, 0));
    assert!(!g.spawn_ufo(1, 1, 0));
    assert!(g.spawn_ufo(1_000_000, 60, u32::MAX));
    let u = g.world.ufo.unwrap();
    assert_eq!(u.direction, EntityDirection::Left);
    assert_eq!(u.position, Point { x: 882_000, y: 564_000 });
    assert!(!g.spawn_ufo(1_000_000, 0, 0));
    g.move_ufo(1_000_000);
    assert_eq!(g.world.ufo.unwrap().position.x, 732_000);
    for _ in 0..6 {
        g.move_ufo(1_000_000);
    }
    assert!(g.world.ufo.is_none());
    assert!(g.spawn_ufo(1_000_000, 0, 0));
    let u = g.world.ufo.unwrap();
    assert_eq!(u.direction, EntityDirection::Right);
    assert_eq!(u.position.x, -82_000);
}

#[test]
fn player_moves_and_stays_on_screen() {
    let mut g = in_game();
    g.move_player(true, true, 100_000);
    assert_eq!(g.world.player.unwrap().position.x, 370_000);
    g.move_player(false, true, 100_000);
    assert_eq!(g.world.player.unwrap().position.x, 400_000);
    g.move_player(false, false, 100_000);
    assert_eq!(g.world.player.unwrap().position.x, 400_000);
    g.move_player(true, false, 10_000_000);
    g.restrict_player_movement();
    assert_eq!(g.world.player.unwrap().position.x, 30_000);
    g.move_player(false, true, 10_000_000);
    g.restrict_player_movement();
    assert_eq!(g.world.player.unwrap().position.x, 770_000);
}

#[test]
fn pause_toggles_only_in_game() {
    let mut g = Game::new();
    assert!(!g.handle_input(true));
    g.start_round();
    assert!(!g.handle_input(false));
    assert!(g.handle_input(true));
    assert_eq!(g.flow.game, GameState::Pause);
    assert!(g.handle_input(true));
    assert_eq!(g.flow.game, GameState::Running);
}

#[test]
fn frames_do_nothing_at_the_menu() {
    let mut g = Game::new();
    let f = g.update(Controls { left: true, right: false, fire: true, pause: false }, 16_667);
    assert!(!f.shot);
    assert!(g.world.player.is_none());
}

#[test]
fn frames_run_the_game() {
    let mut g = in_game();
    let f = g.update(Controls { left: false, right: false, fire: true, pause: false }, 16_667);
    assert!(f.shot);
    assert_eq!(g.world.player_lasers.len(), 1);
    let mut score = g.ledger.score;
    for _ in 0..600 {
        g.update(Controls { left: false, right: false, fire: true, pause: false }, 16_667);
        assert!(g.world.player_lasers.len() <= 1);
        assert!(g.world.alien_lasers.len() <= 4);
        assert!(g.ledger.lives <= 5);
        assert!(g.ledger.score >= score);
        score = g.ledger.score;
    }
}

#[test]
fn paused_frames_freeze_the_game() {
    let mut g = in_game();
    let f = g.update(Controls { left: false, right: false, fire: false, pause: true }, 16_667);
    assert!(f.pause_toggled);
    let before: Vec<Invader> = g.world.aliens.clone();
    let f = g.update(Controls { left: true, right: false, fire: true, pause: false }, 900_000);
    assert!(!f.shot);
    assert_eq!(g.world.aliens, before);
    assert_eq!(g.world.player.unwrap().position.x, 400_000);
}

#[test]
fn proximity_tests() {
    let a = Point { x: 0, y: 0 };
    assert!(within(a, Point { x: 3, y: 4 }, 6));
    assert!(!within(a, Point { x: 3, y: 4 }, 5));
    assert!(within_or_touching(a, Point { x: 3, y: 4 }, 5));
    assert!(!within_or_touching(a, Point { x: 3, y: 5 }, 5));
    assert!(!within(a, Point { x: i64::MAX, y: i64::MIN }, 1_000_000_000));
}

#[test]
fn hit_removes_only_the_first_alien_with_the_handle() {
    let mut g = in_game();
    g.world.aliens.truncate(3);
    let twin = g.world.aliens[0].id;
    g.world.aliens[2].id = twin;
    g.events.alien_hit = Some(invaders::aliens::AlienHit {
        alien_type: Alien::Yellow,
        id: twin,
        position: g.world.aliens[0].position,
    });
    g.handle_alien_hit();
    assert_eq!(g.world.aliens.len(), 2);
    assert_eq!(g.world.aliens[1].id, twin);
    assert_eq!(g.ledger.score, 30);
}

#[test]
fn game_left_out_of_play_at_the_menu() {
    let mut g = in_game();
    g.events.game_over = true;
    g.handle_game_over();
    assert!(g.set_transition_state(1_000_000));
    assert_eq!(g.flow.app, AppState::Menu);
    assert_eq!(g.flow.game, GameState::Transition);
    assert_eq!(g.flow.transition, TransitionState::Unset);
    g.start_round();
    assert_eq!(g.flow.game, GameState::Running);
}

#[test]
fn wave_cleared_and_player_killed_together_respawn_both() {
    let mut g = in_game();
    g.world.aliens.truncate(1);
    let a = g.world.aliens[0];
    g.events.alien_hit = Some(invaders::aliens::AlienHit { alien_type: a.kind, id: a.id, position: a.position });
    g.events.player_hit = true;
    g.handle_alien_hit();
    assert!(g.handle_player_hit());
    assert_eq!(g.flow.transition, TransitionState::PlayerKilled);
    assert!(g.world.aliens.is_empty());
    assert_eq!(g.ledger.lives, 3);
    assert!(g.set_transition_state(1_000_000));
    assert_eq!(g.flow.game, GameState::Running);
    assert_eq!(g.world.aliens.len(), 55);
    assert_eq!(g.world.aliens[0].position, Point { x: 100_000, y: 520_000 });
    assert_eq!(g.world.player.unwrap().position, Point { x: 400_000, y: 67_500 });
}
