use invaders::aliens::{Alien, AlienDirection, AlienHit, Color, Invader, InvadersMovingSound};
use invaders::game::{AppState, Game, GameState, TransitionState};
use invaders::geometry::{get_window_resolution, EntityDirection, Point};

fn in_game() -> Game {
    let mut g = Game::new();
    g.start_round();
    g
}

fn invader(id: u64, kind: Alien, x: i64, y: i64) -> Invader {
    Invader { id, kind, position: Point { x, y } }
}

#[test]
fn new_game_starts_at_menu() {
    let g = Game::new();
    assert_eq!(g.flow.app, AppState::Menu);
    assert_eq!(g.ledger.score, 0);
    assert_eq!(g.ledger.best_score, 0);
    assert_eq!(g.ledger.lives, 3);
    assert_eq!(g.wave.timer.duration, 800_000);
    assert_eq!(g.wave.direction.previous, EntityDirection::Left);
    assert_eq!(g.wave.direction.next, EntityDirection::Left);
    assert!(g.world.aliens.is_empty());
}

#[test]
fn round_reset_clears_score_and_lives() {
    let mut g = in_game();
    g.ledger.score = 1234;
    g.ledger.lives = 0;
    g.flow.app = AppState::Menu;
    g.start_round();
    assert_eq!(g.ledger.score, 0);
    assert_eq!(g.ledger.lives, 3);
    assert_eq!(g.flow.app, AppState::InGame);
    assert_eq!(g.flow.game, GameState::Running);
    assert_eq!(g.world.aliens.len(), 55);
    assert_eq!(g.world.shelters.len(), 4);
    assert_eq!(g.world.player.unwrap().position, Point { x: 400_000, y: 67_500 });
}

#[test]
fn reset_game_state_keeps_best_score() {
    let mut g = in_game();
    g.ledger.score = 90;
    g.ledger.best_score = 70;
    g.ledger.lives = 5;
    g.reset_game_state();
    assert_eq!(g.ledger.score, 0);
    assert_eq!(g.ledger.lives, 3);
    assert_eq!(g.ledger.best_score, 70);
}

#[test]
fn wave_layout_has_five_rows_of_eleven() {
    let g = in_game();
    let a = &g.world.aliens;
    let kinds: Vec<Alien> = (0..5).map(|r| a[11 * r].kind).collect();
    assert_eq!(kinds, vec![Alien::Yellow, Alien::Green, Alien::Green, Alien::Red, Alien::Red]);
    assert_eq!(a.iter().filter(|x| x.kind == Alien::Yellow).count(), 11);
    assert_eq!(a.iter().filter(|x| x.kind == Alien::Green).count(), 22);
    assert_eq!(a.iter().filter(|x| x.kind == Alien::Red).count(), 22);
    assert_eq!(a[0].position, Point { x: 100_000, y: 520_000 });
    assert_eq!(a[10].position, Point { x: 700_000, y: 520_000 });
    // The second row is laid out right to left.
    assert_eq!(a[11].position, Point { x: 700_000, y: 474_000 });
    assert_eq!(a[21].position, Point { x: 100_000, y: 474_000 });
    assert_eq!(a[54].position, Point { x: 700_000, y: 336_000 });
}

#[test]
fn wave_moves_in_lockstep_when_timer_fires() {
    let mut g = in_game();
    let before: Vec<Point> = g.world.aliens.iter().map(|a| a.position).collect();
    let sound = g.move_aliens(800_000);
    assert_eq!(sound, Some(0));
    assert_eq!(g.wave.sounds.index, 1);
    for (a, p) in g.world.aliens.iter().zip(before.iter()) {
        assert_eq!(a.position.x - p.x, -10_000);
        assert_eq!(a.position.y - p.y, 0);
    }
}

#[test]
fn wave_waits_for_its_timer() {
    let mut g = in_game();
    let before: Vec<Point> = g.world.aliens.iter().map(|a| a.position).collect();
    assert_eq!(g.move_aliens(100_000), None);
    let after: Vec<Point> = g.world.aliens.iter().map(|a| a.position).collect();
    assert_eq!(before, after);
    assert_eq!(g.wave.timer.elapsed, 100_000);
}

#[test]
fn empty_wave_marches_silently() {
    let mut g = in_game();
    g.world.aliens.clear();
    assert_eq!(g.move_aliens(800_000), None);
    assert_eq!(g.wave.sounds.index, 0);
}

#[test]
fn touching_an_edge_makes_the_next_step_a_descent() {
    let mut g = in_game();
    g.world.aliens = vec![invader(1, Alien::Red, 30_000, 300_000), invader(2, Alien::Red, 90_000, 300_000)];
    g.move_aliens(800_000);
    assert_eq!(g.world.aliens[0].position.x, 20_000);
    assert_eq!(g.wave.direction.next, EntityDirection::Down);
    assert_eq!(g.wave.direction.previous, EntityDirection::Left);
    assert_eq!(g.wave.timer.duration, 727_272);
    assert!(g.wave.timer.duration < 800_000);
}

#[test]
fn right_edge_also_reverses() {
    let mut g = in_game();
    g.wave.direction = AlienDirection { previous: EntityDirection::Right, next: EntityDirection::Right };
    g.world.aliens = vec![invader(1, Alien::Red, 770_000, 300_000)];
    g.move_aliens(800_000);
    assert_eq!(g.world.aliens[0].position.x, 780_000);
    assert_eq!(g.wave.direction.next, EntityDirection::Down);
}

#[test]
fn descent_reverses_the_heading() {
    let mut g = in_game();
    g.wave.direction = AlienDirection { previous: EntityDirection::Left, next: EntityDirection::Down };
    g.world.aliens = vec![invader(1, Alien::Red, 20_000, 300_000)];
    g.move_aliens(800_000);
    assert_eq!(g.world.aliens[0].position, Point { x: 20_000, y: 285_000 });
    assert_eq!(g.wave.direction.next, EntityDirection::Right);
    assert_eq!(g.wave.direction.previous, EntityDirection::Right);
    assert_eq!(g.wave.timer.duration, 800_000);
    g.wave.direction.next = EntityDirection::Down;
    g.move_aliens(800_000);
    assert_eq!(g.wave.direction.next, EntityDirection::Left);
}

#[test]
fn alien_below_floor_raises_game_over() {
    let mut g = in_game();
    g.alien_reach_floor();
    assert!(!g.events.game_over);
    g.world.aliens[3].position.y = 49_999;
    g.alien_reach_floor();
    assert!(g.events.game_over);
    g.handle_game_over();
    assert_eq!(g.flow.game, GameState::Transition);
    assert_eq!(g.flow.transition, TransitionState::GameOver);
    assert!(g.flow.already_played);
}

fn hit(g: &Game, i: usize) -> AlienHit {
    let a = g.world.aliens[i];
    AlienHit { alien_type: a.kind, id: a.id, position: a.position }
}

#[test]
fn killing_eleven_yellow_aliens_speeds_up_eleven_times() {
    let mut g = in_game();
    // Keep the yellow row and thirteen more: fewer than 25 remain throughout.
    g.world.aliens.truncate(24);
    let start = g.wave.timer.duration;
    let mut expected = start;
    for _ in 0..11 {
        let h = hit(&g, 0);
        assert_eq!(h.alien_type, Alien::Yellow);
        g.events.alien_hit = Some(h);
        let before = g.wave.timer.duration;
        assert_eq!(g.handle_alien_hit(), Some(h));
        expected = expected * 95 / 100;
        assert_eq!(g.wave.timer.duration, expected);
        assert!(g.wave.timer.duration < before);
    }
    assert_eq!(g.world.aliens.len(), 13);
    assert_eq!(g.wave.timer.duration, 455_037);
    let ratio = g.wave.timer.duration as f64 / start as f64;
    assert!((ratio - 0.95f64.powi(11)).abs() < 1e-3);
    assert_eq!(g.ledger.score, 330);
}

#[test]
fn kills_with_many_aliens_left_keep_the_speed() {
    let mut g = in_game();
    g.events.alien_hit = Some(hit(&g, 20));
    g.handle_alien_hit();
    assert_eq!(g.world.aliens.len(), 54);
    assert_eq!(g.wave.timer.duration, 800_000);
    assert_eq!(g.ledger.score, 20);
}

#[test]
fn alien_values_go_to_the_score() {
    let mut g = in_game();
    g.events.alien_hit = Some(hit(&g, 0));
    g.handle_alien_hit();
    assert_eq!(g.ledger.score, 30);
    g.events.alien_hit = Some(hit(&g, 10));
    g.handle_alien_hit();
    assert_eq!(g.ledger.score, 50);
    g.events.alien_hit = Some(hit(&g, 40));
    g.handle_alien_hit();
    assert_eq!(g.ledger.score, 60);
    g.spawn_ufo(1_000_000, 0, 0);
    let u = g.world.ufo.unwrap();
    g.events.alien_hit = Some(AlienHit { alien_type: Alien::Ufo, id: u.id, position: u.position });
    g.handle_alien_hit();
    assert_eq!(g.ledger.score, 360);
    assert!(g.world.ufo.is_none());
}

#[test]
fn hit_on_a_dead_alien_is_ignored() {
    let mut g = in_game();
    g.events.alien_hit = Some(AlienHit { alien_type: Alien::Yellow, id: 999_999, position: Point { x: 0, y: 0 } });
    assert_eq!(g.handle_alien_hit(), None);
    assert_eq!(g.ledger.score, 0);
    assert!(g.events.alien_hit.is_none());
    assert_eq!(g.world.aliens.len(), 55);
}

#[test]
fn clearing_the_wave_grants_a_life() {
    let mut g = in_game();
    g.ledger.lives = 1;
    g.world.aliens.truncate(1);
    g.events.alien_hit = Some(hit(&g, 0));
    g.handle_alien_hit();
    assert_eq!(g.flow.game, GameState::Transition);
    assert_eq!(g.flow.transition, TransitionState::AliensKilled);
    assert_eq!(g.ledger.lives, 2);
    assert_eq!(g.wave.timer.duration, 800_000);
}

#[test]
fn lives_never_exceed_five() {
    let mut g = in_game();
    g.ledger.lives = 5;
    g.world.aliens.truncate(1);
    g.events.alien_hit = Some(hit(&g, 0));
    g.handle_alien_hit();
    assert_eq!(g.ledger.lives, 5);
}

#[test]
fn new_wave_after_clearing() {
    let mut g = in_game();
    g.world.aliens.truncate(1);
    g.wave.timer.duration = 300_000;
    g.events.alien_hit = Some(hit(&g, 0));
    g.handle_alien_hit();
    assert!(!g.set_transition_state(500_000));
    assert!(g.set_transition_state(500_000));
    assert_eq!(g.flow.game, GameState::Running);
    assert_eq!(g.flow.transition, TransitionState::Unset);
    assert_eq!(g.world.aliens.len(), 55);
    assert_eq!(g.wave.timer.duration, 800_000);
}

#[test]
fn alien_values_and_colors() {
    assert_eq!(Alien::Yellow.value(), 30);
    assert_eq!(Alien::Green.value(), 20);
    assert_eq!(Alien::Red.value(), 10);
    assert_eq!(Alien::Ufo.value(), 300);
    assert_eq!(Alien::Yellow.color(), Color::Yellow);
    assert_eq!(Alien::Green.color(), Color::Green);
    assert_eq!(Alien::Red.color(), Color::Red);
    assert_eq!(Alien::Ufo.color(), Color::Red);
}

#[test]
fn direction_masks() {
    assert_eq!(EntityDirection::Up.mask(), Point { x: 0, y: 1 });
    assert_eq!(EntityDirection::Down.mask(), Point { x: 0, y: -1 });
    assert_eq!(EntityDirection::Left.mask(), Point { x: -1, y: 0 });
    assert_eq!(EntityDirection::Right.mask(), Point { x: 1, y: 0 });
    assert_eq!(EntityDirection::Left.reversed(), EntityDirection::Right);
    assert_eq!(EntityDirection::Right.reversed(), EntityDirection::Left);
}

#[test]
fn window_resolution() {
    assert_eq!(get_window_resolution(), Point { x: 800_000, y: 600_000 });
}

#[test]
fn march_sounds_cycle() {
    let mut s = InvadersMovingSound::new(2);
    assert_eq!(s.get(), 2);
    assert_eq!(s.get(), 3);
    assert_eq!(s.get(), 0);
    assert_eq!(s.get(), 1);
}
