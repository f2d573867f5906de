//! One frame of the game: every system, in order, gated by the round state.
use vstd::prelude::*;

use crate::aliens::{AlienHit, Invader};
use crate::wave::{marched, step_vector};
use crate::game::{Game, Laser, Player};
use crate::shelters::damaged;
use crate::geometry::clamp_coord;
use crate::player::{clamp_player_x, player_step};
use crate::geometry::Point;
use crate::settings::{MAX_ALIEN_LASERS, MAX_LIVES};
use crate::timer::fires;

verus! {

/// The keys that the player holds or has just pressed.
#[derive(Clone, Copy, PartialEq, Eq, Debug, Structural)]
pub struct Controls {
    pub left: bool,
    pub right: bool,
    pub fire: bool,
    pub pause: bool,
}

/// What a frame did that the screen and the speakers show.
pub struct Feedback {
    pub pause_toggled: bool,
    pub shot: bool,
    pub march: Option<usize>,
    pub ufo_arrived: bool,
    pub killed: Option<AlienHit>,
    pub player_died: bool,
    pub blasts: Vec<Point>,
    pub transition_done: bool,
}

impl Feedback {
    pub fn new() -> (f: Feedback)
        ensures
            !f.pause_toggled,
            !f.shot,
            f.march is None,
            !f.ufo_arrived,
            f.killed is None,
            !f.player_died,
            f.blasts@.len() == 0,
            !f.transition_done,
    {
        Feedback {
            pause_toggled: false,
            shot: false,
            march: None,
            ufo_arrived: false,
            killed: None,
            player_died: false,
            blasts: Vec::new(),
            transition_done: false,
        }
    }
}

/// Whether a frame is played: a game is on and neither paused nor being
/// paused by this frame's keys.
pub open spec fn played(g: Game, controls: Controls) -> bool {
    &&& g.flow.app is InGame
    &&& (g.flow.game is Transition || (g.flow.game is Running && !controls.pause))
}

/// The player after a frame's move: sideways as the keys ask, then kept
/// within the screen.
pub open spec fn player_moved(p: Option<Player>, controls: Controls, dt: u32) -> Option<Player> {
    match p {
        Some(p) => Some(
            Player {
                position: Point {
                    x: clamp_player_x(
                        clamp_coord(p.position.x + player_step(controls.left, controls.right, dt)),
                    ),
                    ..p.position
                },
                ..p
            },
        ),
        None => None,
    }
}

/// The wave after a frame's march: moved one step in its heading when the
/// game runs and the step timer fires, else where it was.
pub open spec fn wave_marched(g: Game, dt: u32) -> Seq<Invader> {
    if g.flow.game is Running && fires(g.wave.timer, dt) {
        marched(g.world.aliens@, step_vector(g.wave.direction.next))
    } else {
        g.world.aliens@
    }
}

/// The march sound that a running wave plays on a frame of `dt`: the next
/// one in turn, when the step timer fires and an alien is left.
pub open spec fn march_sound(g: Game, dt: u32) -> Option<usize> {
    if fires(g.wave.timer, dt) && g.world.aliens@.len() > 0 {
        Some(g.wave.sounds.index)
    } else {
        None
    }
}

impl Game {
    /// The player's move and shot; while running, the wave's march, its
    /// arrival at the floor and its shots; the mystery ship; the lasers'
    /// motion.
    fn advance_entities(&mut self, controls: Controls, dt: u32, feedback: &mut Feedback)
        requires
            old(self).wf(),
        ensures
            final(self).wf(),
            final(self).ledger == old(self).ledger,
            final(self).flow == old(self).flow,
            final(feedback).pause_toggled == old(feedback).pause_toggled,
            final(feedback).shot == (controls.fire && old(self).world.player is Some && old(
                self,
            ).world.player_lasers@.len() == 0),
            old(self).flow.game is Running ==> final(feedback).march == march_sound(*old(self), dt),
            !(old(self).flow.game is Running) ==> final(feedback).march == old(feedback).march,
            final(feedback).ufo_arrived ==> old(self).world.ufo is None && fires(
                old(self).ufo_timer,
                dt,
            ),
            final(self).world.player == player_moved(old(self).world.player, controls, dt),
            final(self).world.aliens@ == wave_marched(*old(self), dt),
            final(self).world.shelters == old(self).world.shelters,
    {
        self.move_player(controls.left, controls.right, dt);
        self.restrict_player_movement();
        feedback.shot = self.player_shoot(controls.fire);
        if matches!(self.flow.game, crate::game::GameState::Running) {
            feedback.march = self.move_aliens(dt);
            self.alien_reach_floor();
            self.aliens_shoot_at_random();
        }
        feedback.ufo_arrived = self.spawn_ufo_at_random(dt);
        self.move_ufo(dt);
        self.move_lasers(dt);
    }

    /// Lasers that left the field, laser hits and, while running, the
    /// shelters' damage.
    fn detect_collisions(&mut self)
        requires
            old(self).wf(),
        ensures
            final(self).wf(),
            final(self).ledger == old(self).ledger,
            final(self).flow == old(self).flow,
            final(self).world.player == old(self).world.player,
            final(self).world.aliens == old(self).world.aliens,
            old(self).flow.game is Running ==> final(self).world.shelters@ == damaged(
                old(self).world.shelters@,
                old(self).world.player_lasers@,
                old(self).world.alien_lasers@,
            ),
            !(old(self).flow.game is Running) ==> final(self).world.shelters == old(
                self,
            ).world.shelters,
    {
        self.despawn_lasers();
        self.check_for_collisions();
        if matches!(self.flow.game, crate::game::GameState::Running) {
            self.shelter_hit();
        }
    }

    /// The hits; while running, game over; the explosions; and between two
    /// rounds, the countdown.
    fn resolve_hits(&mut self, dt: u32, feedback: &mut Feedback)
        requires
            old(self).wf(),
        ensures
            final(self).wf(),
            final(self).ledger.score >= old(self).ledger.score,
            final(feedback).pause_toggled == old(feedback).pause_toggled,
            final(feedback).shot == old(feedback).shot,
            final(feedback).march == old(feedback).march,
            final(feedback).ufo_arrived == old(feedback).ufo_arrived,
            final(self).events.alien_hit is None,
            !final(self).events.player_hit,
            final(self).events.explosions@.len() == 0,
            !final(feedback).player_died && !final(feedback).transition_done
                ==> final(self).world.player == old(self).world.player,
            final(feedback).killed is None && !final(feedback).transition_done
                ==> final(self).world.aliens == old(self).world.aliens,
            final(self).flow.app is InGame ==> final(self).world.shelters == old(self).world.shelters,
    {
        feedback.killed = self.handle_alien_hit();
        feedback.player_died = self.handle_player_hit();
        if matches!(self.flow.game, crate::game::GameState::Running) {
            self.handle_game_over();
        }
        feedback.blasts = self.handle_laser_explosion();
        if matches!(self.flow.app, crate::game::AppState::InGame) && matches!(
            self.flow.game,
            crate::game::GameState::Transition,
        ) {
            feedback.transition_done = self.set_transition_state(dt);
        }
    }

    /// Runs one frame of `dt` microseconds. Outside a game nothing happens;
    /// a paused game only listens for the pause key. Otherwise: input and
    /// the player's move and shot; while running, the wave's march, its
    /// arrival at the floor and its shots; the mystery ship; the lasers'
    /// motion and collisions; while running, the shelters' damage; the hits;
    /// while running, game over; the explosions; and between two rounds, the
    /// countdown.
    ///
    /// Whatever the draws, after the frame at most one player laser and at
    /// most `MAX_ALIEN_LASERS` alien lasers exist, lives stay within 0 to 5,
    /// and the score has not gone down. On a played frame the player fires
    /// exactly when asked to with no shot in flight, a running wave marches
    /// to its step timer (its march sound plays, and unless an alien died or
    /// the pause between rounds ended, the wave is where the march put it),
    /// the shelters change only by the damage of the lasers in flight, and
    /// every event raised is consumed.
    pub fn update(&mut self, controls: Controls, dt: u32) -> (feedback: Feedback)
        requires
            old(self).wf(),
        ensures
            final(self).wf(),
            final(self).world.player_lasers@.len() <= 1,
            final(self).world.alien_lasers@.len() <= MAX_ALIEN_LASERS,
            final(self).ledger.lives <= MAX_LIVES,
            final(self).ledger.score >= old(self).ledger.score,
            !(old(self).flow.app is InGame) ==> final(self).world == old(self).world
                && final(self).ledger == old(self).ledger && final(self).flow == old(self).flow,
            old(self).flow.app is InGame && old(self).flow.game is Pause && !controls.pause ==> {
                &&& final(self).world == old(self).world
                &&& final(self).ledger == old(self).ledger
                &&& final(self).wave == old(self).wave
                &&& final(self).flow == old(self).flow
            },
            old(self).flow.app is InGame && !(old(self).flow.game is Transition) && controls.pause
                ==> feedback.pause_toggled,
            played(*old(self), controls) ==> {
                &&& !feedback.pause_toggled
                &&& feedback.shot == (controls.fire && old(self).world.player is Some && old(
                    self,
                ).world.player_lasers@.len() == 0)
                &&& feedback.march == (if old(self).flow.game is Running {
                    march_sound(*old(self), dt)
                } else {
                    None
                })
                &&& feedback.ufo_arrived ==> old(self).world.ufo is None && fires(
                    old(self).ufo_timer,
                    dt,
                )
                &&& final(self).events.alien_hit is None
                &&& !final(self).events.player_hit
                &&& final(self).events.explosions@.len() == 0
                &&& !feedback.player_died && !feedback.transition_done ==> final(self).world.player
                    == player_moved(old(self).world.player, controls, dt)
                &&& feedback.killed is None && !feedback.transition_done
                    ==> final(self).world.aliens@ == wave_marched(*old(self), dt)
                &&& final(self).flow.app is InGame && old(self).flow.game is Running ==> exists|
                    a: Seq<Laser>,
                    b: Seq<Laser>,
                |
                    a.len() <= 1 && b.len() <= MAX_ALIEN_LASERS && final(self).world.shelters@
                        == #[trigger] damaged(old(self).world.shelters@, a, b)
                &&& final(self).flow.app is InGame && old(self).flow.game is Transition
                    ==> final(self).world.shelters == old(self).world.shelters
            },
    {
        let mut feedback = Feedback::new();
        if !matches!(self.flow.app, crate::game::AppState::InGame) {
            return feedback;
        }
        feedback.pause_toggled = self.handle_input(controls.pause);
        if matches!(self.flow.game, crate::game::GameState::Pause) {
            return feedback;
        }
        self.advance_entities(controls, dt, &mut feedback);
        self.detect_collisions();
        self.resolve_hits(dt, &mut feedback);
        feedback
    }
}

} // verus!
