//! The round state machine: pausing, entering and leaving the pause between
//! two rounds, game over and the start of a round.
use vstd::prelude::*;

use crate::game::{AppState, Events, Game, GameState, TransitionState};
use crate::player::player_start;
use crate::settings::{
    ALIENS_PER_LINE, ALIEN_LINES, ALIEN_TICK_DURATION, INITIAL_ARMOR_VALUE, INITIAL_LIVES,
    NUM_SHELTERS,
};
use crate::shelters::shelter_position;
use crate::wave::{row_kind, slot_position};
use crate::timer::fires;

verus! {

impl Game {
    /// Enters the pause between two rounds for the reason `why`: restarts
    /// the transition countdown and removes every laser in flight.
    pub fn enter_transition(&mut self, why: TransitionState)
        requires
            old(self).wf(),
            !(why is Unset),
            why is PlayerKilled ==> old(self).ledger.lives > 0 && old(self).world.player is None,
            why is AliensKilled ==> old(self).world.aliens@.len() == 0,
        ensures
            final(self).wf(),
            final(self).flow.game is Transition,
            final(self).flow.transition == why,
            final(self).flow.timer.elapsed == 0,
            final(self).flow.timer.duration == old(self).flow.timer.duration,
            final(self).flow.app == old(self).flow.app,
            final(self).flow.already_played == old(self).flow.already_played,
            final(self).world.player_lasers@.len() == 0,
            final(self).world.alien_lasers@.len() == 0,
            final(self).world.next_id == old(self).world.next_id,
            final(self).world.player == old(self).world.player,
            final(self).world.aliens == old(self).world.aliens,
            final(self).world.ufo == old(self).world.ufo,
            final(self).world.shelters == old(self).world.shelters,
            final(self).ledger == old(self).ledger,
            final(self).wave == old(self).wave,
            final(self).ufo_timer == old(self).ufo_timer,
            final(self).events == old(self).events,
    {
        self.flow.game = GameState::Transition;
        self.flow.transition = why;
        self.flow.timer.reset();
        self.world.player_lasers = Vec::new();
        self.world.alien_lasers = Vec::new();
    }

    /// On game over, enters the pause between two rounds for that reason and
    /// remembers that a game has been played.
    pub fn handle_game_over(&mut self)
        requires
            old(self).wf(),
        ensures
            final(self).wf(),
            !final(self).events.game_over,
            old(self).events.game_over ==> {
                &&& final(self).flow.game is Transition
                &&& final(self).flow.transition is GameOver
                &&& final(self).flow.already_played
                &&& final(self).world.player_lasers@.len() == 0
                &&& final(self).world.alien_lasers@.len() == 0
            },
            !old(self).events.game_over ==> final(self).flow == old(self).flow && final(self).world
                == old(self).world,
            final(self).flow.app == old(self).flow.app,
            final(self).world.player == old(self).world.player,
            final(self).world.aliens == old(self).world.aliens,
            final(self).world.ufo == old(self).world.ufo,
            final(self).world.shelters == old(self).world.shelters,
            final(self).ledger == old(self).ledger,
            final(self).wave == old(self).wave,
            final(self).ufo_timer == old(self).ufo_timer,
            final(self).events.player_hit == old(self).events.player_hit,
            final(self).events.alien_hit == old(self).events.alien_hit,
            final(self).events.explosions == old(self).events.explosions,
    {
        if self.events.game_over {
            self.events.game_over = false;
            self.enter_transition(TransitionState::GameOver);
            self.flow.already_played = true;
        }
    }

    /// Removes every entity, as on leaving the game screen.
    pub fn despawn_screen(&mut self)
        requires
            old(self).wf(),
        ensures
            final(self).wf(),
            final(self).world.player is None,
            final(self).world.aliens@.len() == 0,
            final(self).world.ufo is None,
            final(self).world.player_lasers@.len() == 0,
            final(self).world.alien_lasers@.len() == 0,
            final(self).world.shelters@.len() == 0,
            final(self).world.next_id == old(self).world.next_id,
            final(self).ledger == old(self).ledger,
            final(self).wave == old(self).wave,
            final(self).ufo_timer == old(self).ufo_timer,
            final(self).events == old(self).events,
            final(self).flow == old(self).flow,
    {
        self.world.player = None;
        self.world.aliens = Vec::new();
        self.world.ufo = None;
        self.world.player_lasers = Vec::new();
        self.world.alien_lasers = Vec::new();
        self.world.shelters = Vec::new();
    }

    /// Starts a new game from the menu: score back to 0 and lives back to
    /// 3 whatever the last game ended with, and a fresh player, wave and
    /// shelters.
    pub fn start_round(&mut self)
        requires
            old(self).wf(),
        ensures
            final(self).wf(),
            final(self).ledger.score == 0,
            final(self).ledger.lives == INITIAL_LIVES,
            final(self).ledger.best_score == old(self).ledger.best_score,
            final(self).flow.app is InGame,
            final(self).flow.game is Running,
            final(self).flow.transition is Unset,
            final(self).flow.already_played == old(self).flow.already_played,
            final(self).world.player matches Some(p) && p.position == player_start(),
            final(self).world.aliens@.len() == ALIEN_LINES * ALIENS_PER_LINE,
            forall|r: int, j: int|
                0 <= r < ALIEN_LINES && 0 <= j < ALIENS_PER_LINE ==> {
                    let a = #[trigger] final(self).world.aliens@[ALIENS_PER_LINE * r + j];
                    a.kind == row_kind(r) && a.position == slot_position(r, j)
                },
            final(self).wave.timer.duration == ALIEN_TICK_DURATION,
            final(self).world.ufo is None,
            final(self).world.player_lasers@.len() == 0,
            final(self).world.alien_lasers@.len() == 0,
            final(self).world.shelters@.len() == NUM_SHELTERS,
            forall|k: int|
                0 <= k < NUM_SHELTERS ==> {
                    let s = #[trigger] final(self).world.shelters@[k];
                    s.armor == INITIAL_ARMOR_VALUE && s.position == shelter_position(k)
                },
            !final(self).events.player_hit,
            final(self).events.alien_hit is None,
            final(self).events.explosions@.len() == 0,
            !final(self).events.game_over,
    {
        self.despawn_screen();
        self.events = Events::new();
        self.flow.app = AppState::InGame;
        self.flow.game = GameState::Running;
        self.flow.transition = TransitionState::Unset;
        self.reset_game_state();
        self.spawn_player();
        self.spawn_aliens();
        self.spawn_shelters();
    }

    /// Counts down the pause between two rounds by `dt`. When it runs out
    /// after the player's death or the wave's clearing, every laser goes, a
    /// new wave appears if none is left, a new player appears if none is
    /// alive and lives are left, and the round resumes; after game over the best score is kept, the screen is
    /// cleared and the menu shows, the game staying out of play until the
    /// next one starts. Tells whether the pause ran out.
    pub fn set_transition_state(&mut self, dt: u32) -> (done: bool)
        requires
            old(self).wf(),
            old(self).flow.app is InGame,
            old(self).flow.game is Transition,
        ensures
            final(self).wf(),
            done == fires(old(self).flow.timer, dt),
            !done ==> {
                &&& final(self).world == old(self).world
                &&& final(self).ledger == old(self).ledger
                &&& final(self).wave == old(self).wave
                &&& final(self).flow.game == old(self).flow.game
                &&& final(self).flow.transition == old(self).flow.transition
                &&& final(self).flow.app == old(self).flow.app
            },
            done ==> {
                &&& final(self).flow.transition is Unset
                &&& final(self).flow.game is Running <==> !(old(self).flow.transition is GameOver)
                &&& final(self).world.player_lasers@.len() == 0
                &&& final(self).world.alien_lasers@.len() == 0
                &&& final(self).ledger.score == old(self).ledger.score
                &&& final(self).ledger.lives == old(self).ledger.lives
            },
            done && !(old(self).flow.transition is GameOver) ==> {
                &&& final(self).flow.app == old(self).flow.app
                &&& final(self).ledger == old(self).ledger
                &&& old(self).world.aliens@.len() == 0 ==> {
                    &&& final(self).world.aliens@.len() == ALIEN_LINES * ALIENS_PER_LINE
                    &&& forall|r: int, j: int|
                        0 <= r < ALIEN_LINES && 0 <= j < ALIENS_PER_LINE ==> {
                            let a = #[trigger] final(self).world.aliens@[ALIENS_PER_LINE * r + j];
                            a.kind == row_kind(r) && a.position == slot_position(r, j)
                        }
                    &&& final(self).wave.timer.duration == ALIEN_TICK_DURATION
                }
                &&& old(self).world.aliens@.len() > 0
                    ==> final(self).world.aliens == old(self).world.aliens
                    && final(self).wave == old(self).wave
                &&& old(self).world.player is None && old(self).ledger.lives > 0
                    ==> (final(self).world.player matches Some(p) && p.position == player_start())
                &&& !(old(self).world.player is None && old(self).ledger.lives > 0)
                    ==> final(self).world.player == old(self).world.player
            },
            done && old(self).flow.transition is GameOver ==> {
                &&& final(self).flow.app is Menu
                &&& final(self).world.player is None
                &&& final(self).world.aliens@.len() == 0
                &&& final(self).ledger.best_score == (if old(self).ledger.score > old(
                    self,
                ).ledger.best_score {
                    old(self).ledger.score
                } else {
                    old(self).ledger.best_score
                })
            },
            done && old(self).ledger.lives == 0 && old(self).world.aliens@.len() > 0 ==> {
                &&& final(self).flow.app is Menu
                &&& !(final(self).flow.game is Running)
                &&& final(self).ledger.best_score == (if old(self).ledger.score > old(
                    self,
                ).ledger.best_score {
                    old(self).ledger.score
                } else {
                    old(self).ledger.best_score
                })
            },
            final(self).ledger.score == old(self).ledger.score,
            final(self).ledger.lives == old(self).ledger.lives,
            final(self).flow.already_played == old(self).flow.already_played,
            final(self).ufo_timer == old(self).ufo_timer,
            final(self).events == old(self).events,
            final(self).flow.app is InGame ==> final(self).world.shelters == old(self).world.shelters,
    {
        if !self.flow.timer.tick(dt) {
            return false;
        }
        self.world.player_lasers = Vec::new();
        self.world.alien_lasers = Vec::new();
        let why = self.flow.transition;
        self.flow.transition = TransitionState::Unset;
        match why {
            TransitionState::PlayerKilled | TransitionState::AliensKilled => {
                self.flow.game = GameState::Running;
                if self.world.aliens.len() == 0 {
                    self.spawn_aliens();
                }
                if self.world.player.is_none() && self.ledger.lives > 0 {
                    self.spawn_player();
                }
            },
            _ => {
                if self.ledger.score > self.ledger.best_score {
                    self.ledger.best_score = self.ledger.score;
                }
                self.flow.app = AppState::Menu;
                self.despawn_screen();
            },
        }
        true
    }

    /// Toggles between a running and a paused round when the pause key was
    /// just pressed during a game; tells whether it toggled.
    pub fn handle_input(&mut self, pause_pressed: bool) -> (toggled: bool)
        requires
            old(self).wf(),
        ensures
            final(self).wf(),
            toggled == (pause_pressed && old(self).flow.app is InGame && !(old(
                self,
            ).flow.game is Transition)),
            toggled && old(self).flow.game is Running ==> final(self).flow.game is Pause,
            toggled && old(self).flow.game is Pause ==> final(self).flow.game is Running,
            !toggled ==> final(self).flow.game == old(self).flow.game,
            final(self).flow.app == old(self).flow.app,
            final(self).flow.transition == old(self).flow.transition,
            final(self).flow.timer == old(self).flow.timer,
            final(self).flow.already_played == old(self).flow.already_played,
            final(self).world == old(self).world,
            final(self).ledger == old(self).ledger,
            final(self).wave == old(self).wave,
            final(self).ufo_timer == old(self).ufo_timer,
            final(self).events == old(self).events,
    {
        if !pause_pressed {
            return false;
        }
        if let AppState::InGame = self.flow.app {
            match self.flow.game {
                GameState::Running => {
                    self.flow.game = GameState::Pause;
                    true
                },
                GameState::Pause => {
                    self.flow.game = GameState::Running;
                    true
                },
                GameState::Transition => false,
            }
        } else {
            false
        }
    }
}

} // verus!
