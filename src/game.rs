//! The state of a game: the live entities, the wave, the score and lives, the
//! per-tick event mailbox and the round state machine.
use vstd::prelude::*;

use crate::aliens::{Alien, AlienDirection, AlienHit, Invader, InvadersMovingSound, Ufo};
use crate::geometry::{is_horizontal, EntityDirection, Point};
use crate::settings::{
    ALIEN_LASER_SPEED, ALIEN_TICK_DURATION, INITIAL_LIVES, MAX_ALIEN_LASERS, MAX_LIVES,
    PLAYER_LASER_SPEED, TRANSITION_DURATION, UFO_TIMER_DURATION,
};
use crate::timer::Timer;

verus! {

/// The screen that the application shows.
#[derive(Clone, Copy, PartialEq, Eq, Debug, Structural)]
pub enum AppState {
    Menu,
    Pause,
    InGame,
}

/// Whether a round is being played, paused, or between two rounds.
#[derive(Clone, Copy, PartialEq, Eq, Debug, Structural)]
pub enum GameState {
    Running,
    Pause,
    Transition,
}

/// Why the game is between two rounds; `Unset` outside of a transition.
#[derive(Clone, Copy, PartialEq, Eq, Debug, Structural)]
pub enum TransitionState {
    Unset,
    PlayerKilled,
    AliensKilled,
    GameOver,
}

/// The player's ship.
#[derive(Clone, Copy, PartialEq, Eq, Debug, Structural)]
pub struct Player {
    pub id: u64,
    pub position: Point,
}

/// A laser shot; `source` is `None` for the player's, else the kind of alien
/// that fired it.
#[derive(Clone, Copy, PartialEq, Eq, Debug, Structural)]
pub struct Laser {
    pub id: u64,
    pub direction: EntityDirection,
    pub speed: i64,
    pub source: Option<Alien>,
    pub position: Point,
}

/// A destructible shelter.
#[derive(Clone, Copy, PartialEq, Eq, Debug, Structural)]
pub struct Shelter {
    pub id: u64,
    pub armor: u32,
    pub position: Point,
}

/// The live entities.
pub struct World {
    pub next_id: u64,
    pub player: Option<Player>,
    pub aliens: Vec<Invader>,
    pub ufo: Option<Ufo>,
    pub player_lasers: Vec<Laser>,
    pub alien_lasers: Vec<Laser>,
    pub shelters: Vec<Shelter>,
}

pub open spec fn is_player_laser(l: Laser) -> bool {
    &&& l.direction is Up
    &&& l.speed == PLAYER_LASER_SPEED
    &&& l.source is None
}

pub open spec fn is_alien_laser(l: Laser) -> bool {
    &&& l.direction is Down
    &&& l.speed == ALIEN_LASER_SPEED
    &&& l.source is Some
}

impl World {
    /// At most one player laser and at most `MAX_ALIEN_LASERS` alien lasers
    /// exist, each moving straight up or down; every shelter left has armor;
    /// the mystery ship flies sideways.
    pub open spec fn wf(&self) -> bool {
        &&& self.player_lasers@.len() <= 1
        &&& self.alien_lasers@.len() <= MAX_ALIEN_LASERS
        &&& forall|i: int|
            0 <= i < self.player_lasers@.len() ==> is_player_laser(#[trigger] self.player_lasers@[i])
        &&& forall|i: int|
            0 <= i < self.alien_lasers@.len() ==> is_alien_laser(#[trigger] self.alien_lasers@[i])
        &&& forall|i: int| 0 <= i < self.shelters@.len() ==> #[trigger] self.shelters@[i].armor > 0
        &&& (self.ufo matches Some(u) ==> is_horizontal(u.direction))
    }

    pub fn new() -> (w: World)
        ensures
            w.wf(),
            w.next_id == 0,
            w.player is None,
            w.aliens@.len() == 0,
            w.ufo is None,
            w.player_lasers@.len() == 0,
            w.alien_lasers@.len() == 0,
            w.shelters@.len() == 0,
    {
        World {
            next_id: 0,
            player: None,
            aliens: Vec::new(),
            ufo: None,
            player_lasers: Vec::new(),
            alien_lasers: Vec::new(),
            shelters: Vec::new(),
        }
    }

    /// A handle for a new entity.
    pub fn fresh_id(&mut self) -> (id: u64)
        ensures
            id == old(self).next_id,
            final(self).next_id == (if old(self).next_id == u64::MAX {
                0
            } else {
                old(self).next_id + 1
            }),
            final(self).player == old(self).player,
            final(self).aliens == old(self).aliens,
            final(self).ufo == old(self).ufo,
            final(self).player_lasers == old(self).player_lasers,
            final(self).alien_lasers == old(self).alien_lasers,
            final(self).shelters == old(self).shelters,
    {
        let id = self.next_id;
        self.next_id = if id == u64::MAX {
            0
        } else {
            id + 1
        };
        id
    }
}

/// Score and lives.
#[derive(Clone, Copy, PartialEq, Eq, Debug, Structural)]
pub struct Ledger {
    pub score: u32,
    pub best_score: u32,
    pub lives: u32,
}

/// Heading, step timer and march sound of the alien wave.
#[derive(Clone, Copy, PartialEq, Eq, Debug, Structural)]
pub struct Wave {
    pub direction: AlienDirection,
    pub timer: Timer,
    pub sounds: InvadersMovingSound,
}

impl Wave {
    /// The step period never exceeds its initial value.
    pub open spec fn wf(&self) -> bool {
        &&& self.direction.wf()
        &&& self.timer.wf()
        &&& self.timer.duration <= ALIEN_TICK_DURATION
        &&& self.sounds.wf()
    }
}

/// Events raised during a tick, consumed later in the same tick.
pub struct Events {
    pub player_hit: bool,
    pub alien_hit: Option<AlienHit>,
    pub explosions: Vec<u64>,
    pub game_over: bool,
}

impl Events {
    pub fn new() -> (e: Events)
        ensures
            !e.player_hit,
            e.alien_hit is None,
            e.explosions@.len() == 0,
            !e.game_over,
    {
        Events { player_hit: false, alien_hit: None, explosions: Vec::new(), game_over: false }
    }
}

/// The round state machine.
#[derive(Clone, Copy, PartialEq, Eq, Debug, Structural)]
pub struct Flow {
    pub app: AppState,
    pub game: GameState,
    pub transition: TransitionState,
    pub already_played: bool,
    pub timer: Timer,
}

impl Flow {
    /// A reason is set only between two rounds, and during a game it is set
    /// whenever the game is between two rounds.
    pub open spec fn wf(&self) -> bool {
        &&& !(self.transition is Unset) ==> self.game is Transition
        &&& (self.app is InGame && self.game is Transition) ==> !(self.transition is Unset)
        &&& self.timer.wf()
    }
}

/// The whole simulation state.
pub struct Game {
    pub world: World,
    pub ledger: Ledger,
    pub wave: Wave,
    pub ufo_timer: Timer,
    pub events: Events,
    pub flow: Flow,
}

impl Game {
    pub open spec fn wf(&self) -> bool {
        &&& self.world.wf()
        &&& self.ledger.lives <= MAX_LIVES
        &&& self.wave.wf()
        &&& self.ufo_timer.wf()
        &&& self.flow.wf()
        &&& self.flow.transition is PlayerKilled ==> self.ledger.lives > 0
            && self.world.player is None
        &&& self.flow.transition is AliensKilled ==> self.world.aliens@.len() == 0
    }

    /// A game at the menu, with nothing spawned yet.
    pub fn new() -> (g: Game)
        ensures
            g.wf(),
            g.flow.app is Menu,
            g.flow.game is Running,
            g.flow.transition is Unset,
            !g.flow.already_played,
            g.ledger == (Ledger { score: 0, best_score: 0, lives: INITIAL_LIVES }),
            g.wave.direction == (AlienDirection {
                previous: EntityDirection::Left,
                next: EntityDirection::Left,
            }),
            g.wave.timer.duration == ALIEN_TICK_DURATION,
            g.wave.timer.elapsed == 0,
            g.wave.sounds.index == 0,
            g.ufo_timer == Timer::from_duration_spec(UFO_TIMER_DURATION),
            g.flow.timer == Timer::from_duration_spec(TRANSITION_DURATION),
            g.world.next_id == 0,
            g.world.player is None,
            g.world.aliens@.len() == 0,
            g.world.ufo is None,
            g.world.player_lasers@.len() == 0,
            g.world.alien_lasers@.len() == 0,
            g.world.shelters@.len() == 0,
            !g.events.player_hit,
            g.events.alien_hit is None,
            g.events.explosions@.len() == 0,
            !g.events.game_over,
    {
        Game {
            world: World::new(),
            ledger: Ledger { score: 0, best_score: 0, lives: INITIAL_LIVES },
            wave: Wave {
                direction: AlienDirection {
                    previous: EntityDirection::Left,
                    next: EntityDirection::Left,
                },
                timer: Timer::from_duration(ALIEN_TICK_DURATION),
                sounds: InvadersMovingSound::new(0),
            },
            ufo_timer: Timer::from_duration(UFO_TIMER_DURATION),
            events: Events::new(),
            flow: Flow {
                app: AppState::Menu,
                game: GameState::Running,
                transition: TransitionState::Unset,
                already_played: false,
                timer: Timer::from_duration(TRANSITION_DURATION),
            },
        }
    }

    /// Starts a round: score back to 0 and lives back to 3, whatever the
    /// last round ended with.
    pub fn reset_game_state(&mut self)
        requires
            old(self).wf(),
        ensures
            final(self).wf(),
            final(self).ledger.score == 0,
            final(self).ledger.lives == INITIAL_LIVES,
            final(self).ledger.best_score == old(self).ledger.best_score,
            final(self).world == old(self).world,
            final(self).wave == old(self).wave,
            final(self).ufo_timer == old(self).ufo_timer,
            final(self).events == old(self).events,
            final(self).flow == old(self).flow,
    {
        self.ledger.score = 0;
        self.ledger.lives = INITIAL_LIVES;
    }
}

/// What holds in every state of a game: at most one player laser and at most
/// `MAX_ALIEN_LASERS` alien lasers exist, lives stay within 0 to 5, every
/// shelter left has armor, during a game a reason for the pause between two
/// rounds is set exactly while the game is in that pause, and a pause for a
/// respawn only comes with lives left.
pub proof fn lemma_state_limits(g: Game)
    requires
        g.wf(),
    ensures
        g.world.player_lasers@.len() <= 1,
        g.world.alien_lasers@.len() <= MAX_ALIEN_LASERS,
        0 <= g.ledger.lives <= MAX_LIVES,
        forall|i: int| 0 <= i < g.world.shelters@.len() ==> #[trigger] g.world.shelters@[i].armor > 0,
        g.flow.app is InGame ==> (g.flow.game is Transition <==> (g.flow.transition is PlayerKilled
            || g.flow.transition is AliensKilled || g.flow.transition is GameOver)),
        g.flow.transition is PlayerKilled ==> g.ledger.lives > 0,
{
}

} // verus!
