//! The mystery ship: when it appears, how it crosses the screen and leaves.
use vstd::prelude::*;

use crate::aliens::Ufo;
use crate::chance::{chance, happens, upper_half};
use crate::game::Game;
use crate::geometry::{clamp_coord, shift, EntityDirection, Point};
use crate::settings::{
    UFO_EXIT_MARGIN, UFO_HEIGHT, UFO_SPAWN_ODDS, UFO_SPEED, UFO_WIDTH, WINDOW_HEIGHT, WINDOW_WIDTH,
};
use crate::timer::{elapsed_after, fires};

verus! {

/// The mystery ship that a draw of `side` sends on its way: from beyond the
/// right side flying left on the upper half of the draws, else from beyond
/// the left side flying right.
pub open spec fn ufo_entry(id: u64, side: u32) -> Ufo {
    let y = (WINDOW_HEIGHT - UFO_HEIGHT) as i64;
    if upper_half(side) {
        Ufo {
            id,
            direction: EntityDirection::Left,
            position: Point { x: (WINDOW_WIDTH + UFO_WIDTH) as i64, y },
        }
    } else {
        Ufo { id, direction: EntityDirection::Right, position: Point { x: (-UFO_WIDTH) as i64, y } }
    }
}

/// Whether a mystery ship at `x` has flown past either side.
pub open spec fn ufo_gone(x: i64) -> bool {
    x >= WINDOW_WIDTH + UFO_WIDTH + UFO_EXIT_MARGIN || x <= -(UFO_WIDTH + UFO_EXIT_MARGIN)
}

/// The mystery ship's horizontal move in `dt` microseconds.
pub open spec fn ufo_step(d: EntityDirection, dt: u32) -> int {
    let s = UFO_SPEED * dt / 1000;
    if d is Left {
        -s
    } else {
        s
    }
}

impl Game {
    /// While no mystery ship is out, ticks its timer by `dt`; when the timer
    /// fires and the draw `spawn` comes up (odds one in 30), sends one in
    /// from the side that the draw `side` picks. Tells whether one came.
    pub fn spawn_ufo(&mut self, dt: u32, spawn: u32, side: u32) -> (spawned: bool)
        requires
            old(self).wf(),
        ensures
            final(self).wf(),
            old(self).world.ufo is Some ==> !spawned && final(self).world == old(self).world
                && final(self).ufo_timer == old(self).ufo_timer,
            old(self).world.ufo is None ==> {
                &&& final(self).ufo_timer.duration == old(self).ufo_timer.duration
                &&& final(self).ufo_timer.elapsed == elapsed_after(old(self).ufo_timer, dt)
                &&& spawned == (fires(old(self).ufo_timer, dt) && happens(spawn, UFO_SPAWN_ODDS))
                &&& spawned ==> final(self).world.ufo == Some(
                    ufo_entry(old(self).world.next_id, side),
                )
                &&& !spawned ==> final(self).world == old(self).world
            },
            final(self).world.player == old(self).world.player,
            final(self).world.aliens == old(self).world.aliens,
            final(self).world.player_lasers == old(self).world.player_lasers,
            final(self).world.alien_lasers == old(self).world.alien_lasers,
            final(self).world.shelters == old(self).world.shelters,
            final(self).ledger == old(self).ledger,
            final(self).wave == old(self).wave,
            final(self).events == old(self).events,
            final(self).flow == old(self).flow,
    {
        if self.world.ufo.is_some() {
            return false;
        }
        if !self.ufo_timer.tick(dt) || !chance(spawn, UFO_SPAWN_ODDS) {
            return false;
        }
        let id = self.world.fresh_id();
        let y: i64 = WINDOW_HEIGHT - UFO_HEIGHT;
        let ufo = if side > u32::MAX / 2 {
            Ufo {
                id,
                direction: EntityDirection::Left,
                position: Point { x: WINDOW_WIDTH + UFO_WIDTH, y },
            }
        } else {
            Ufo { id, direction: EntityDirection::Right, position: Point { x: -UFO_WIDTH, y } }
        };
        self.world.ufo = Some(ufo);
        true
    }

    /// `spawn_ufo` on fresh random draws.
    pub fn spawn_ufo_at_random(&mut self, dt: u32) -> (spawned: bool)
        requires
            old(self).wf(),
        ensures
            final(self).wf(),
            old(self).world.ufo is Some ==> !spawned && final(self).world == old(self).world
                && final(self).ufo_timer == old(self).ufo_timer,
            old(self).world.ufo is None ==> {
                &&& final(self).ufo_timer.duration == old(self).ufo_timer.duration
                &&& final(self).ufo_timer.elapsed == elapsed_after(old(self).ufo_timer, dt)
                &&& spawned ==> fires(old(self).ufo_timer, dt)
                &&& spawned ==> exists|side: u32|
                    final(self).world.ufo == Some(#[trigger] ufo_entry(old(self).world.next_id, side))
                &&& !spawned ==> final(self).world == old(self).world
            },
            final(self).world.player == old(self).world.player,
            final(self).world.aliens == old(self).world.aliens,
            final(self).world.player_lasers == old(self).world.player_lasers,
            final(self).world.alien_lasers == old(self).world.alien_lasers,
            final(self).world.shelters == old(self).world.shelters,
            final(self).ledger == old(self).ledger,
            final(self).wave == old(self).wave,
            final(self).events == old(self).events,
            final(self).flow == old(self).flow,
    {
        let spawn: u32 = rand::random::<u32>();
        let side: u32 = rand::random::<u32>();
        self.spawn_ufo(dt, spawn, side)
    }

    /// Flies the mystery ship for `dt` microseconds; it goes away once it
    /// has flown past either side.
    pub fn move_ufo(&mut self, dt: u32)
        requires
            old(self).wf(),
        ensures
            final(self).wf(),
            final(self).world.ufo == (match old(self).world.ufo {
                Some(u) => {
                    let x = clamp_coord(u.position.x + ufo_step(u.direction, dt));
                    if ufo_gone(x) {
                        None
                    } else {
                        Some(Ufo { position: Point { x, ..u.position }, ..u })
                    }
                },
                None => None,
            }),
            final(self).world.next_id == old(self).world.next_id,
            final(self).world.player == old(self).world.player,
            final(self).world.aliens == old(self).world.aliens,
            final(self).world.player_lasers == old(self).world.player_lasers,
            final(self).world.alien_lasers == old(self).world.alien_lasers,
            final(self).world.shelters == old(self).world.shelters,
            final(self).ledger == old(self).ledger,
            final(self).wave == old(self).wave,
            final(self).ufo_timer == old(self).ufo_timer,
            final(self).events == old(self).events,
            final(self).flow == old(self).flow,
    {
        if let Some(u) = self.world.ufo {
            assert(0 <= UFO_SPEED * dt <= UFO_SPEED * 4_294_967_295) by (nonlinear_arith)
                requires
                    0 <= dt <= 4_294_967_295,
            ;
            let s: i64 = UFO_SPEED * dt as i64 / 1000;
            let step: i64 = match u.direction {
                EntityDirection::Left => -s,
                _ => s,
            };
            let x = shift(u.position.x, step);
            if x >= WINDOW_WIDTH + UFO_WIDTH + UFO_EXIT_MARGIN || x <= -(UFO_WIDTH
                + UFO_EXIT_MARGIN) {
                self.world.ufo = None;
            } else {
                self.world.ufo = Some(Ufo { position: Point { x, ..u.position }, ..u });
            }
        }
    }
}

} // verus!
