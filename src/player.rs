//! The player's ship: where it appears and how it moves.
use vstd::prelude::*;

use crate::game::{Game, Player};
use crate::geometry::{clamp_coord, shift, Point};
use crate::settings::{FLOOR_HEIGHT, FLOOR_THICKNESS, PLAYER_HEIGHT, PLAYER_SPEED, PLAYER_WIDTH, WINDOW_WIDTH};

verus! {

/// Where the player appears: in the middle of the screen, standing on the
/// floor.
pub open spec fn player_start() -> Point {
    Point {
        x: (WINDOW_WIDTH / 2) as i64,
        y: (FLOOR_HEIGHT + PLAYER_HEIGHT / 2 + FLOOR_THICKNESS / 2) as i64,
    }
}

/// Sideways move of the player in `dt` microseconds: left wins over right.
pub open spec fn player_step(left: bool, right: bool, dt: u32) -> int {
    let d = PLAYER_SPEED * dt / 1000;
    if left {
        -d
    } else if right {
        d
    } else {
        0
    }
}

/// Leftmost and rightmost places of the player's middle.
pub open spec fn clamp_player_x(x: i64) -> i64 {
    if x < PLAYER_WIDTH / 2 {
        (PLAYER_WIDTH / 2) as i64
    } else if x > WINDOW_WIDTH - PLAYER_WIDTH / 2 {
        (WINDOW_WIDTH - PLAYER_WIDTH / 2) as i64
    } else {
        x
    }
}

impl Game {
    pub fn spawn_player(&mut self)
        requires
            old(self).wf(),
            !(old(self).flow.transition is PlayerKilled),
        ensures
            final(self).wf(),
            final(self).world.player == Some(Player { id: old(self).world.next_id, position: player_start() }),
            final(self).world.aliens == old(self).world.aliens,
            final(self).world.ufo == old(self).world.ufo,
            final(self).world.player_lasers == old(self).world.player_lasers,
            final(self).world.alien_lasers == old(self).world.alien_lasers,
            final(self).world.shelters == old(self).world.shelters,
            final(self).ledger == old(self).ledger,
            final(self).wave == old(self).wave,
            final(self).ufo_timer == old(self).ufo_timer,
            final(self).events == old(self).events,
            final(self).flow == old(self).flow,
    {
        let id = self.world.fresh_id();
        let y: i64 = FLOOR_HEIGHT + PLAYER_HEIGHT / 2 + FLOOR_THICKNESS / 2;
        self.world.player = Some(Player { id, position: Point { x: WINDOW_WIDTH / 2, y } });
    }

    /// Moves the live player sideways for `dt` microseconds, left when
    /// `left` is held, else right when `right` is.
    pub fn move_player(&mut self, left: bool, right: bool, dt: u32)
        requires
            old(self).wf(),
        ensures
            final(self).wf(),
            final(self).world.player == (match old(self).world.player {
                Some(p) => Some(
                    Player {
                        position: Point {
                            x: clamp_coord(p.position.x + player_step(left, right, dt)),
                            ..p.position
                        },
                        ..p
                    },
                ),
                None => None,
            }),
            final(self).world.next_id == old(self).world.next_id,
            final(self).world.aliens == old(self).world.aliens,
            final(self).world.ufo == old(self).world.ufo,
            final(self).world.player_lasers == old(self).world.player_lasers,
            final(self).world.alien_lasers == old(self).world.alien_lasers,
            final(self).world.shelters == old(self).world.shelters,
            final(self).ledger == old(self).ledger,
            final(self).wave == old(self).wave,
            final(self).ufo_timer == old(self).ufo_timer,
            final(self).events == old(self).events,
            final(self).flow == old(self).flow,
    {
        assert(0 <= PLAYER_SPEED * dt <= PLAYER_SPEED * 4_294_967_295) by (nonlinear_arith)
            requires
                0 <= dt <= 4_294_967_295,
        ;
        let d: i64 = PLAYER_SPEED * dt as i64 / 1000;
        let step: i64 = if left {
            -d
        } else if right {
            d
        } else {
            0
        };
        if let Some(p) = self.world.player {
            let x = shift(p.position.x, step);
            self.world.player = Some(Player { position: Point { x, ..p.position }, ..p });
        }
    }

    /// Keeps the live player within the screen.
    pub fn restrict_player_movement(&mut self)
        requires
            old(self).wf(),
        ensures
            final(self).wf(),
            final(self).world.player == (match old(self).world.player {
                Some(p) => Some(
                    Player {
                        position: Point { x: clamp_player_x(p.position.x), ..p.position },
                        ..p
                    },
                ),
                None => None,
            }),
            final(self).world.next_id == old(self).world.next_id,
            final(self).world.aliens == old(self).world.aliens,
            final(self).world.ufo == old(self).world.ufo,
            final(self).world.player_lasers == old(self).world.player_lasers,
            final(self).world.alien_lasers == old(self).world.alien_lasers,
            final(self).world.shelters == old(self).world.shelters,
            final(self).ledger == old(self).ledger,
            final(self).wave == old(self).wave,
            final(self).ufo_timer == old(self).ufo_timer,
            final(self).events == old(self).events,
            final(self).flow == old(self).flow,
    {
        let x_min: i64 = PLAYER_WIDTH / 2;
        let x_max: i64 = WINDOW_WIDTH - PLAYER_WIDTH / 2;
        if let Some(p) = self.world.player {
            let x = if p.position.x < x_min {
                x_min
            } else if p.position.x > x_max {
                x_max
            } else {
                p.position.x
            };
            self.world.player = Some(Player { position: Point { x, ..p.position }, ..p });
        }
    }
}

} // verus!
