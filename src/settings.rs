//! Tunable constants of the game.
//!
//! Lengths are in thousandths of a pixel, durations in microseconds and speeds
//! in pixels per second.
use vstd::prelude::*;

verus! {

/// Width of the play field.
pub const WINDOW_WIDTH: i64 = 800_000;

/// Height of the play field.
pub const WINDOW_HEIGHT: i64 = 600_000;

pub const PLAYER_WIDTH: i64 = 60_000;

pub const PLAYER_HEIGHT: i64 = 30_000;

pub const PLAYER_SPEED: i64 = 300;

pub const NUM_SHELTERS: usize = 4;

pub const SHELTER_WIDTH: i64 = 40_000;

pub const SHELTER_HEIGHT: i64 = 20_000;

pub const INITIAL_ARMOR_VALUE: u32 = 100;

/// Armor that a shelter loses on each laser impact.
pub const SHELTER_DAMAGE: u32 = 5;

pub const ALIENS_PER_LINE: usize = 11;

/// Number of alien rows in a wave.
pub const ALIEN_LINES: usize = 5;

pub const SPACE_BETWEEN_ALIENS_X: i64 = 20_000;

pub const SPACE_BETWEEN_ALIENS_Y: i64 = 16_000;

pub const MARGIN: i64 = 80_000;

pub const ALIEN_WIDTH: i64 = 40_000;

pub const ALIEN_HEIGHT: i64 = 30_000;

/// An alien fires on a tick with probability one in this many.
pub const ALIEN_SHOOT_ODDS: u32 = 2400;

pub const YELLOW_ALIEN_VALUE: u32 = 30;

pub const GREEN_ALIEN_VALUE: u32 = 20;

pub const RED_ALIEN_VALUE: u32 = 10;

/// Initial period of the wave's step timer.
pub const ALIEN_TICK_DURATION: u64 = 800_000;

/// Below this number of live aliens, each kill speeds the wave up.
pub const ATTRITION_THRESHOLD: usize = 25;

pub const UFO_VALUE: u32 = 300;

/// When its timer fires, a mystery ship appears with probability one in this many.
pub const UFO_SPAWN_ODDS: u32 = 30;

pub const UFO_TIMER_DURATION: u64 = 1_000_000;

pub const UFO_WIDTH: i64 = 82_000;

pub const UFO_HEIGHT: i64 = 36_000;

pub const UFO_SPEED: i64 = 150;

/// How far past the edge a mystery ship flies before it leaves.
pub const UFO_EXIT_MARGIN: i64 = 10_000;

pub const LASER_WIDTH: i64 = 5_000;

pub const LASER_HEIGHT: i64 = 15_000;

pub const PLAYER_LASER_SPEED: i64 = 600;

pub const ALIEN_LASER_SPEED: i64 = 300;

pub const MAX_ALIEN_LASERS: usize = 4;

pub const FLOOR_HEIGHT: i64 = 50_000;

pub const FLOOR_THICKNESS: i64 = 5_000;

pub const INITIAL_LIVES: u32 = 3;

pub const MAX_LIVES: u32 = 5;

/// Length of the pause between two rounds.
pub const TRANSITION_DURATION: u64 = 1_000_000;

} // verus!
