//! Game logic of a space-invaders arcade shooter: the alien wave, lasers,
//! collisions, shelters, the score and lives, and the round state machine.
//!
//! Lengths are integers in thousandths of a pixel and durations integers in
//! microseconds; `Game::update` runs one frame.
pub mod aliens;
pub mod chance;
pub mod combat;
pub mod game;
pub mod geometry;
pub mod lasers;
pub mod menu;
pub mod player;
pub mod settings;
pub mod shelters;
pub mod step;
pub mod timer;
pub mod transition;
pub mod ufo;
pub mod wave;
