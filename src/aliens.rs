//! Aliens: their kinds and values, the wave formation and the mystery ship.
use vstd::prelude::*;

use crate::geometry::{is_horizontal, EntityDirection, Point};
use crate::settings::{GREEN_ALIEN_VALUE, RED_ALIEN_VALUE, UFO_VALUE, YELLOW_ALIEN_VALUE};

verus! {

/// The kind of an alien.
#[derive(Clone, Copy, PartialEq, Eq, Debug, Structural)]
pub enum Alien {
    Yellow,
    Green,
    Red,
    Ufo,
}

/// The colours that the game draws aliens and their lasers in.
#[derive(Clone, Copy, PartialEq, Eq, Debug, Structural)]
pub enum Color {
    Yellow,
    Green,
    Red,
}

/// Points that killing an alien of kind `a` is worth.
pub open spec fn value_of(a: Alien) -> u32 {
    match a {
        Alien::Yellow => YELLOW_ALIEN_VALUE,
        Alien::Green => GREEN_ALIEN_VALUE,
        Alien::Red => RED_ALIEN_VALUE,
        Alien::Ufo => UFO_VALUE,
    }
}

pub open spec fn color_of(a: Alien) -> Color {
    match a {
        Alien::Yellow => Color::Yellow,
        Alien::Green => Color::Green,
        Alien::Red => Color::Red,
        Alien::Ufo => Color::Red,
    }
}

impl Alien {
    pub fn color(&self) -> (c: Color)
        ensures
            c == color_of(*self),
    {
        match self {
            Alien::Yellow => Color::Yellow,
            Alien::Green => Color::Green,
            Alien::Red => Color::Red,
            Alien::Ufo => Color::Red,
        }
    }

    pub fn value(&self) -> (v: u32)
        ensures
            v == value_of(*self),
            *self is Yellow ==> v == 30,
            *self is Green ==> v == 20,
            *self is Red ==> v == 10,
            *self is Ufo ==> v == 300,
    {
        match self {
            Alien::Yellow => YELLOW_ALIEN_VALUE,
            Alien::Green => GREEN_ALIEN_VALUE,
            Alien::Red => RED_ALIEN_VALUE,
            Alien::Ufo => UFO_VALUE,
        }
    }
}

/// A live alien of the wave.
#[derive(Clone, Copy, PartialEq, Eq, Debug, Structural)]
pub struct Invader {
    pub id: u64,
    pub kind: Alien,
    pub position: Point,
}

/// The mystery ship, flying left or right across the top of the screen.
#[derive(Clone, Copy, PartialEq, Eq, Debug, Structural)]
pub struct Ufo {
    pub id: u64,
    pub direction: EntityDirection,
    pub position: Point,
}

/// A player laser reached an alien.
#[derive(Clone, Copy, PartialEq, Eq, Debug, Structural)]
pub struct AlienHit {
    pub alien_type: Alien,
    pub id: u64,
    pub position: Point,
}

/// Heading of the wave: `next` is the step to take on the next firing of the
/// step timer, `previous` the horizontal heading that the wave last held.
#[derive(Clone, Copy, PartialEq, Eq, Debug, Structural)]
pub struct AlienDirection {
    pub previous: EntityDirection,
    pub next: EntityDirection,
}

impl AlienDirection {
    /// `previous` is horizontal, and `next` is either a descent or the
    /// horizontal heading held since the last descent.
    pub open spec fn wf(&self) -> bool {
        &&& is_horizontal(self.previous)
        &&& (self.next is Down || self.next == self.previous)
    }
}

/// Number of march sounds that the wave cycles through.
pub const MARCH_SOUNDS: usize = 4;

/// Which of the march sounds the wave plays next, round-robin.
#[derive(Clone, Copy, PartialEq, Eq, Debug, Structural)]
pub struct InvadersMovingSound {
    pub index: usize,
}

impl InvadersMovingSound {
    pub open spec fn wf(&self) -> bool {
        self.index < MARCH_SOUNDS
    }

    pub fn new(index: usize) -> (s: InvadersMovingSound)
        requires
            index < MARCH_SOUNDS,
        ensures
            s.wf(),
            s.index == index,
    {
        InvadersMovingSound { index }
    }

    /// The sound to play now; the next call gives the one after it.
    pub fn get(&mut self) -> (sound: usize)
        requires
            old(self).wf(),
        ensures
            final(self).wf(),
            sound == old(self).index,
            final(self).index == (old(self).index + 1) % (MARCH_SOUNDS as int),
    {
        let sound = self.index;
        self.index = (self.index + 1) % MARCH_SOUNDS;
        sound
    }
}

} // verus!
