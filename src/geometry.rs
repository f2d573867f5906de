//! Points, directions and distances on the play field.
use vstd::prelude::*;

use crate::settings::{ALIENS_PER_LINE, ALIEN_WIDTH, MARGIN, SPACE_BETWEEN_ALIENS_X, WINDOW_HEIGHT};

verus! {

/// A position or a displacement, in thousandths of a pixel; y grows upwards.
#[derive(Clone, Copy, PartialEq, Eq, Debug, Structural)]
pub struct Point {
    pub x: i64,
    pub y: i64,
}

/// One of the four directions in which things move.
#[derive(Clone, Copy, PartialEq, Eq, Debug, Structural)]
pub enum EntityDirection {
    Up,
    Down,
    Left,
    Right,
}

/// The unit vector of a direction.
pub open spec fn unit_of(d: EntityDirection) -> Point {
    match d {
        EntityDirection::Up => Point { x: 0, y: 1 },
        EntityDirection::Down => Point { x: 0, y: -1i64 },
        EntityDirection::Left => Point { x: -1i64, y: 0 },
        EntityDirection::Right => Point { x: 1, y: 0 },
    }
}

pub open spec fn is_horizontal(d: EntityDirection) -> bool {
    d is Left || d is Right
}

pub open spec fn is_vertical(d: EntityDirection) -> bool {
    d is Up || d is Down
}

/// The horizontal direction opposite to a horizontal one.
pub open spec fn reverse_of(d: EntityDirection) -> EntityDirection {
    match d {
        EntityDirection::Left => EntityDirection::Right,
        _ => EntityDirection::Left,
    }
}

impl EntityDirection {
    pub fn mask(&self) -> (r: Point)
        ensures
            r == unit_of(*self),
    {
        match self {
            EntityDirection::Up => Point { x: 0, y: 1 },
            EntityDirection::Down => Point { x: 0, y: -1 },
            EntityDirection::Left => Point { x: -1, y: 0 },
            EntityDirection::Right => Point { x: 1, y: 0 },
        }
    }

    /// The horizontal direction opposite to this one.
    pub fn reversed(&self) -> (r: EntityDirection)
        requires
            is_horizontal(*self),
        ensures
            r == reverse_of(*self),
            is_horizontal(r),
            r != *self,
    {
        match self {
            EntityDirection::Left => EntityDirection::Right,
            _ => EntityDirection::Left,
        }
    }
}

/// A coordinate, held to the range of `i64`.
pub open spec fn clamp_coord(v: int) -> i64 {
    if v > i64::MAX {
        i64::MAX
    } else if v < i64::MIN {
        i64::MIN
    } else {
        v as i64
    }
}

/// `p` moved by `v`, each coordinate saturating at the bounds of `i64`.
pub open spec fn translated(p: Point, v: Point) -> Point {
    Point { x: clamp_coord(p.x + v.x), y: clamp_coord(p.y + v.y) }
}

/// A coordinate that can move by `d` without saturating.
pub open spec fn fits_shift(c: i64, d: i64) -> bool {
    i64::MIN <= c + d <= i64::MAX
}

pub fn shift(c: i64, d: i64) -> (r: i64)
    ensures
        r == clamp_coord(c + d),
{
    let s: i128 = c as i128 + d as i128;
    if s > i64::MAX as i128 {
        i64::MAX
    } else if s < i64::MIN as i128 {
        i64::MIN
    } else {
        s as i64
    }
}

pub fn translate(p: Point, v: Point) -> (r: Point)
    ensures
        r == translated(p, v),
{
    Point { x: shift(p.x, v.x), y: shift(p.y, v.y) }
}

/// Square of the euclidean distance between two points.
pub open spec fn dist_sq(a: Point, b: Point) -> int {
    (a.x - b.x) * (a.x - b.x) + (a.y - b.y) * (a.y - b.y)
}

/// The largest distance threshold that the proximity tests accept.
pub const MAX_REACH: i64 = 1_000_000_000;

proof fn lemma_far_axis(d: int, o: int, r: int)
    requires
        0 <= r,
        d > r || d < -r,
    ensures
        d * d + o * o > r * r,
{
    assert(d * d > r * r) by (nonlinear_arith)
        requires
            0 <= r,
            d > r || d < -r,
    ;
    assert(o * o >= 0) by (nonlinear_arith);
}

proof fn lemma_small_square(d: int, r: int)
    requires
        0 <= r <= MAX_REACH,
        -r <= d <= r,
    ensures
        0 <= d * d <= 1_000_000_000_000_000_000,
{
    assert(0 <= d * d <= 1_000_000_000_000_000_000) by (nonlinear_arith)
        requires
            0 <= r <= 1_000_000_000,
            -r <= d <= r,
    ;
}

/// The squared distance of two points, where no axis differs by more than
/// `r`; `None` where one does, which puts them further apart than `r`.
fn capped_dist_sq(a: Point, b: Point, r: i64) -> (s: Option<i128>)
    requires
        0 <= r <= MAX_REACH,
    ensures
        s matches Some(v) ==> v == dist_sq(a, b),
        s is None ==> dist_sq(a, b) > r * r,
{
    let dx: i128 = a.x as i128 - b.x as i128;
    let dy: i128 = a.y as i128 - b.y as i128;
    if dx > r as i128 || dx < -(r as i128) {
        proof {
            lemma_far_axis(a.x - b.x, a.y - b.y, r as int);
        }
        None
    } else if dy > r as i128 || dy < -(r as i128) {
        proof {
            lemma_far_axis(a.y - b.y, a.x - b.x, r as int);
        }
        None
    } else {
        proof {
            lemma_small_square(dx as int, r as int);
            lemma_small_square(dy as int, r as int);
        }
        let s = dx * dx + dy * dy;
        Some(s)
    }
}

proof fn lemma_reach_sq(r: int)
    requires
        0 <= r <= MAX_REACH,
    ensures
        r * r <= 1_000_000_000_000_000_000,
{
    assert(r * r <= 1_000_000_000_000_000_000) by (nonlinear_arith)
        requires
            0 <= r <= 1_000_000_000,
    ;
}

/// Whether `a` and `b` are closer than `r`.
pub fn within(a: Point, b: Point, r: i64) -> (res: bool)
    requires
        0 <= r <= MAX_REACH,
    ensures
        res == (dist_sq(a, b) < r * r),
{
    proof {
        lemma_reach_sq(r as int);
    }
    match capped_dist_sq(a, b, r) {
        Some(s) => s < r as i128 * r as i128,
        None => false,
    }
}

/// Whether `a` and `b` are at most `r` apart.
pub fn within_or_touching(a: Point, b: Point, r: i64) -> (res: bool)
    requires
        0 <= r <= MAX_REACH,
    ensures
        res == (dist_sq(a, b) <= r * r),
{
    proof {
        lemma_reach_sq(r as int);
    }
    match capped_dist_sq(a, b, r) {
        Some(s) => s <= r as i128 * r as i128,
        None => false,
    }
}

/// Size of the play field, as the window is laid out around the wave.
pub fn get_window_resolution() -> (r: Point)
    ensures
        r.x == 2 * MARGIN + ALIENS_PER_LINE * ALIEN_WIDTH + (ALIENS_PER_LINE - 1)
            * SPACE_BETWEEN_ALIENS_X,
        r.y == WINDOW_HEIGHT,
{
    let width: i64 = 2 * MARGIN + ALIENS_PER_LINE as i64 * ALIEN_WIDTH + (ALIENS_PER_LINE as i64
        - 1) * SPACE_BETWEEN_ALIENS_X;
    Point { x: width, y: WINDOW_HEIGHT }
}

} // verus!
