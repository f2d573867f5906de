//! The alien wave: its layout, lockstep march, reversal at the screen edges and
//! arrival at the floor.
use vstd::prelude::*;

use crate::aliens::{Alien, AlienDirection, Invader};
use crate::game::Game;
use crate::geometry::{
    fits_shift, is_horizontal, reverse_of, translate, translated, EntityDirection, Point,
};
use crate::settings::{
    ALIENS_PER_LINE, ALIEN_HEIGHT, ALIEN_LINES, ALIEN_TICK_DURATION, ALIEN_WIDTH, FLOOR_HEIGHT,
    MARGIN, SPACE_BETWEEN_ALIENS_X, SPACE_BETWEEN_ALIENS_Y, WINDOW_HEIGHT, WINDOW_WIDTH,
};
use crate::timer::{elapsed_after, fires};

verus! {

/// Kind of the aliens in row `r` of a fresh wave: one yellow row, two green
/// rows, then red ones.
pub open spec fn row_kind(r: int) -> Alien {
    if r == 0 {
        Alien::Yellow
    } else if r <= 2 {
        Alien::Green
    } else {
        Alien::Red
    }
}

/// Where the alien in column `j` of row `r` starts. Rows are laid out
/// alternately rightwards and leftwards, so that column `j` of an odd row
/// stands at the mirror place of an even row's.
pub open spec fn slot_position(r: int, j: int) -> Point {
    let left = MARGIN + ALIEN_WIDTH / 2;
    let pitch_x = SPACE_BETWEEN_ALIENS_X + ALIEN_WIDTH;
    let pitch_y = SPACE_BETWEEN_ALIENS_Y + ALIEN_HEIGHT;
    Point {
        x: (if r % 2 == 0 {
            left + pitch_x * j
        } else {
            left + pitch_x * (ALIENS_PER_LINE - 1 - j)
        }) as i64,
        y: (WINDOW_HEIGHT - MARGIN - pitch_y * r) as i64,
    }
}

/// How far the wave moves on one step towards `d`: a quarter of an alien's
/// width sideways, or half its height up or down.
pub open spec fn step_vector(d: EntityDirection) -> Point {
    match d {
        EntityDirection::Up => Point { x: 0, y: (ALIEN_HEIGHT / 2) as i64 },
        EntityDirection::Down => Point { x: 0, y: (-ALIEN_HEIGHT / 2) as i64 },
        EntityDirection::Left => Point { x: (-ALIEN_WIDTH / 4) as i64, y: 0 },
        EntityDirection::Right => Point { x: (ALIEN_WIDTH / 4) as i64, y: 0 },
    }
}

pub fn step_toward(d: EntityDirection) -> (v: Point)
    ensures
        v == step_vector(d),
{
    let unit = d.mask();
    Point { x: unit.x * (ALIEN_WIDTH / 4), y: unit.y * (ALIEN_HEIGHT / 2) }
}

/// An alien within half its width of either side of the screen.
pub open spec fn at_edge(x: i64) -> bool {
    x <= ALIEN_WIDTH / 2 || x >= WINDOW_WIDTH - ALIEN_WIDTH / 2
}

/// The aliens, each moved by `v`.
pub open spec fn marched(aliens: Seq<Invader>, v: Point) -> Seq<Invader> {
    Seq::new(
        aliens.len(),
        |i: int| Invader { position: translated(aliens[i].position, v), ..aliens[i] },
    )
}

/// Heading after a descent: the reverse of the heading held before it.
pub open spec fn after_descent(d: AlienDirection) -> AlienDirection {
    AlienDirection { previous: reverse_of(d.previous), next: reverse_of(d.previous) }
}

/// Step period after the wave touched a side: divided by 1.1.
pub open spec fn edge_period(p: u64) -> u64 {
    (p * 10 / 11) as u64
}

/// Moves every alien by `v`; tells whether one of them ends at an edge.
fn march(aliens: &Vec<Invader>, v: Point) -> (res: (Vec<Invader>, bool))
    ensures
        res.0@ == marched(aliens@, v),
        res.1 == exists|i: int| 0 <= i < aliens@.len() && at_edge(#[trigger] res.0@[i].position.x),
{
    let mut moved: Vec<Invader> = Vec::new();
    let mut edge = false;
    let mut i: usize = 0;
    while i < aliens.len()
        invariant
            i <= aliens@.len(),
            moved@ =~= marched(aliens@.subrange(0, i as int), v),
            edge == exists|j: int| 0 <= j < i && at_edge(#[trigger] moved@[j].position.x),
        decreases aliens@.len() - i,
    {
        let a = aliens[i];
        let p = translate(a.position, v);
        let ghost prev = moved@;
        let ghost prev_edge = edge;
        moved.push(Invader { id: a.id, kind: a.kind, position: p });
        edge = edge || p.x <= ALIEN_WIDTH / 2 || p.x >= WINDOW_WIDTH - ALIEN_WIDTH / 2;
        i += 1;
        assert(forall|j: int| 0 <= j < i - 1 ==> moved@[j] == prev[j]);
        assert(moved@[i - 1].position.x == p.x);
        assert(edge == exists|j: int| 0 <= j < i && at_edge(#[trigger] moved@[j].position.x)) by {
            if prev_edge {
                let w = choose|j: int| 0 <= j < i - 1 && at_edge(#[trigger] prev[j].position.x);
                assert(at_edge(moved@[w].position.x));
            }
            if exists|j: int| 0 <= j < i && at_edge(#[trigger] moved@[j].position.x) {
                let w = choose|j: int| 0 <= j < i && at_edge(#[trigger] moved@[j].position.x);
                if w < i - 1 {
                    assert(at_edge(prev[w].position.x));
                }
            }
        }
    }
    assert(aliens@.subrange(0, aliens@.len() as int) =~= aliens@);
    (moved, edge)
}

impl Game {
    /// Lays out a fresh wave of five rows of eleven, and puts the wave's speed
    /// and heading back to their initial values.
    pub fn spawn_aliens(&mut self)
        requires
            old(self).wf(),
            !(old(self).flow.transition is AliensKilled),
        ensures
            final(self).wf(),
            final(self).world.aliens@.len() == ALIEN_LINES * ALIENS_PER_LINE,
            forall|r: int, j: int|
                0 <= r < ALIEN_LINES && 0 <= j < ALIENS_PER_LINE ==> {
                    let a = #[trigger] final(self).world.aliens@[ALIENS_PER_LINE * r + j];
                    a.kind == row_kind(r) && a.position == slot_position(r, j)
                },
            final(self).wave.direction == (AlienDirection {
                previous: EntityDirection::Left,
                next: EntityDirection::Left,
            }),
            final(self).wave.timer.duration == ALIEN_TICK_DURATION,
            final(self).wave.timer.elapsed == old(self).wave.timer.elapsed,
            final(self).wave.sounds == old(self).wave.sounds,
            final(self).world.player == old(self).world.player,
            final(self).world.ufo == old(self).world.ufo,
            final(self).world.player_lasers == old(self).world.player_lasers,
            final(self).world.alien_lasers == old(self).world.alien_lasers,
            final(self).world.shelters == old(self).world.shelters,
            final(self).ledger == old(self).ledger,
            final(self).ufo_timer == old(self).ufo_timer,
            final(self).events == old(self).events,
            final(self).flow == old(self).flow,
    {
        let mut aliens: Vec<Invader> = Vec::new();
        let mut x: i64 = MARGIN + ALIEN_WIDTH / 2;
        let mut y: i64 = WINDOW_HEIGHT - MARGIN;
        let mut dx: i64 = SPACE_BETWEEN_ALIENS_X + ALIEN_WIDTH;
        let mut r: usize = 0;
        while r < ALIEN_LINES
            invariant
                r <= ALIEN_LINES,
                aliens@.len() == ALIENS_PER_LINE * r,
                forall|r2: int, j: int|
                    0 <= r2 < r && 0 <= j < ALIENS_PER_LINE ==> {
                        let a = #[trigger] aliens@[ALIENS_PER_LINE * r2 + j];
                        a.kind == row_kind(r2) && a.position == slot_position(r2, j)
                    },
                r < ALIEN_LINES ==> x == slot_position(r as int, 0).x,
                y == slot_position(r as int, 0).y,
                dx == (if r % 2 == 0 {
                    (SPACE_BETWEEN_ALIENS_X + ALIEN_WIDTH) as int
                } else {
                    -(SPACE_BETWEEN_ALIENS_X + ALIEN_WIDTH)
                }),
                old(self).wf(),
                self.world.wf(),
                self.world.aliens == old(self).world.aliens,
                self.world.player == old(self).world.player,
                self.world.ufo == old(self).world.ufo,
                self.world.player_lasers == old(self).world.player_lasers,
                self.world.alien_lasers == old(self).world.alien_lasers,
                self.world.shelters == old(self).world.shelters,
                self.ledger == old(self).ledger,
                self.wave == old(self).wave,
                self.ufo_timer == old(self).ufo_timer,
                self.events == old(self).events,
                self.flow == old(self).flow,
            decreases ALIEN_LINES - r,
        {
            let kind = if r == 0 {
                Alien::Yellow
            } else if r <= 2 {
                Alien::Green
            } else {
                Alien::Red
            };
            let mut j: usize = 0;
            while j < ALIENS_PER_LINE
                invariant
                    r < ALIEN_LINES,
                    j <= ALIENS_PER_LINE,
                    kind == row_kind(r as int),
                    aliens@.len() == ALIENS_PER_LINE * r + j,
                    forall|r2: int, j2: int|
                        0 <= r2 < r && 0 <= j2 < ALIENS_PER_LINE ==> {
                            let a = #[trigger] aliens@[ALIENS_PER_LINE * r2 + j2];
                            a.kind == row_kind(r2) && a.position == slot_position(r2, j2)
                        },
                    forall|j2: int|
                        0 <= j2 < j ==> {
                            let a = #[trigger] aliens@[ALIENS_PER_LINE * r + j2];
                            a.kind == row_kind(r as int) && a.position == slot_position(
                                r as int,
                                j2,
                            )
                        },
                    j < ALIENS_PER_LINE ==> x == slot_position(r as int, j as int).x,
                    j == ALIENS_PER_LINE ==> x == slot_position(r as int, ALIENS_PER_LINE - 1).x,
                    y == slot_position(r as int, 0).y,
                    dx == (if r % 2 == 0 {
                        (SPACE_BETWEEN_ALIENS_X + ALIEN_WIDTH) as int
                    } else {
                        -(SPACE_BETWEEN_ALIENS_X + ALIEN_WIDTH)
                    }),
                    self.world.wf(),
                    self.world.aliens == old(self).world.aliens,
                    self.world.player == old(self).world.player,
                    self.world.ufo == old(self).world.ufo,
                    self.world.player_lasers == old(self).world.player_lasers,
                    self.world.alien_lasers == old(self).world.alien_lasers,
                    self.world.shelters == old(self).world.shelters,
                    self.ledger == old(self).ledger,
                    self.wave == old(self).wave,
                    self.ufo_timer == old(self).ufo_timer,
                    self.events == old(self).events,
                    self.flow == old(self).flow,
                decreases ALIENS_PER_LINE - j,
            {
                let id = self.world.fresh_id();
                aliens.push(Invader { id, kind, position: Point { x, y } });
                if j != ALIENS_PER_LINE - 1 {
                    x = x + dx;
                }
                j += 1;
            }
            dx = -dx;
            y = y - (SPACE_BETWEEN_ALIENS_Y + ALIEN_HEIGHT);
            r += 1;
        }
        self.world.aliens = aliens;
        self.wave.direction = AlienDirection {
            previous: EntityDirection::Left,
            next: EntityDirection::Left,
        };
        self.wave.timer.set_duration(ALIEN_TICK_DURATION);
    }

    /// On each firing of the step timer, moves the whole wave by one step in
    /// its `next` heading and plays the next march sound if any alien is
    /// left. A descent is followed by the reverse of the heading held before
    /// it; a sideways step that leaves an alien at an edge makes the next
    /// step a descent and divides the step period by 1.1.
    pub fn move_aliens(&mut self, dt: u32) -> (sound: Option<usize>)
        requires
            old(self).wf(),
        ensures
            final(self).wf(),
            final(self).wave.timer.elapsed == elapsed_after(old(self).wave.timer, dt),
            !fires(old(self).wave.timer, dt) ==> {
                &&& sound is None
                &&& final(self).world.aliens == old(self).world.aliens
                &&& final(self).wave.direction == old(self).wave.direction
                &&& final(self).wave.sounds == old(self).wave.sounds
                &&& final(self).wave.timer.duration == old(self).wave.timer.duration
            },
            fires(old(self).wave.timer, dt) ==> {
                let old_wave = old(self).wave;
                let moved = final(self).world.aliens@;
                &&& moved == marched(
                    old(self).world.aliens@,
                    step_vector(old_wave.direction.next),
                )
                &&& sound == (if old(self).world.aliens@.len() > 0 {
                    Some(old_wave.sounds.index)
                } else {
                    None
                })
                &&& final(self).wave.sounds.index == (if old(self).world.aliens@.len() > 0 {
                    (old_wave.sounds.index + 1) % 4
                } else {
                    old_wave.sounds.index as int
                })
                &&& old_wave.direction.next is Down ==> {
                    &&& final(self).wave.direction == after_descent(old_wave.direction)
                    &&& final(self).wave.timer.duration == old_wave.timer.duration
                }
                &&& !(old_wave.direction.next is Down) ==> if exists|i: int|
                    0 <= i < moved.len() && at_edge(#[trigger] moved[i].position.x) {
                    &&& final(self).wave.direction == (AlienDirection {
                        next: EntityDirection::Down,
                        ..old_wave.direction
                    })
                    &&& final(self).wave.timer.duration == edge_period(old_wave.timer.duration)
                } else {
                    &&& final(self).wave.direction == old_wave.direction
                    &&& final(self).wave.timer.duration == old_wave.timer.duration
                }
            },
            final(self).world.player == old(self).world.player,
            final(self).world.ufo == old(self).world.ufo,
            final(self).world.player_lasers == old(self).world.player_lasers,
            final(self).world.alien_lasers == old(self).world.alien_lasers,
            final(self).world.shelters == old(self).world.shelters,
            final(self).world.next_id == old(self).world.next_id,
            final(self).ledger == old(self).ledger,
            final(self).ufo_timer == old(self).ufo_timer,
            final(self).events == old(self).events,
            final(self).flow == old(self).flow,
    {
        if !self.wave.timer.tick(dt) {
            return None;
        }
        let step = step_toward(self.wave.direction.next);
        let (moved, edge) = march(&self.world.aliens, step);
        let any = moved.len() > 0;
        self.world.aliens = moved;
        let sound = if any {
            Some(self.wave.sounds.get())
        } else {
            None
        };
        if let EntityDirection::Down = self.wave.direction.next {
            let next = self.wave.direction.previous.reversed();
            self.wave.direction = AlienDirection { previous: next, next };
        } else if edge {
            self.wave.direction.next = EntityDirection::Down;
            let period = self.wave.timer.duration * 10 / 11;
            self.wave.timer.set_duration(period);
        }
        sound
    }

    /// Raises game over when an alien has come down below the floor.
    pub fn alien_reach_floor(&mut self)
        requires
            old(self).wf(),
        ensures
            final(self).wf(),
            final(self).events.game_over == (old(self).events.game_over || (exists|i: int|
                0 <= i < old(self).world.aliens@.len() && #[trigger] old(
                    self,
                ).world.aliens@[i].position.y < FLOOR_HEIGHT) || (old(self).world.ufo matches Some(
                u,
            ) && u.position.y < FLOOR_HEIGHT)),
            final(self).events.player_hit == old(self).events.player_hit,
            final(self).events.alien_hit == old(self).events.alien_hit,
            final(self).events.explosions == old(self).events.explosions,
            final(self).world == old(self).world,
            final(self).ledger == old(self).ledger,
            final(self).wave == old(self).wave,
            final(self).ufo_timer == old(self).ufo_timer,
            final(self).flow == old(self).flow,
    {
        let mut landed = false;
        let mut i: usize = 0;
        while i < self.world.aliens.len()
            invariant
                i <= self.world.aliens@.len(),
                self.world == old(self).world,
                landed == exists|k: int|
                    0 <= k < i && #[trigger] self.world.aliens@[k].position.y < FLOOR_HEIGHT,
            decreases self.world.aliens@.len() - i,
        {
            if self.world.aliens[i].position.y < FLOOR_HEIGHT {
                landed = true;
            }
            i += 1;
        }
        if let Some(u) = self.world.ufo {
            if u.position.y < FLOOR_HEIGHT {
                landed = true;
            }
        }
        if landed {
            self.events.game_over = true;
        }
    }
}

/// Every alien of the wave moves by the same vector on a step, as long as no
/// coordinate meets the bounds of `i64`.
pub proof fn lemma_wave_lockstep(aliens: Seq<Invader>, d: EntityDirection)
    requires
        forall|i: int|
            0 <= i < aliens.len() ==> fits_shift(#[trigger] aliens[i].position.x, step_vector(d).x)
                && fits_shift(aliens[i].position.y, step_vector(d).y),
    ensures
        marched(aliens, step_vector(d)).len() == aliens.len(),
        forall|i: int|
            0 <= i < aliens.len() ==> {
                let moved = #[trigger] marched(aliens, step_vector(d))[i];
                &&& moved.position.x - aliens[i].position.x == step_vector(d).x
                &&& moved.position.y - aliens[i].position.y == step_vector(d).y
                &&& moved.kind == aliens[i].kind
                &&& moved.id == aliens[i].id
            },
{
}

/// Once the wave touches a side, the step period strictly shrinks.
pub proof fn lemma_edge_speeds_up(p: u64)
    requires
        0 < p <= ALIEN_TICK_DURATION,
    ensures
        edge_period(p) < p,
{
}

/// After a descent the wave never resumes the heading it held before it.
pub proof fn lemma_no_repeat_direction(d: AlienDirection)
    requires
        d.wf(),
        d.next is Down,
    ensures
        after_descent(d).wf(),
        is_horizontal(after_descent(d).next),
        after_descent(d).next != d.previous,
{
}

} // verus!
