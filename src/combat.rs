//! Collisions between lasers and ships, and what a hit does to the score, the
//! lives, the wave's speed and the round.
use vstd::prelude::*;

use crate::aliens::{value_of, Alien, AlienHit, Invader, Ufo};
use crate::game::{Game, Laser, TransitionState};
use crate::geometry::{dist_sq, within, Point};
use crate::settings::{ATTRITION_THRESHOLD, MAX_LIVES};

use crate::lasers::lemma_prefix_step;

verus! {

/// How close an alien laser must come to the player's middle to hit it:
/// half the player's height plus half a laser's.
pub const PLAYER_REACH: i64 = 22_500;

/// How close the player's laser must come to an alien's middle to hit it:
/// half an alien's height plus half a laser's.
pub const ALIEN_REACH: i64 = 22_500;

pub open spec fn in_reach(a: Point, b: Point, r: i64) -> bool {
    dist_sq(a, b) < r * r
}

/// Handles of the lasers, in order, that reach the player at `p`.
pub open spec fn shots_on(p: Point, s: Seq<Laser>) -> Seq<u64>
    decreases s.len(),
{
    if s.len() == 0 {
        Seq::empty()
    } else if in_reach(p, s.last().position, PLAYER_REACH) {
        shots_on(p, s.drop_last()).push(s.last().id)
    } else {
        shots_on(p, s.drop_last())
    }
}

/// The first alien of the wave that a laser at `p` reaches.
pub open spec fn first_struck(aliens: Seq<Invader>, p: Point) -> Option<Invader>
    decreases aliens.len(),
{
    if aliens.len() == 0 {
        None
    } else {
        match first_struck(aliens.drop_last(), p) {
            Some(a) => Some(a),
            None => if in_reach(aliens.last().position, p, ALIEN_REACH) {
                Some(aliens.last())
            } else {
                None
            },
        }
    }
}

/// The alien that a laser at `p` hits: the first one of the wave that it
/// reaches, else the mystery ship if it reaches it.
pub open spec fn target_of(aliens: Seq<Invader>, ufo: Option<Ufo>, p: Point) -> Option<AlienHit> {
    match first_struck(aliens, p) {
        Some(a) => Some(AlienHit { alien_type: a.kind, id: a.id, position: a.position }),
        None => match ufo {
            Some(u) => if in_reach(u.position, p, ALIEN_REACH) {
                Some(AlienHit { alien_type: Alien::Ufo, id: u.id, position: u.position })
            } else {
                None
            },
            None => None,
        },
    }
}

/// `i` is the first place in the wave of an alien with handle `id`.
pub open spec fn is_first_with(aliens: Seq<Invader>, id: u64, i: int) -> bool {
    &&& 0 <= i < aliens.len()
    &&& aliens[i].id == id
    &&& forall|k: int| 0 <= k < i ==> #[trigger] aliens[k].id != id
}

/// The wave without the first alien with handle `id`, if there is one.
pub open spec fn after_kill(aliens: Seq<Invader>, id: u64) -> Seq<Invader> {
    if exists|i: int| is_first_with(aliens, id, i) {
        aliens.remove(choose|i: int| is_first_with(aliens, id, i))
    } else {
        aliens
    }
}

/// The mystery ship after a hit on handle `id`: it dies when the handle is
/// its own and no alien of the wave carries it.
pub open spec fn ufo_after_kill(aliens: Seq<Invader>, ufo: Option<Ufo>, id: u64) -> Option<Ufo> {
    match ufo {
        Some(u) => if u.id == id && !(exists|i: int| is_first_with(aliens, id, i)) {
            None
        } else {
            Some(u)
        },
        None => None,
    }
}

/// The score after a kill worth `v`, saturating at the largest `u32`.
pub open spec fn kill_score(score: u32, v: u32) -> u32 {
    if score + v > u32::MAX {
        u32::MAX
    } else {
        (score + v) as u32
    }
}

/// Step period after a kill that leaves fewer than `ATTRITION_THRESHOLD`
/// aliens: multiplied by 0.95.
pub open spec fn attrition_period(p: u64) -> u64 {
    (p * 95 / 100) as u64
}

/// Handles of the lasers that reach the player at `p`.
fn find_shots_on(p: Point, lasers: &Vec<Laser>) -> (ids: Vec<u64>)
    ensures
        ids@ == shots_on(p, lasers@),
{
    let mut ids: Vec<u64> = Vec::new();
    let mut i: usize = 0;
    while i < lasers.len()
        invariant
            i <= lasers@.len(),
            ids@ == shots_on(p, lasers@.subrange(0, i as int)),
        decreases lasers@.len() - i,
    {
        proof {
            lemma_prefix_step(lasers@, i as int);
        }
        if within(p, lasers[i].position, PLAYER_REACH) {
            ids.push(lasers[i].id);
        }
        i += 1;
    }
    assert(lasers@.subrange(0, lasers@.len() as int) =~= lasers@);
    ids
}

/// The alien that a laser at `p` hits, if any.
fn find_target(aliens: &Vec<Invader>, ufo: Option<Ufo>, p: Point) -> (t: Option<AlienHit>)
    ensures
        t == target_of(aliens@, ufo, p),
{
    let mut found: Option<Invader> = None;
    let mut i: usize = 0;
    while i < aliens.len()
        invariant
            i <= aliens@.len(),
            found == first_struck(aliens@.subrange(0, i as int), p),
        decreases aliens@.len() - i,
    {
        proof {
            lemma_prefix_step(aliens@, i as int);
        }
        if found.is_none() && within(aliens[i].position, p, ALIEN_REACH) {
            found = Some(aliens[i]);
        }
        i += 1;
    }
    assert(aliens@.subrange(0, aliens@.len() as int) =~= aliens@);
    match found {
        Some(a) => Some(AlienHit { alien_type: a.kind, id: a.id, position: a.position }),
        None => match ufo {
            Some(u) => if within(u.position, p, ALIEN_REACH) {
                Some(AlienHit { alien_type: Alien::Ufo, id: u.id, position: u.position })
            } else {
                None
            },
            None => None,
        },
    }
}

/// The first place in the wave of an alien with handle `id`.
fn find_first(aliens: &Vec<Invader>, id: u64) -> (r: Option<usize>)
    ensures
        r matches Some(i) ==> is_first_with(aliens@, id, i as int),
        r is None ==> forall|k: int| 0 <= k < aliens@.len() ==> #[trigger] aliens@[k].id != id,
{
    let mut i: usize = 0;
    while i < aliens.len()
        invariant
            i <= aliens@.len(),
            forall|k: int| 0 <= k < i ==> #[trigger] aliens@[k].id != id,
        decreases aliens@.len() - i,
    {
        if aliens[i].id == id {
            return Some(i);
        }
        i += 1;
    }
    None
}

impl Game {
    /// Raises a player hit and an explosion for each alien laser that
    /// reaches the live player; then, if the player's laser reaches an
    /// alien, raises a hit on the first one reached and an explosion of
    /// that laser.
    pub fn check_for_collisions(&mut self)
        requires
            old(self).wf(),
        ensures
            final(self).wf(),
            ({
                let w = old(self).world;
                let shots = match w.player {
                    Some(pl) => shots_on(pl.position, w.alien_lasers@),
                    None => Seq::empty(),
                };
                let target = if w.player_lasers@.len() == 1 {
                    target_of(w.aliens@, w.ufo, w.player_lasers@[0].position)
                } else {
                    None
                };
                &&& final(self).events.player_hit == (old(self).events.player_hit || shots.len()
                    > 0)
                &&& final(self).events.explosions@ == old(self).events.explosions@ + shots + (
                if target is Some {
                    seq![w.player_lasers@[0].id]
                } else {
                    Seq::empty()
                })
                &&& final(self).events.alien_hit == (if target is Some {
                    target
                } else {
                    old(self).events.alien_hit
                })
            }),
            final(self).events.game_over == old(self).events.game_over,
            final(self).world == old(self).world,
            final(self).ledger == old(self).ledger,
            final(self).wave == old(self).wave,
            final(self).ufo_timer == old(self).ufo_timer,
            final(self).flow == old(self).flow,
    {
        if let Some(pl) = self.world.player {
            let mut ids = find_shots_on(pl.position, &self.world.alien_lasers);
            if ids.len() > 0 {
                self.events.player_hit = true;
            }
            self.events.explosions.append(&mut ids);
        }
        if self.world.player_lasers.len() == 1 {
            let l = self.world.player_lasers[0];
            let target = find_target(&self.world.aliens, self.world.ufo, l.position);
            if target.is_some() {
                self.events.explosions.push(l.id);
                self.events.alien_hit = target;
            }
        }
    }

    /// Consumes a raised alien hit. If the alien is still alive it dies (the
    /// first alien of the wave with its handle, else the mystery ship),
    /// its value goes to the score, and then: with no alien left, the round
    /// pauses as the wave was cleared and the player gains a life (up to
    /// five); with fewer than 25 left, the wave's step period is multiplied
    /// by 0.95. Gives the hit when the alien died.
    pub fn handle_alien_hit(&mut self) -> (killed: Option<AlienHit>)
        requires
            old(self).wf(),
        ensures
            final(self).wf(),
            final(self).events.alien_hit is None,
            final(self).events.player_hit == old(self).events.player_hit,
            final(self).events.explosions == old(self).events.explosions,
            final(self).events.game_over == old(self).events.game_over,
            final(self).ufo_timer == old(self).ufo_timer,
            final(self).ledger.best_score == old(self).ledger.best_score,
            final(self).world.next_id == old(self).world.next_id,
            final(self).world.player == old(self).world.player,
            final(self).world.shelters == old(self).world.shelters,
            final(self).wave.direction == old(self).wave.direction,
            final(self).wave.sounds == old(self).wave.sounds,
            final(self).wave.timer.elapsed == old(self).wave.timer.elapsed,
            final(self).flow.app == old(self).flow.app,
            final(self).flow.already_played == old(self).flow.already_played,
            match old(self).events.alien_hit {
                Some(h) if (exists|k: int|
                    0 <= k < old(self).world.aliens@.len() && #[trigger] old(
                        self,
                    ).world.aliens@[k].id == h.id) || (old(self).world.ufo matches Some(u)
                    && u.id == h.id) => {
                    let aliens = after_kill(old(self).world.aliens@, h.id);
                    let ufo = ufo_after_kill(old(self).world.aliens@, old(self).world.ufo, h.id);
                    let remaining = aliens.len() + (if ufo is Some {
                        1int
                    } else {
                        0
                    });
                    &&& killed == Some(h)
                    &&& final(self).world.aliens@ == aliens
                    &&& final(self).world.ufo == ufo
                    &&& final(self).ledger.score == kill_score(
                        old(self).ledger.score,
                        value_of(h.alien_type),
                    )
                    &&& remaining == 0 ==> {
                        &&& final(self).flow.game is Transition
                        &&& final(self).flow.transition is AliensKilled
                        &&& final(self).ledger.lives == (if old(self).ledger.lives < MAX_LIVES {
                            old(self).ledger.lives + 1
                        } else {
                            old(self).ledger.lives as int
                        })
                        &&& final(self).world.player_lasers@.len() == 0
                        &&& final(self).world.alien_lasers@.len() == 0
                        &&& final(self).wave.timer.duration == old(self).wave.timer.duration
                    }
                    &&& remaining != 0 ==> {
                        &&& final(self).flow == old(self).flow
                        &&& final(self).ledger.lives == old(self).ledger.lives
                        &&& final(self).world.player_lasers == old(self).world.player_lasers
                        &&& final(self).world.alien_lasers == old(self).world.alien_lasers
                        &&& final(self).wave.timer.duration == (if remaining
                            < ATTRITION_THRESHOLD {
                            attrition_period(old(self).wave.timer.duration)
                        } else {
                            old(self).wave.timer.duration
                        })
                    }
                },
                _ => {
                    &&& killed is None
                    &&& final(self).world == old(self).world
                    &&& final(self).ledger == old(self).ledger
                    &&& final(self).wave == old(self).wave
                    &&& final(self).flow == old(self).flow
                },
            },
    {
        let hit = self.events.alien_hit;
        self.events.alien_hit = None;
        let h = match hit {
            Some(h) => h,
            None => {
                return None;
            },
        };
        match find_first(&self.world.aliens, h.id) {
            Some(i) => {
                proof {
                    let ghost a = self.world.aliens@;
                    assert forall|j: int| is_first_with(a, h.id, j) implies j == i by {
                        if j < i {
                            assert(a[j].id != h.id);
                        } else if j > i {
                            assert(a[i as int].id != h.id);
                        }
                    }
                }
                self.world.aliens.remove(i);
            },
            None => {
                assert(!exists|j: int| is_first_with(self.world.aliens@, h.id, j));
                match self.world.ufo {
                    Some(u) => {
                        if u.id != h.id {
                            return None;
                        }
                        self.world.ufo = None;
                    },
                    None => {
                        return None;
                    },
                }
            },
        }
        self.ledger.score = self.ledger.score.saturating_add(h.alien_type.value());
        let ufo_count: usize = if self.world.ufo.is_some() {
            1
        } else {
            0
        };
        if self.world.aliens.len() == 0 && ufo_count == 0 {
            self.enter_transition(TransitionState::AliensKilled);
            if self.ledger.lives < MAX_LIVES {
                self.ledger.lives = self.ledger.lives + 1;
            }
        } else if self.world.aliens.len() < ATTRITION_THRESHOLD - ufo_count {
            let period = self.wave.timer.duration * 95 / 100;
            self.wave.timer.set_duration(period);
        }
        Some(h)
    }

    /// Consumes a raised player hit. If the player is alive it dies and
    /// loses a life; with lives left the round pauses for a respawn,
    /// otherwise game over is raised. Tells whether the player died.
    pub fn handle_player_hit(&mut self) -> (died: bool)
        requires
            old(self).wf(),
        ensures
            final(self).wf(),
            died == (old(self).events.player_hit && old(self).world.player is Some),
            !final(self).events.player_hit,
            final(self).events.alien_hit == old(self).events.alien_hit,
            final(self).events.explosions == old(self).events.explosions,
            died ==> {
                &&& final(self).world.player is None
                &&& final(self).ledger.lives == (if old(self).ledger.lives > 0 {
                    old(self).ledger.lives - 1
                } else {
                    0
                })
                &&& final(self).ledger.lives > 0 ==> {
                    &&& final(self).flow.game is Transition
                    &&& final(self).flow.transition is PlayerKilled
                    &&& final(self).events.game_over == old(self).events.game_over
                }
                &&& final(self).ledger.lives == 0 ==> {
                    &&& final(self).events.game_over
                    &&& final(self).flow == old(self).flow
                }
            },
            !died ==> {
                &&& final(self).world == old(self).world
                &&& final(self).ledger == old(self).ledger
                &&& final(self).flow == old(self).flow
                &&& final(self).events.game_over == old(self).events.game_over
            },
            final(self).world.aliens == old(self).world.aliens,
            final(self).world.ufo == old(self).world.ufo,
            final(self).world.shelters == old(self).world.shelters,
            final(self).ledger.score == old(self).ledger.score,
            final(self).ledger.best_score == old(self).ledger.best_score,
            final(self).wave == old(self).wave,
            final(self).ufo_timer == old(self).ufo_timer,
            final(self).flow.app == old(self).flow.app,
            final(self).flow.already_played == old(self).flow.already_played,
    {
        if !self.events.player_hit {
            return false;
        }
        self.events.player_hit = false;
        if self.world.player.is_none() {
            return false;
        }
        self.world.player = None;
        self.ledger.lives = self.ledger.lives.saturating_sub(1);
        if self.ledger.lives > 0 {
            self.enter_transition(TransitionState::PlayerKilled);
        } else {
            self.events.game_over = true;
        }
        true
    }
}

/// A kill adds exactly the alien's value to the score, and never lowers
/// it: 30, 20, 10 and 300 for a yellow, green, red alien and the mystery
/// ship.
pub proof fn lemma_kill_score(score: u32, a: Alien)
    requires
        score + value_of(a) <= u32::MAX,
    ensures
        kill_score(score, value_of(a)) == score + value_of(a),
        kill_score(score, value_of(a)) >= score,
        a is Yellow ==> kill_score(score, value_of(a)) == score + 30,
        a is Green ==> kill_score(score, value_of(a)) == score + 20,
        a is Red ==> kill_score(score, value_of(a)) == score + 10,
        a is Ufo ==> kill_score(score, value_of(a)) == score + 300,
{
}

/// A kill never lowers the score, even where it saturates.
pub proof fn lemma_score_monotone(score: u32, v: u32)
    ensures
        kill_score(score, v) >= score,
{
}

/// The attrition speed-up never lengthens the step period, and strictly
/// shortens any period that is not zero; so repeated kills shorten it
/// monotonically.
pub proof fn lemma_attrition_speeds_up(p: u64)
    ensures
        attrition_period(p) <= p,
        p > 0 ==> attrition_period(p) < p,
{
}

/// The step period after `k` kills that each leave fewer than
/// `ATTRITION_THRESHOLD` aliens, with no edge contact in between.
pub open spec fn after_kills(p: u64, k: nat) -> u64
    decreases k,
{
    if k == 0 {
        p
    } else {
        attrition_period(after_kills(p, (k - 1) as nat))
    }
}

/// Over repeated kills the step period never grows, and shrinks with every
/// kill while it is above zero.
pub proof fn lemma_attrition_chain(p: u64, k: nat)
    ensures
        after_kills(p, k + 1) <= after_kills(p, k),
        after_kills(p, k) > 0 ==> after_kills(p, k + 1) < after_kills(p, k),
        after_kills(p, k) <= p,
    decreases k,
{
    if k > 0 {
        lemma_attrition_chain(p, (k - 1) as nat);
    }
}

/// Eleven such kills from the initial step period of 0.8 s leave a period of
/// 455_037 microseconds: 0.95 to the eleventh power, rounded down at each
/// kill.
pub proof fn lemma_eleven_kills()
    ensures
        after_kills(crate::settings::ALIEN_TICK_DURATION, 11) == 455_037,
{
    assert(after_kills(crate::settings::ALIEN_TICK_DURATION, 0) == 800_000);
    assert(after_kills(crate::settings::ALIEN_TICK_DURATION, 1) == 760000) by {
        assert(after_kills(crate::settings::ALIEN_TICK_DURATION, 1) == attrition_period(
            after_kills(crate::settings::ALIEN_TICK_DURATION, 0),
        ));
    }
    assert(after_kills(crate::settings::ALIEN_TICK_DURATION, 2) == 722000) by {
        assert(after_kills(crate::settings::ALIEN_TICK_DURATION, 2) == attrition_period(
            after_kills(crate::settings::ALIEN_TICK_DURATION, 1),
        ));
    }
    assert(after_kills(crate::settings::ALIEN_TICK_DURATION, 3) == 685900) by {
        assert(after_kills(crate::settings::ALIEN_TICK_DURATION, 3) == attrition_period(
            after_kills(crate::settings::ALIEN_TICK_DURATION, 2),
        ));
    }
    assert(after_kills(crate::settings::ALIEN_TICK_DURATION, 4) == 651605) by {
        assert(after_kills(crate::settings::ALIEN_TICK_DURATION, 4) == attrition_period(
            after_kills(crate::settings::ALIEN_TICK_DURATION, 3),
        ));
    }
    assert(after_kills(crate::settings::ALIEN_TICK_DURATION, 5) == 619024) by {
        assert(after_kills(crate::settings::ALIEN_TICK_DURATION, 5) == attrition_period(
            after_kills(crate::settings::ALIEN_TICK_DURATION, 4),
        ));
    }
    assert(after_kills(crate::settings::ALIEN_TICK_DURATION, 6) == 588072) by {
        assert(after_kills(crate::settings::ALIEN_TICK_DURATION, 6) == attrition_period(
            after_kills(crate::settings::ALIEN_TICK_DURATION, 5),
        ));
    }
    assert(after_kills(crate::settings::ALIEN_TICK_DURATION, 7) == 558668) by {
        assert(after_kills(crate::settings::ALIEN_TICK_DURATION, 7) == attrition_period(
            after_kills(crate::settings::ALIEN_TICK_DURATION, 6),
        ));
    }
    assert(after_kills(crate::settings::ALIEN_TICK_DURATION, 8) == 530734) by {
        assert(after_kills(crate::settings::ALIEN_TICK_DURATION, 8) == attrition_period(
            after_kills(crate::settings::ALIEN_TICK_DURATION, 7),
        ));
    }
    assert(after_kills(crate::settings::ALIEN_TICK_DURATION, 9) == 504197) by {
        assert(after_kills(crate::settings::ALIEN_TICK_DURATION, 9) == attrition_period(
            after_kills(crate::settings::ALIEN_TICK_DURATION, 8),
        ));
    }
    assert(after_kills(crate::settings::ALIEN_TICK_DURATION, 10) == 478987) by {
        assert(after_kills(crate::settings::ALIEN_TICK_DURATION, 10) == attrition_period(
            after_kills(crate::settings::ALIEN_TICK_DURATION, 9),
        ));
    }
    assert(after_kills(crate::settings::ALIEN_TICK_DURATION, 11) == 455037) by {
        assert(after_kills(crate::settings::ALIEN_TICK_DURATION, 11) == attrition_period(
            after_kills(crate::settings::ALIEN_TICK_DURATION, 10),
        ));
    }
}

} // verus!
