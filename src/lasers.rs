//! Lasers: firing, straight-line motion, leaving the field and exploding.
use vstd::prelude::*;

use crate::aliens::Invader;
use crate::chance::{chance, draw, happens};
use crate::game::{is_alien_laser, is_player_laser, Game, Laser};
use crate::geometry::{clamp_coord, shift, translate, translated, EntityDirection, Point};
use crate::settings::{
    ALIEN_HEIGHT, ALIEN_LASER_SPEED, ALIEN_SHOOT_ODDS, FLOOR_HEIGHT, FLOOR_THICKNESS,
    LASER_HEIGHT, MAX_ALIEN_LASERS, PLAYER_HEIGHT, PLAYER_LASER_SPEED, WINDOW_HEIGHT,
};

verus! {

/// Where an alien's laser starts: under the alien's middle.
pub open spec fn muzzle(a: Invader) -> Point {
    Point { x: a.position.x, y: clamp_coord(a.position.y - ALIEN_HEIGHT / 2) }
}

/// The aliens that fire, in order, given one draw per alien and room for
/// `room` more alien lasers: each alien whose draw comes up fires while
/// there is room left.
pub open spec fn volley(aliens: Seq<Invader>, rolls: Seq<u32>, room: nat) -> Seq<Invader>
    decreases aliens.len(),
{
    if aliens.len() == 0 {
        Seq::empty()
    } else {
        let before = volley(aliens.drop_last(), rolls, room);
        let k = aliens.len() - 1;
        if before.len() < room && k < rolls.len() && happens(rolls[k], ALIEN_SHOOT_ODDS) {
            before.push(aliens.last())
        } else {
            before
        }
    }
}

proof fn lemma_volley_len(aliens: Seq<Invader>, rolls: Seq<u32>, room: nat)
    ensures
        volley(aliens, rolls, room).len() <= room,
    decreases aliens.len(),
{
    if aliens.len() > 0 {
        lemma_volley_len(aliens.drop_last(), rolls, room);
    }
}

/// `l` is a laser fired by alien `a`.
pub open spec fn fired_by(l: Laser, a: Invader) -> bool {
    &&& l.direction is Down
    &&& l.speed == ALIEN_LASER_SPEED
    &&& l.source == Some(a.kind)
    &&& l.position == muzzle(a)
}

/// The alien lasers after a volley: those there were, then one for each
/// alien of the volley, in order.
pub open spec fn after_volley(before: Seq<Laser>, after: Seq<Laser>, shooters: Seq<Invader>) -> bool {
    &&& after.len() == before.len() + shooters.len()
    &&& after.subrange(0, before.len() as int) == before
    &&& forall|k: int|
        0 <= k < shooters.len() ==> fired_by(#[trigger] after[before.len() + k], shooters[k])
}

/// Distance that something at `speed` pixels per second covers in `dt`
/// microseconds.
pub open spec fn travel(speed: i64, dt: u32) -> int {
    speed * dt / 1000
}

/// A displacement of length `d` towards `dir`.
pub open spec fn heading_by(dir: EntityDirection, d: int) -> Point {
    match dir {
        EntityDirection::Up => Point { x: 0, y: d as i64 },
        EntityDirection::Down => Point { x: 0, y: -d as i64 },
        EntityDirection::Left => Point { x: -d as i64, y: 0 },
        EntityDirection::Right => Point { x: d as i64, y: 0 },
    }
}

/// The laser after moving for `dt` microseconds.
pub open spec fn moved_laser(l: Laser, dt: u32) -> Laser {
    Laser { position: translated(l.position, heading_by(l.direction, travel(l.speed, dt))), ..l }
}

pub open spec fn moved_lasers(s: Seq<Laser>, dt: u32) -> Seq<Laser> {
    Seq::new(s.len(), |i: int| moved_laser(s[i], dt))
}

/// A laser whose bottom has left the band between the floor and the top of
/// the screen.
pub open spec fn out_of_field(l: Laser) -> bool {
    let bottom = l.position.y - LASER_HEIGHT / 2;
    bottom > WINDOW_HEIGHT - LASER_HEIGHT || bottom < FLOOR_HEIGHT + FLOOR_THICKNESS / 2
}

/// Handles of the lasers, in order, that have left the field.
pub open spec fn strays(s: Seq<Laser>) -> Seq<u64>
    decreases s.len(),
{
    if s.len() == 0 {
        Seq::empty()
    } else if out_of_field(s.last()) {
        strays(s.drop_last()).push(s.last().id)
    } else {
        strays(s.drop_last())
    }
}

/// The lasers whose handle is not listed in `ids`.
pub open spec fn survivors(s: Seq<Laser>, ids: Seq<u64>) -> Seq<Laser>
    decreases s.len(),
{
    if s.len() == 0 {
        Seq::empty()
    } else if ids.contains(s.last().id) {
        survivors(s.drop_last(), ids)
    } else {
        survivors(s.drop_last(), ids).push(s.last())
    }
}

/// Where a laser's explosion shows: at its leading end.
pub open spec fn blast_point(l: Laser) -> Point {
    if l.direction is Up {
        Point { x: l.position.x, y: clamp_coord(l.position.y + LASER_HEIGHT / 2) }
    } else {
        Point { x: l.position.x, y: clamp_coord(l.position.y - LASER_HEIGHT / 2) }
    }
}

/// The explosions of the lasers listed in `ids`, in the order of `s`.
pub open spec fn blasts(s: Seq<Laser>, ids: Seq<u64>) -> Seq<Point>
    decreases s.len(),
{
    if s.len() == 0 {
        Seq::empty()
    } else if ids.contains(s.last().id) {
        blasts(s.drop_last(), ids).push(blast_point(s.last()))
    } else {
        blasts(s.drop_last(), ids)
    }
}

/// Where the player's laser starts: at the ship's nose, half its height
/// above its middle.
pub open spec fn player_muzzle(p: Point) -> Point {
    Point { x: p.x, y: clamp_coord(p.y + PLAYER_HEIGHT / 2) }
}

/// The prefix of `s` one longer than `i` ends with `s[i]`.
pub proof fn lemma_prefix_step<A>(s: Seq<A>, i: int)
    requires
        0 <= i < s.len(),
    ensures
        s.subrange(0, i + 1).drop_last() == s.subrange(0, i),
        s.subrange(0, i + 1).last() == s[i],
        s.subrange(0, i + 1).len() == i + 1,
{
    assert(s.subrange(0, i + 1).drop_last() =~= s.subrange(0, i));
}

/// Moves each laser for `dt` microseconds.
fn advance(lasers: &Vec<Laser>, dt: u32) -> (moved: Vec<Laser>)
    requires
        forall|i: int|
            0 <= i < lasers@.len() ==> 0 <= #[trigger] lasers@[i].speed <= PLAYER_LASER_SPEED,
    ensures
        moved@ == moved_lasers(lasers@, dt),
{
    let mut moved: Vec<Laser> = Vec::new();
    let mut i: usize = 0;
    while i < lasers.len()
        invariant
            i <= lasers@.len(),
            forall|k: int|
                0 <= k < lasers@.len() ==> 0 <= #[trigger] lasers@[k].speed <= PLAYER_LASER_SPEED,
            moved@ =~= moved_lasers(lasers@.subrange(0, i as int), dt),
        decreases lasers@.len() - i,
    {
        let l = lasers[i];
        assert(0 <= l.speed <= PLAYER_LASER_SPEED);
        assert(0 <= l.speed * dt <= PLAYER_LASER_SPEED * 4_294_967_295) by (nonlinear_arith)
            requires
                0 <= l.speed <= PLAYER_LASER_SPEED,
                0 <= dt <= 4_294_967_295,
        ;
        let d: i64 = l.speed * dt as i64 / 1000;
        let v = match l.direction {
            EntityDirection::Up => Point { x: 0, y: d },
            EntityDirection::Down => Point { x: 0, y: -d },
            EntityDirection::Left => Point { x: -d, y: 0 },
            EntityDirection::Right => Point { x: d, y: 0 },
        };
        let m = Laser { position: translate(l.position, v), ..l };
        assert(m == moved_laser(l, dt));
        moved.push(m);
        i += 1;
    }
    assert(lasers@.subrange(0, lasers@.len() as int) =~= lasers@);
    moved
}

/// Handles of the lasers that have left the field.
fn find_strays(lasers: &Vec<Laser>) -> (ids: Vec<u64>)
    ensures
        ids@ == strays(lasers@),
{
    let mut ids: Vec<u64> = Vec::new();
    let mut i: usize = 0;
    while i < lasers.len()
        invariant
            i <= lasers@.len(),
            ids@ == strays(lasers@.subrange(0, i as int)),
        decreases lasers@.len() - i,
    {
        proof {
            lemma_prefix_step(lasers@, i as int);
        }
        let l = lasers[i];
        let bottom: i128 = l.position.y as i128 - (LASER_HEIGHT / 2) as i128;
        if bottom > (WINDOW_HEIGHT - LASER_HEIGHT) as i128 || bottom < (FLOOR_HEIGHT
            + FLOOR_THICKNESS / 2) as i128 {
            ids.push(l.id);
        }
        i += 1;
    }
    assert(lasers@.subrange(0, lasers@.len() as int) =~= lasers@);
    ids
}

fn listed(ids: &Vec<u64>, id: u64) -> (r: bool)
    ensures
        r == ids@.contains(id),
{
    let mut i: usize = 0;
    while i < ids.len()
        invariant
            i <= ids@.len(),
            forall|k: int| 0 <= k < i ==> ids@[k] != id,
        decreases ids@.len() - i,
    {
        if ids[i] == id {
            return true;
        }
        i += 1;
    }
    false
}

/// Removes the lasers listed in `ids`, and gives the places of their
/// explosions.
fn burst(lasers: &Vec<Laser>, ids: &Vec<u64>) -> (res: (Vec<Laser>, Vec<Point>))
    ensures
        res.0@ == survivors(lasers@, ids@),
        res.1@ == blasts(lasers@, ids@),
        res.0@.len() <= lasers@.len(),
        forall|k: int|
            0 <= k < res.0@.len() ==> exists|j: int|
                0 <= j < lasers@.len() && #[trigger] res.0@[k] == lasers@[j],
{
    let mut kept: Vec<Laser> = Vec::new();
    let mut points: Vec<Point> = Vec::new();
    let mut i: usize = 0;
    while i < lasers.len()
        invariant
            i <= lasers@.len(),
            kept@ == survivors(lasers@.subrange(0, i as int), ids@),
            points@ == blasts(lasers@.subrange(0, i as int), ids@),
            kept@.len() <= i,
            forall|k: int|
                0 <= k < kept@.len() ==> exists|j: int|
                    0 <= j < lasers@.len() && #[trigger] kept@[k] == lasers@[j],
        decreases lasers@.len() - i,
    {
        proof {
            lemma_prefix_step(lasers@, i as int);
        }
        let l = lasers[i];
        if listed(ids, l.id) {
            let y = match l.direction {
                EntityDirection::Up => shift(l.position.y, LASER_HEIGHT / 2),
                _ => shift(l.position.y, -(LASER_HEIGHT / 2)),
            };
            points.push(Point { x: l.position.x, y });
        } else {
            let ghost before = kept@;
            kept.push(l);
            assert forall|k: int| 0 <= k < kept@.len() implies exists|j: int|
                0 <= j < lasers@.len() && #[trigger] kept@[k] == lasers@[j] by {
                if k < before.len() {
                    assert(kept@[k] == before[k]);
                } else {
                    assert(kept@[k] == lasers@[i as int]);
                }
            }
        }
        i += 1;
    }
    assert(lasers@.subrange(0, lasers@.len() as int) =~= lasers@);
    (kept, points)
}

impl Game {
    /// Each alien of the wave, in order, fires a laser downwards when its
    /// draw in `rolls` comes up, as long as fewer than `MAX_ALIEN_LASERS`
    /// alien lasers exist; an alien without a draw does not fire.
    pub fn aliens_shoot(&mut self, rolls: &Vec<u32>)
        requires
            old(self).wf(),
        ensures
            final(self).wf(),
            after_volley(
                old(self).world.alien_lasers@,
                final(self).world.alien_lasers@,
                volley(
                    old(self).world.aliens@,
                    rolls@,
                    (MAX_ALIEN_LASERS - old(self).world.alien_lasers@.len()) as nat,
                ),
            ),
            final(self).world.player == old(self).world.player,
            final(self).world.aliens == old(self).world.aliens,
            final(self).world.ufo == old(self).world.ufo,
            final(self).world.player_lasers == old(self).world.player_lasers,
            final(self).world.shelters == old(self).world.shelters,
            final(self).ledger == old(self).ledger,
            final(self).wave == old(self).wave,
            final(self).ufo_timer == old(self).ufo_timer,
            final(self).events == old(self).events,
            final(self).flow == old(self).flow,
    {
        let ghost room = (MAX_ALIEN_LASERS - old(self).world.alien_lasers@.len()) as nat;
        let ghost start = old(self).world.alien_lasers@;
        let n = self.world.aliens.len();
        let mut i: usize = 0;
        assert(old(self).world.aliens@.subrange(0, 0) =~= Seq::<Invader>::empty());
        assert(start.subrange(0, start.len() as int) =~= start);
        while i < n
            invariant
                i <= n,
                n == old(self).world.aliens@.len(),
                room == MAX_ALIEN_LASERS - start.len(),
                start == old(self).world.alien_lasers@,
                after_volley(
                    start,
                    self.world.alien_lasers@,
                    volley(old(self).world.aliens@.subrange(0, i as int), rolls@, room),
                ),
                self.world.wf(),
                self.world.player == old(self).world.player,
                self.world.aliens == old(self).world.aliens,
                self.world.ufo == old(self).world.ufo,
                self.world.player_lasers == old(self).world.player_lasers,
                self.world.shelters == old(self).world.shelters,
                self.ledger == old(self).ledger,
                self.wave == old(self).wave,
                self.ufo_timer == old(self).ufo_timer,
                self.events == old(self).events,
                self.flow == old(self).flow,
            decreases n - i,
        {
            proof {
                lemma_prefix_step(self.world.aliens@, i as int);
                lemma_volley_len(self.world.aliens@.subrange(0, i as int), rolls@, room);
            }
            let ghost shooters = volley(self.world.aliens@.subrange(0, i as int), rolls@, room);
            let ghost before = self.world.alien_lasers@;
            if self.world.alien_lasers.len() < MAX_ALIEN_LASERS && i < rolls.len() && chance(
                rolls[i],
                ALIEN_SHOOT_ODDS,
            ) {
                let a = self.world.aliens[i];
                let id = self.world.fresh_id();
                let y = shift(a.position.y, -(ALIEN_HEIGHT / 2));
                let l = Laser {
                    id,
                    direction: EntityDirection::Down,
                    speed: ALIEN_LASER_SPEED,
                    source: Some(a.kind),
                    position: Point { x: a.position.x, y },
                };
                self.world.alien_lasers.push(l);
                proof {
                    let after = self.world.alien_lasers@;
                    let now = shooters.push(a);
                    assert(after.subrange(0, start.len() as int) =~= start) by {
                        assert(before.subrange(0, start.len() as int) =~= start);
                        assert forall|k: int| 0 <= k < start.len() implies after[k] == before[k] by {}
                    }
                    assert forall|k: int| 0 <= k < now.len() implies fired_by(
                        #[trigger] after[start.len() + k],
                        now[k],
                    ) by {
                        if k < shooters.len() {
                            assert(after[start.len() + k] == before[start.len() + k]);
                        }
                    }
                    assert(forall|k: int|
                        0 <= k < after.len() ==> is_alien_laser(#[trigger] after[k])) by {
                        assert forall|k: int| 0 <= k < after.len() implies is_alien_laser(
                            #[trigger] after[k],
                        ) by {
                            if k < before.len() {
                                assert(after[k] == before[k]);
                            }
                        }
                    }
                }
            }
            i += 1;
        }
        assert(old(self).world.aliens@.subrange(0, n as int) =~= old(self).world.aliens@);
    }

    /// Each alien of the wave fires with odds of one in `ALIEN_SHOOT_ODDS`,
    /// as `aliens_shoot` describes, on fresh random draws.
    pub fn aliens_shoot_at_random(&mut self)
        requires
            old(self).wf(),
        ensures
            final(self).wf(),
            exists|rolls: Seq<u32>|
                rolls.len() == old(self).world.aliens@.len() && after_volley(
                    old(self).world.alien_lasers@,
                    final(self).world.alien_lasers@,
                    #[trigger] volley(
                        old(self).world.aliens@,
                        rolls,
                        (MAX_ALIEN_LASERS - old(self).world.alien_lasers@.len()) as nat,
                    ),
                ),
            final(self).world.player == old(self).world.player,
            final(self).world.aliens == old(self).world.aliens,
            final(self).world.ufo == old(self).world.ufo,
            final(self).world.player_lasers == old(self).world.player_lasers,
            final(self).world.shelters == old(self).world.shelters,
            final(self).ledger == old(self).ledger,
            final(self).wave == old(self).wave,
            final(self).ufo_timer == old(self).ufo_timer,
            final(self).events == old(self).events,
            final(self).flow == old(self).flow,
    {
        let rolls = draw(self.world.aliens.len());
        self.aliens_shoot(&rolls);
    }

    /// Fires the player's laser when asked to, the player is alive and none
    /// of its lasers is in flight; tells whether it fired.
    pub fn player_shoot(&mut self, fire: bool) -> (fired: bool)
        requires
            old(self).wf(),
        ensures
            final(self).wf(),
            fired == (fire && old(self).world.player is Some
                && old(self).world.player_lasers@.len() == 0),
            fired ==> final(self).world.player_lasers@.len() == 1 && {
                let l = final(self).world.player_lasers@[0];
                &&& is_player_laser(l)
                &&& l.position == player_muzzle(old(self).world.player.unwrap().position)
            },
            !fired ==> final(self).world == old(self).world,
            final(self).world.player == old(self).world.player,
            final(self).world.aliens == old(self).world.aliens,
            final(self).world.ufo == old(self).world.ufo,
            final(self).world.alien_lasers == old(self).world.alien_lasers,
            final(self).world.shelters == old(self).world.shelters,
            final(self).ledger == old(self).ledger,
            final(self).wave == old(self).wave,
            final(self).ufo_timer == old(self).ufo_timer,
            final(self).events == old(self).events,
            final(self).flow == old(self).flow,
    {
        if !fire || self.world.player_lasers.len() != 0 {
            return false;
        }
        match self.world.player {
            Some(p) => {
                let id = self.world.fresh_id();
                let y = shift(p.position.y, PLAYER_HEIGHT / 2);
                self.world.player_lasers.push(
                    Laser {
                        id,
                        direction: EntityDirection::Up,
                        speed: PLAYER_LASER_SPEED,
                        source: None,
                        position: Point { x: p.position.x, y },
                    },
                );
                true
            },
            None => false,
        }
    }

    /// Moves every laser straight up or down at its speed, for `dt`
    /// microseconds.
    pub fn move_lasers(&mut self, dt: u32)
        requires
            old(self).wf(),
        ensures
            final(self).wf(),
            final(self).world.player_lasers@ == moved_lasers(old(self).world.player_lasers@, dt),
            final(self).world.alien_lasers@ == moved_lasers(old(self).world.alien_lasers@, dt),
            final(self).world.next_id == old(self).world.next_id,
            final(self).world.player == old(self).world.player,
            final(self).world.aliens == old(self).world.aliens,
            final(self).world.ufo == old(self).world.ufo,
            final(self).world.shelters == old(self).world.shelters,
            final(self).ledger == old(self).ledger,
            final(self).wave == old(self).wave,
            final(self).ufo_timer == old(self).ufo_timer,
            final(self).events == old(self).events,
            final(self).flow == old(self).flow,
    {
        let p = advance(&self.world.player_lasers, dt);
        let a = advance(&self.world.alien_lasers, dt);
        self.world.player_lasers = p;
        self.world.alien_lasers = a;
    }

    /// Raises an explosion for each laser, the player's first, that has
    /// left the band between the floor and the top of the screen.
    pub fn despawn_lasers(&mut self)
        requires
            old(self).wf(),
        ensures
            final(self).wf(),
            final(self).events.explosions@ == old(self).events.explosions@ + strays(
                old(self).world.player_lasers@,
            ) + strays(old(self).world.alien_lasers@),
            final(self).events.player_hit == old(self).events.player_hit,
            final(self).events.alien_hit == old(self).events.alien_hit,
            final(self).events.game_over == old(self).events.game_over,
            final(self).world == old(self).world,
            final(self).ledger == old(self).ledger,
            final(self).wave == old(self).wave,
            final(self).ufo_timer == old(self).ufo_timer,
            final(self).flow == old(self).flow,
    {
        let mut p = find_strays(&self.world.player_lasers);
        let mut a = find_strays(&self.world.alien_lasers);
        self.events.explosions.append(&mut p);
        self.events.explosions.append(&mut a);
    }

    /// Removes the lasers for which an explosion was raised, clears the
    /// raised explosions, and gives where each explosion shows, the player's
    /// laser first.
    pub fn handle_laser_explosion(&mut self) -> (points: Vec<Point>)
        requires
            old(self).wf(),
        ensures
            final(self).wf(),
            final(self).world.player_lasers@ == survivors(
                old(self).world.player_lasers@,
                old(self).events.explosions@,
            ),
            final(self).world.alien_lasers@ == survivors(
                old(self).world.alien_lasers@,
                old(self).events.explosions@,
            ),
            points@ == blasts(old(self).world.player_lasers@, old(self).events.explosions@) + blasts(
                old(self).world.alien_lasers@,
                old(self).events.explosions@,
            ),
            final(self).events.explosions@.len() == 0,
            final(self).events.player_hit == old(self).events.player_hit,
            final(self).events.alien_hit == old(self).events.alien_hit,
            final(self).events.game_over == old(self).events.game_over,
            final(self).world.next_id == old(self).world.next_id,
            final(self).world.player == old(self).world.player,
            final(self).world.aliens == old(self).world.aliens,
            final(self).world.ufo == old(self).world.ufo,
            final(self).world.shelters == old(self).world.shelters,
            final(self).ledger == old(self).ledger,
            final(self).wave == old(self).wave,
            final(self).ufo_timer == old(self).ufo_timer,
            final(self).flow == old(self).flow,
    {
        let (p, mut points) = burst(&self.world.player_lasers, &self.events.explosions);
        let (a, mut more) = burst(&self.world.alien_lasers, &self.events.explosions);
        self.world.player_lasers = p;
        self.world.alien_lasers = a;
        points.append(&mut more);
        self.events.explosions = Vec::new();
        assert forall|k: int| 0 <= k < self.world.player_lasers@.len() implies is_player_laser(
            #[trigger] self.world.player_lasers@[k],
        ) by {
            let j = choose|j: int|
                0 <= j < old(self).world.player_lasers@.len() && self.world.player_lasers@[k]
                    == old(self).world.player_lasers@[j];
        }
        assert forall|k: int| 0 <= k < self.world.alien_lasers@.len() implies is_alien_laser(
            #[trigger] self.world.alien_lasers@[k],
        ) by {
            let j = choose|j: int|
                0 <= j < old(self).world.alien_lasers@.len() && self.world.alien_lasers@[k]
                    == old(self).world.alien_lasers@[j];
        }
        points
    }
}

} // verus!
