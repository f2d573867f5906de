//! Shelters: their layout and the damage that lasers do to them.
use vstd::prelude::*;

use crate::game::{Game, Laser, Shelter};
use crate::geometry::{dist_sq, within_or_touching, Point};
use crate::settings::{
    FLOOR_HEIGHT, INITIAL_ARMOR_VALUE, NUM_SHELTERS, PLAYER_HEIGHT, SHELTER_DAMAGE, SHELTER_WIDTH,
    WINDOW_WIDTH,
};

use crate::lasers::lemma_prefix_step;

verus! {

/// How close a laser must come to a shelter's middle to hit it: half a
/// shelter's width plus half a laser's.
pub const SHELTER_REACH: i64 = 22_500;

/// Room left between two shelters, and between the sides and the shelters.
pub const SHELTER_GAP: i64 = 128_000;

/// Where the `k`-th shelter stands: the four are spread evenly across the
/// screen, above the player.
pub open spec fn shelter_position(k: int) -> Point {
    Point {
        x: (SHELTER_GAP + SHELTER_WIDTH / 2 + k * (SHELTER_GAP + SHELTER_WIDTH)) as i64,
        y: (2 * FLOOR_HEIGHT + PLAYER_HEIGHT) as i64,
    }
}

pub open spec fn hits_shelter(p: Point, l: Laser) -> bool {
    dist_sq(p, l.position) <= SHELTER_REACH * SHELTER_REACH
}

/// Number of the lasers that hit a shelter at `p`.
pub open spec fn near_count(p: Point, s: Seq<Laser>) -> nat
    decreases s.len(),
{
    if s.len() == 0 {
        0
    } else {
        near_count(p, s.drop_last()) + if hits_shelter(p, s.last()) {
            1nat
        } else {
            0
        }
    }
}

/// Armor left after `hits` impacts; it never goes below zero.
pub open spec fn damage(armor: u32, hits: nat) -> u32 {
    if armor <= SHELTER_DAMAGE * hits {
        0
    } else {
        (armor - SHELTER_DAMAGE * hits) as u32
    }
}

/// The shelter after the impacts of the lasers `a` and `b`.
pub open spec fn battered(s: Shelter, a: Seq<Laser>, b: Seq<Laser>) -> Shelter {
    Shelter {
        armor: damage(s.armor, near_count(s.position, a) + near_count(s.position, b)),
        ..s
    }
}

/// The shelters after the impacts of the lasers `a` and `b`, without those
/// whose armor reached zero.
pub open spec fn damaged(shelters: Seq<Shelter>, a: Seq<Laser>, b: Seq<Laser>) -> Seq<Shelter>
    decreases shelters.len(),
{
    if shelters.len() == 0 {
        Seq::empty()
    } else {
        let rest = damaged(shelters.drop_last(), a, b);
        let s = battered(shelters.last(), a, b);
        if s.armor == 0 {
            rest
        } else {
            rest.push(s)
        }
    }
}

/// Handles of the lasers, in order, that hit one of the shelters.
pub open spec fn sheltered(s: Seq<Laser>, shelters: Seq<Shelter>) -> Seq<u64>
    decreases s.len(),
{
    if s.len() == 0 {
        Seq::empty()
    } else if exists|k: int|
        0 <= k < shelters.len() && hits_shelter(#[trigger] shelters[k].position, s.last()) {
        sheltered(s.drop_last(), shelters).push(s.last().id)
    } else {
        sheltered(s.drop_last(), shelters)
    }
}

proof fn lemma_near_count_bound(p: Point, s: Seq<Laser>)
    ensures
        near_count(p, s) <= s.len(),
    decreases s.len(),
{
    if s.len() > 0 {
        lemma_near_count_bound(p, s.drop_last());
    }
}

/// Number of the lasers that hit a shelter at `p`.
fn count_near(p: Point, lasers: &Vec<Laser>) -> (n: usize)
    ensures
        n == near_count(p, lasers@),
{
    let mut n: usize = 0;
    let mut i: usize = 0;
    while i < lasers.len()
        invariant
            i <= lasers@.len(),
            n == near_count(p, lasers@.subrange(0, i as int)),
            n <= i,
        decreases lasers@.len() - i,
    {
        proof {
            lemma_prefix_step(lasers@, i as int);
        }
        if within_or_touching(p, lasers[i].position, SHELTER_REACH) {
            n += 1;
        }
        i += 1;
    }
    assert(lasers@.subrange(0, lasers@.len() as int) =~= lasers@);
    n
}

/// Whether a laser hits one of the shelters.
fn hits_any(l: Laser, shelters: &Vec<Shelter>) -> (r: bool)
    ensures
        r == exists|k: int|
            0 <= k < shelters@.len() && hits_shelter(#[trigger] shelters@[k].position, l),
{
    let mut i: usize = 0;
    while i < shelters.len()
        invariant
            i <= shelters@.len(),
            forall|k: int| 0 <= k < i ==> !hits_shelter(#[trigger] shelters@[k].position, l),
        decreases shelters@.len() - i,
    {
        if within_or_touching(shelters[i].position, l.position, SHELTER_REACH) {
            return true;
        }
        i += 1;
    }
    false
}

/// Handles of the lasers that hit one of the shelters.
fn find_sheltered(lasers: &Vec<Laser>, shelters: &Vec<Shelter>) -> (ids: Vec<u64>)
    ensures
        ids@ == sheltered(lasers@, shelters@),
{
    let mut ids: Vec<u64> = Vec::new();
    let mut i: usize = 0;
    while i < lasers.len()
        invariant
            i <= lasers@.len(),
            ids@ == sheltered(lasers@.subrange(0, i as int), shelters@),
        decreases lasers@.len() - i,
    {
        proof {
            lemma_prefix_step(lasers@, i as int);
        }
        if hits_any(lasers[i], shelters) {
            ids.push(lasers[i].id);
        }
        i += 1;
    }
    assert(lasers@.subrange(0, lasers@.len() as int) =~= lasers@);
    ids
}

impl Game {
    /// Puts up the four shelters, each with full armor.
    pub fn spawn_shelters(&mut self)
        requires
            old(self).wf(),
        ensures
            final(self).wf(),
            final(self).world.shelters@.len() == NUM_SHELTERS,
            forall|k: int|
                0 <= k < NUM_SHELTERS ==> {
                    let s = #[trigger] final(self).world.shelters@[k];
                    s.armor == INITIAL_ARMOR_VALUE && s.position == shelter_position(k)
                },
            final(self).world.player == old(self).world.player,
            final(self).world.aliens == old(self).world.aliens,
            final(self).world.ufo == old(self).world.ufo,
            final(self).world.player_lasers == old(self).world.player_lasers,
            final(self).world.alien_lasers == old(self).world.alien_lasers,
            final(self).ledger == old(self).ledger,
            final(self).wave == old(self).wave,
            final(self).ufo_timer == old(self).ufo_timer,
            final(self).events == old(self).events,
            final(self).flow == old(self).flow,
    {
        let gap: i64 = (WINDOW_WIDTH - NUM_SHELTERS as i64 * SHELTER_WIDTH) / (NUM_SHELTERS as i64
            + 1);
        assert(gap == SHELTER_GAP);
        let y: i64 = 2 * FLOOR_HEIGHT + PLAYER_HEIGHT;
        let mut x: i64 = gap + SHELTER_WIDTH / 2;
        let mut shelters: Vec<Shelter> = Vec::new();
        let mut k: usize = 0;
        while k < NUM_SHELTERS
            invariant
                k <= NUM_SHELTERS,
                gap == SHELTER_GAP,
                y == 2 * FLOOR_HEIGHT + PLAYER_HEIGHT,
                x == shelter_position(k as int).x,
                shelters@.len() == k,
                forall|j: int|
                    0 <= j < k ==> {
                        let s = #[trigger] shelters@[j];
                        s.armor == INITIAL_ARMOR_VALUE && s.position == shelter_position(j)
                    },
                self.world.wf(),
                self.world.player == old(self).world.player,
                self.world.aliens == old(self).world.aliens,
                self.world.ufo == old(self).world.ufo,
                self.world.player_lasers == old(self).world.player_lasers,
                self.world.alien_lasers == old(self).world.alien_lasers,
                self.world.shelters == old(self).world.shelters,
                self.ledger == old(self).ledger,
                self.wave == old(self).wave,
                self.ufo_timer == old(self).ufo_timer,
                self.events == old(self).events,
                self.flow == old(self).flow,
            decreases NUM_SHELTERS - k,
        {
            let id = self.world.fresh_id();
            shelters.push(Shelter { id, armor: INITIAL_ARMOR_VALUE, position: Point { x, y } });
            x = x + gap + SHELTER_WIDTH;
            k += 1;
        }
        self.world.shelters = shelters;
    }

    /// Each laser within reach of a shelter takes 5 off its armor and
    /// explodes; a shelter goes away exactly when its armor reaches zero.
    pub fn shelter_hit(&mut self)
        requires
            old(self).wf(),
        ensures
            final(self).wf(),
            final(self).world.shelters@ == damaged(
                old(self).world.shelters@,
                old(self).world.player_lasers@,
                old(self).world.alien_lasers@,
            ),
            final(self).events.explosions@ == old(self).events.explosions@ + sheltered(
                old(self).world.player_lasers@,
                old(self).world.shelters@,
            ) + sheltered(old(self).world.alien_lasers@, old(self).world.shelters@),
            final(self).events.player_hit == old(self).events.player_hit,
            final(self).events.alien_hit == old(self).events.alien_hit,
            final(self).events.game_over == old(self).events.game_over,
            final(self).world.next_id == old(self).world.next_id,
            final(self).world.player == old(self).world.player,
            final(self).world.aliens == old(self).world.aliens,
            final(self).world.ufo == old(self).world.ufo,
            final(self).world.player_lasers == old(self).world.player_lasers,
            final(self).world.alien_lasers == old(self).world.alien_lasers,
            final(self).ledger == old(self).ledger,
            final(self).wave == old(self).wave,
            final(self).ufo_timer == old(self).ufo_timer,
            final(self).flow == old(self).flow,
    {
        let mut ids = find_sheltered(&self.world.player_lasers, &self.world.shelters);
        let mut more = find_sheltered(&self.world.alien_lasers, &self.world.shelters);
        self.events.explosions.append(&mut ids);
        self.events.explosions.append(&mut more);
        let ghost a = self.world.player_lasers@;
        let ghost b = self.world.alien_lasers@;
        let mut kept: Vec<Shelter> = Vec::new();
        let mut i: usize = 0;
        while i < self.world.shelters.len()
            invariant
                i <= self.world.shelters@.len(),
                a == self.world.player_lasers@,
                b == self.world.alien_lasers@,
                a.len() <= 1,
                b.len() <= 4,
                self.world == old(self).world,
                kept@ == damaged(self.world.shelters@.subrange(0, i as int), a, b),
                forall|k: int| 0 <= k < kept@.len() ==> #[trigger] kept@[k].armor > 0,
            decreases self.world.shelters@.len() - i,
        {
            proof {
                lemma_prefix_step(self.world.shelters@, i as int);
            }
            let s = self.world.shelters[i];
            let na = count_near(s.position, &self.world.player_lasers);
            let nb = count_near(s.position, &self.world.alien_lasers);
            proof {
                lemma_near_count_bound(s.position, a);
                lemma_near_count_bound(s.position, b);
            }
            let loss: u32 = SHELTER_DAMAGE * (na + nb) as u32;
            let armor: u32 = if s.armor <= loss {
                0
            } else {
                s.armor - loss
            };
            if armor > 0 {
                kept.push(Shelter { armor, ..s });
            }
            i += 1;
        }
        assert(self.world.shelters@.subrange(0, self.world.shelters@.len() as int)
            =~= self.world.shelters@);
        self.world.shelters = kept;
    }
}

/// Armor never goes below zero: each impact takes 5 off it, down to zero.
pub proof fn lemma_armor_floor(armor: u32, hits: nat)
    ensures
        damage(armor, hits) <= armor,
        damage(armor, hits) == (if armor >= SHELTER_DAMAGE * hits {
            armor - SHELTER_DAMAGE * hits
        } else {
            0
        }),
{
}

/// A shelter stays exactly while its armor after the impacts is above zero:
/// every shelter left has armor, and every shelter whose armor after the
/// impacts is above zero is left.
pub proof fn lemma_shelter_despawn(shelters: Seq<Shelter>, a: Seq<Laser>, b: Seq<Laser>)
    ensures
        forall|k: int|
            0 <= k < damaged(shelters, a, b).len() ==> #[trigger] damaged(
                shelters,
                a,
                b,
            )[k].armor > 0,
        forall|j: int|
            0 <= j < shelters.len() && battered(#[trigger] shelters[j], a, b).armor > 0
                ==> damaged(shelters, a, b).contains(battered(shelters[j], a, b)),
        forall|k: int|
            0 <= k < damaged(shelters, a, b).len() ==> exists|j: int|
                0 <= j < shelters.len() && #[trigger] damaged(shelters, a, b)[k] == battered(
                    shelters[j],
                    a,
                    b,
                ),
    decreases shelters.len(),
{
    if shelters.len() > 0 {
        let init = shelters.drop_last();
        lemma_shelter_despawn(init, a, b);
        let rest = damaged(init, a, b);
        let out = damaged(shelters, a, b);
        let s = battered(shelters.last(), a, b);
        assert forall|k: int| 0 <= k < out.len() implies #[trigger] out[k].armor > 0 by {
            if k < rest.len() {
                assert(out[k] == rest[k]);
            }
        }
        assert forall|j: int|
            0 <= j < shelters.len() && battered(#[trigger] shelters[j], a, b).armor > 0 implies out.contains(
            battered(shelters[j], a, b),
        ) by {
            if j < shelters.len() - 1 {
                assert(init[j] == shelters[j]);
                assert(rest.contains(battered(init[j], a, b)));
                let w = choose|w: int| 0 <= w < rest.len() && rest[w] == battered(init[j], a, b);
                assert(out[w] == rest[w]);
            } else {
                assert(out[out.len() - 1] == s);
            }
        }
        assert forall|k: int| 0 <= k < out.len() implies exists|j: int|
            0 <= j < shelters.len() && #[trigger] out[k] == battered(shelters[j], a, b) by {
            if k < rest.len() {
                assert(out[k] == rest[k]);
                let j = choose|j: int| 0 <= j < init.len() && rest[k] == battered(init[j], a, b);
                assert(init[j] == shelters[j]);
            } else {
                assert(out[k] == battered(shelters[shelters.len() - 1], a, b));
            }
        }
    }
}

} // verus!
