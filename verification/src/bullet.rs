//! Projectiles: flight and the end of it.

use vstd::prelude::*;
use crate::count::{count_up, counted};
use crate::movement::{Direction, Movement};
use crate::player::Distance;
use crate::sequences::{
    lemma_filter_agrees, lemma_filter_all, lemma_filter_of_map, lemma_filter_twice,
};
use crate::transform::{lemma_moved_twice, Position, UNIT};

verus! {

/// The radius of a projectile, in half units.
pub const BULLET_RADIUS: u32 = 2;

/// How far a projectile flies in one tick, in half units.
pub const BULLET_STEP: i64 = UNIT;

/// A projectile in flight.
#[derive(Clone, Copy, Debug, PartialEq, Eq, Structural)]
pub struct Bullet {
    pub position: Position,
    pub movement: Movement,
    pub distance: Distance,
}

impl Bullet {
    /// The projectile after one tick of flight: one step further the way it
    /// was fired, with one more tick on its count.
    pub open spec fn flown(self) -> Bullet {
        Bullet {
            position: self.position.spec_ahead(self.movement.last_movement, BULLET_STEP as int),
            movement: self.movement,
            distance: Distance {
                distance_travel: counted(self.distance.distance_travel, 1),
                distance_despawn: self.distance.distance_despawn,
            },
        }
    }

    /// One tick of flight.
    pub fn fly(self) -> (b: Bullet)
        ensures
            b == self.flown(),
    {
        let position = match self.movement.last_movement {
            Direction::DOWN => self.position.moved(0, -BULLET_STEP),
            Direction::LEFT => self.position.moved(-BULLET_STEP, 0),
            Direction::UP => self.position.moved(0, BULLET_STEP),
            Direction::RIGHT => self.position.moved(BULLET_STEP, 0),
        };
        Bullet {
            position,
            movement: self.movement,
            distance: Distance {
                distance_travel: count_up(self.distance.distance_travel),
                distance_despawn: self.distance.distance_despawn,
            },
        }
    }

    /// Whether the projectile has flown for more ticks than its budget.
    pub open spec fn spent(self) -> bool {
        self.distance.spec_spent()
    }

    /// The projectile `n` ticks of flight on: `n` steps further the way it
    /// was fired, with `n` more ticks on its count.
    pub open spec fn flown_for(self, n: nat) -> Bullet {
        Bullet {
            position: self.position.spec_ahead(self.movement.last_movement, n * BULLET_STEP),
            movement: self.movement,
            distance: Distance {
                distance_travel: counted(self.distance.distance_travel, n),
                distance_despawn: self.distance.distance_despawn,
            },
        }
    }
}

/// The projectiles after one tick of flight each.
pub open spec fn flown_all(bullets: Seq<Bullet>) -> Seq<Bullet> {
    bullets.map_values(|b: Bullet| b.flown())
}

/// The projectiles that are not spent, in their order.
pub open spec fn unspent(bullets: Seq<Bullet>) -> Seq<Bullet> {
    bullets.filter(|b: Bullet| !b.spent())
}

/// The projectiles `n` ticks on: each tick all of them fly, and then those
/// that are spent go.
pub open spec fn flight(bullets: Seq<Bullet>, n: nat) -> Seq<Bullet>
    decreases n,
{
    if n == 0 {
        bullets
    } else {
        unspent(flown_all(flight(bullets, (n - 1) as nat)))
    }
}

/// A tick of flight adds exactly one to the count of a projectile that is
/// not spent.
pub proof fn lemma_flight_counts_one(bullet: Bullet)
    requires
        bullet.distance.wf(),
        !bullet.spent(),
    ensures
        bullet.flown().distance.distance_travel == bullet.distance.distance_travel + 1,
        bullet.flown().distance.distance_despawn == bullet.distance.distance_despawn,
        bullet.flown().spent() <==> bullet.distance.distance_travel
            == bullet.distance.distance_despawn,
{
}

/// The projectiles whose count, `n` ticks on, is still within their budget.
pub open spec fn lasting(bullets: Seq<Bullet>, n: nat) -> Seq<Bullet> {
    bullets.filter(
        |b: Bullet| b.distance.distance_travel + n <= b.distance.distance_despawn,
    )
}

/// `n` ticks of flight in a row are one flight of `n` ticks.
proof fn lemma_flown_once_more(bullet: Bullet, n: nat)
    ensures
        bullet.flown_for(n).flown() == bullet.flown_for(n + 1),
{
    let far = n * BULLET_STEP;
    assert((n + 1) * BULLET_STEP == far + BULLET_STEP) by (nonlinear_arith)
        requires
            far == n * BULLET_STEP,
    ;
    assert(far >= 0) by (nonlinear_arith)
        requires
            far == n * BULLET_STEP,
            BULLET_STEP >= 0,
    ;
    lemma_moved_twice(bullet.position, 0, far, 0, BULLET_STEP as int);
    lemma_moved_twice(bullet.position, 0, -far, 0, -BULLET_STEP);
    lemma_moved_twice(bullet.position, far, 0, BULLET_STEP as int, 0);
    lemma_moved_twice(bullet.position, -far, 0, -BULLET_STEP, 0);
}

/// Of projectiles that are not spent, those in flight after `n` ticks are
/// exactly those whose count is then still within its budget, in their
/// order, each `n` steps on with exactly `n` more on its count. So a
/// projectile goes in the first tick that takes its count past its budget,
/// and in none before.
pub proof fn lemma_flight_ends_on_budget(bullets: Seq<Bullet>, n: nat)
    requires
        forall|i: int|
            0 <= i < bullets.len() ==> (#[trigger] bullets[i]).distance.wf() && !bullets[i].spent(),
    ensures
        flight(bullets, n) == lasting(bullets, n).map_values(|b: Bullet| b.flown_for(n)),
        forall|i: int|
            0 <= i < lasting(bullets, n).len() ==> (#[trigger] lasting(bullets, n)[i]).flown_for(
                n,
            ).distance.distance_travel == lasting(bullets, n)[i].distance.distance_travel + n,
    decreases n,
{
    let on = |b: Bullet| b.flown_for(n);
    let within = |b: Bullet| b.distance.distance_travel + n <= b.distance.distance_despawn;
    assert forall|i: int| 0 <= i < lasting(bullets, n).len() implies (#[trigger] lasting(
        bullets,
        n,
    )[i]).flown_for(n).distance.distance_travel == lasting(bullets, n)[i].distance.distance_travel
        + n by {
        bullets.lemma_filter_pred(within, i);
    }
    if n == 0 {
        lemma_filter_agrees(bullets, within, |b: Bullet| true);
        lemma_filter_all(bullets);
        assert(bullets.map_values(on) =~= bullets);
    } else {
        let m = (n - 1) as nat;
        lemma_flight_ends_on_budget(bullets, m);
        let before = |b: Bullet| b.flown_for(m);
        let within_before = |b: Bullet|
            b.distance.distance_travel + m <= b.distance.distance_despawn;
        let live = |b: Bullet| !b.spent();
        let live_then = |b: Bullet| live(on(b));
        let lasted = lasting(bullets, m);
        // one more tick of flight for each
        assert(flown_all(lasted.map_values(before)) =~= lasted.map_values(on)) by {
            assert forall|i: int| 0 <= i < lasted.len() implies lasted[i].flown_for(m).flown()
                == lasted[i].flown_for(n) by {
                lemma_flown_once_more(lasted[i], m);
            }
        }
        // and those that it leaves unspent
        lemma_filter_of_map(lasted, on, live);
        lemma_filter_twice(bullets, within_before, live_then);
        lemma_filter_agrees(bullets, |b: Bullet| within_before(b) && live_then(b), within);
    }
}

/// Flies every projectile for one tick.
pub fn move_bullet(bullets: &mut Vec<Bullet>)
    ensures
        final(bullets)@ == flown_all(old(bullets)@),
{
    let n = bullets.len();
    let mut i: usize = 0;
    while i < n
        invariant
            i <= n,
            bullets@.len() == n,
            old(bullets)@.len() == n,
            forall|j: int| 0 <= j < i ==> bullets@[j] == old(bullets)@[j].flown(),
            forall|j: int| i <= j < n ==> bullets@[j] == old(bullets)@[j],
        decreases n - i,
    {
        let b = bullets[i].fly();
        bullets.set(i, b);
        i += 1;
    }
    assert(bullets@ =~= flown_all(old(bullets)@));
}

/// Removes every spent projectile. The others keep their order.
pub fn despawn_bullet(bullets: &mut Vec<Bullet>)
    ensures
        final(bullets)@ == unspent(old(bullets)@),
{
    let ghost keep = |b: Bullet| !b.spent();
    let mut kept: Vec<Bullet> = Vec::new();
    let n = bullets.len();
    let mut i: usize = 0;
    proof {
        assert(bullets@.take(0) =~= Seq::<Bullet>::empty());
        reveal(Seq::filter);
    }
    while i < n
        invariant
            i <= n,
            bullets@.len() == n,
            bullets@ == old(bullets)@,
            keep == (|b: Bullet| !b.spent()),
            kept@ == bullets@.take(i as int).filter(keep),
        decreases n - i,
    {
        let b = bullets[i];
        proof {
            assert(bullets@.take(i + 1) =~= bullets@.take(i as int).push(b));
            bullets@.take(i as int).lemma_filter_push(b, keep);
        }
        if !b.distance.spent() {
            kept.push(b);
        }
        i += 1;
    }
    assert(bullets@.take(n as int) =~= bullets@);
    *bullets = kept;
}

} // verus!
