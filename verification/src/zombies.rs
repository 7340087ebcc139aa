//! Enemies: the chase, the collisions and the waves.

use rand::Rng;
use vstd::prelude::*;
use crate::bullet::{Bullet, BULLET_RADIUS};
use crate::count::{count_more, count_up, counted};
use crate::game::GameState;
use crate::player::{Player, PLAYER_RADIUS};
use crate::sequences::{no_marks, unmarked};
use crate::text::{score_line, spec_score_line};
use crate::transform::{clip, shift, Position, Rotation, UNIT};

verus! {

/// The radius of an enemy, in half units.
pub const ZOMBIE_RADIUS: u32 = 30;

/// How far an enemy closes in along each axis in one tick, in half units.
pub const ZOMBIE_STEP: i64 = 1;

/// How far right of the origin the enemy that opens a game stands, in half
/// units: 150 units.
pub const SEED_ZOMBIE_X: i64 = 300;

/// An enemy closer to the player than this catches it, in half units.
pub const CATCH_REACH: u32 = PLAYER_RADIUS + ZOMBIE_RADIUS;

/// A projectile closer to an enemy than this hits it, in half units.
pub const HIT_REACH: u32 = ZOMBIE_RADIUS + BULLET_RADIUS;

/// A new enemy stands at most this many units from the player along each
/// axis.
pub const SPAWN_SPREAD: i32 = 275;

/// An enemy.
#[derive(Clone, Copy, Debug, PartialEq, Eq, Structural)]
pub struct Zombie {
    pub position: Position,
    pub rotation: Rotation,
}

/// The absolute value of `v`.
pub open spec fn magnitude(v: int) -> int {
    if v < 0 {
        -v
    } else {
        v
    }
}

/// One coordinate of an enemy after a chase step: a step up where the
/// target's is greater, and a step down otherwise, also where the two are
/// equal.
pub open spec fn closed_in(at: i64, target: i64) -> i64 {
    if target > at {
        clip(at + ZOMBIE_STEP)
    } else {
        clip(at - ZOMBIE_STEP)
    }
}

/// The angle of an enemy at `at` that chases `target`. It goes by the vector
/// from the target to the enemy: along the axis on which that vector is
/// longer, the vertical one on a tie, and by its sign there.
pub open spec fn facing(at: Position, target: Position) -> Rotation {
    let dx = at.x - target.x;
    let dy = at.y - target.y;
    if magnitude(dx) > magnitude(dy) {
        if dx > 0 {
            Rotation::Half
        } else {
            Rotation::Zero
        }
    } else {
        if dy > 0 {
            Rotation::ThreeQuarters
        } else {
            Rotation::Quarter
        }
    }
}

impl Zombie {
    /// The enemy that opens a game: 150 units right of the origin, unturned.
    pub open spec fn spec_seed() -> Zombie {
        Zombie { position: Position { x: SEED_ZOMBIE_X, y: 0 }, rotation: Rotation::Zero }
    }

    /// The enemy that opens a game.
    pub fn seed() -> (z: Zombie)
        ensures
            z == Zombie::spec_seed(),
    {
        Zombie { position: Position { x: SEED_ZOMBIE_X, y: 0 }, rotation: Rotation::Zero }
    }

    /// The enemy that joins a wave `dx` units right of `player` and `dy`
    /// above it, unturned.
    pub open spec fn spec_spawn_near(player: Position, dx: int, dy: int) -> Zombie {
        Zombie { position: player.spec_moved(UNIT * dx, UNIT * dy), rotation: Rotation::Zero }
    }

    /// The enemy that joins a wave `dx` units right of `player` and `dy`
    /// above it.
    pub fn spawn_near(player: Position, dx: i32, dy: i32) -> (z: Zombie)
        ensures
            z == Zombie::spec_spawn_near(player, dx as int, dy as int),
    {
        let wide_dx: i64 = dx as i64;
        let wide_dy: i64 = dy as i64;
        Zombie { position: player.moved(UNIT * wide_dx, UNIT * wide_dy), rotation: Rotation::Zero }
    }

    /// Whether this enemy is close enough to `player` to catch it.
    pub open spec fn catches(self, player: Player) -> bool {
        player.position.spec_within(self.position, CATCH_REACH)
    }

    /// Whether the projectile `bullet` is close enough to this enemy to hit
    /// it.
    pub open spec fn hit_by(self, bullet: Bullet) -> bool {
        bullet.position.spec_within(self.position, HIT_REACH)
    }

    /// Whether this enemy stands where a wave may put one around `player`:
    /// within the spread along each axis, a whole number of units away.
    pub open spec fn spawned_near(self, player: Position) -> bool {
        exists|dx: int, dy: int|
            -SPAWN_SPREAD <= dx <= SPAWN_SPREAD && -SPAWN_SPREAD <= dy <= SPAWN_SPREAD && self
                == #[trigger] Zombie::spec_spawn_near(player, dx, dy)
    }

    /// The enemy after one tick of chasing `target`: each coordinate closes
    /// in on its own, and the enemy then turns by where it stands.
    pub open spec fn chasing(self, target: Position) -> Zombie {
        let position = Position {
            x: closed_in(self.position.x, target.x),
            y: closed_in(self.position.y, target.y),
        };
        Zombie { position, rotation: facing(position, target) }
    }

    /// One tick of chasing `target`.
    pub fn chase(self, target: Position) -> (z: Zombie)
        ensures
            z == self.chasing(target),
    {
        let x = if target.x > self.position.x {
            shift(self.position.x, ZOMBIE_STEP)
        } else {
            shift(self.position.x, -ZOMBIE_STEP)
        };
        let y = if target.y > self.position.y {
            shift(self.position.y, ZOMBIE_STEP)
        } else {
            shift(self.position.y, -ZOMBIE_STEP)
        };
        let dx: i128 = x as i128 - target.x as i128;
        let dy: i128 = y as i128 - target.y as i128;
        let wide: i128 = if dx < 0 { -dx } else { dx };
        let tall: i128 = if dy < 0 { -dy } else { dy };
        let rotation = if wide > tall {
            if dx > 0 {
                Rotation::Half
            } else {
                Rotation::Zero
            }
        } else {
            if dy > 0 {
                Rotation::ThreeQuarters
            } else {
                Rotation::Quarter
            }
        };
        Zombie { position: Position { x, y }, rotation }
    }
}

/// How far apart two coordinates are.
pub open spec fn gap(a: i64, b: i64) -> int {
    magnitude(a - b)
}

impl Zombie {
    /// The enemy after `n` ticks of chasing a target that stands still.
    pub open spec fn chasing_for(self, target: Position, n: nat) -> Zombie
        decreases n,
    {
        if n == 0 {
            self
        } else {
            self.chasing_for(target, (n - 1) as nat).chasing(target)
        }
    }
}

/// A chase step closes a gap along an axis by exactly one step; where there
/// is none it opens one of at most a step.
pub proof fn lemma_step_closes_gap(at: i64, target: i64)
    ensures
        gap(at, target) > 0 ==> gap(closed_in(at, target), target) == gap(at, target) - 1,
        gap(at, target) == 0 ==> gap(closed_in(at, target), target) <= 1,
{
}

/// A tick of chasing never takes an enemy further from a target that stands
/// still, unless the enemy stands on it, and then by no more than a step
/// along each axis. It brings the enemy nearer where the two differ along
/// both axes.
pub proof fn lemma_chase_closes_in(zombie: Zombie, target: Position)
    ensures
        zombie.position != target ==> zombie.chasing(target).position.distance_squared(target)
            <= zombie.position.distance_squared(target),
        zombie.position == target ==> zombie.chasing(target).position.distance_squared(target)
            <= 2,
        zombie.position.x != target.x && zombie.position.y != target.y ==> zombie.chasing(
            target,
        ).position.distance_squared(target) < zombie.position.distance_squared(target),
{
    let after = zombie.chasing(target).position;
    lemma_step_closes_gap(zombie.position.x, target.x);
    lemma_step_closes_gap(zombie.position.y, target.y);
    lemma_square_of_gap(zombie.position.x - target.x, after.x - target.x);
    lemma_square_of_gap(zombie.position.y - target.y, after.y - target.y);
}

/// Squares of two differences of which the second is smaller by one in
/// size, or at most one where the first is zero.
proof fn lemma_square_of_gap(before: int, after: int)
    by (nonlinear_arith)
    requires
        before != 0 ==> magnitude(after) == magnitude(before) - 1,
        before == 0 ==> magnitude(after) <= 1,
    ensures
        before != 0 ==> after * after <= before * before - 2 * magnitude(before) + 1,
        before != 0 ==> after * after < before * before,
        before == 0 ==> after * after <= 1,
        before * before >= 0,
        after * after >= 0,
        before != 0 ==> before * before >= 1,
{
}

/// What is left of a gap after `n` chase steps at the most: `n` steps less,
/// and one step once it has closed.
pub open spec fn gap_left(gap: int, n: nat) -> int {
    if gap - n > 1 {
        gap - n
    } else {
        1
    }
}

/// After `n` ticks of chasing a target that stands still, the gap along each
/// axis is `n` steps smaller, or at most one step once it has closed: the
/// enemy arrives and then stays within a step of the target along each axis.
pub proof fn lemma_chase_converges(zombie: Zombie, target: Position, n: nat)
    ensures
        gap(zombie.chasing_for(target, n).position.x, target.x) <= gap_left(
            gap(zombie.position.x, target.x),
            n,
        ),
        gap(zombie.chasing_for(target, n).position.y, target.y) <= gap_left(
            gap(zombie.position.y, target.y),
            n,
        ),
        n >= gap(zombie.position.x, target.x) && n >= gap(zombie.position.y, target.y)
            ==> zombie.chasing_for(target, n).position.distance_squared(target) <= 2,
    decreases n,
{
    let arrived = zombie.chasing_for(target, n).position;
    if n > 0 {
        let m = (n - 1) as nat;
        lemma_chase_converges(zombie, target, m);
        let midway = zombie.chasing_for(target, m);
        lemma_step_closes_gap(midway.position.x, target.x);
        lemma_step_closes_gap(midway.position.y, target.y);
    }
    if n >= gap(zombie.position.x, target.x) && n >= gap(zombie.position.y, target.y) {
        lemma_square_at_most_one(arrived.x - target.x);
        lemma_square_at_most_one(arrived.y - target.y);
    }
}

/// The square of a difference of at most one in size is at most one.
proof fn lemma_square_at_most_one(d: int)
    by (nonlinear_arith)
    requires
        -1 <= d <= 1,
    ensures
        0 <= d * d <= 1,
{
}

/// The enemies after one tick of chasing a player that stands at `target`.
pub open spec fn chasing_all(zombies: Seq<Zombie>, target: Position) -> Seq<Zombie> {
    zombies.map_values(|z: Zombie| z.chasing(target))
}

/// Moves every enemy one step towards the player and turns it. Without a
/// player nothing happens.
pub fn move_zombies(player: &Option<Player>, zombies: &mut Vec<Zombie>)
    ensures
        final(zombies)@ == match *player {
            Some(p) => chasing_all(old(zombies)@, p.position),
            None => old(zombies)@,
        },
{
    if let Some(p) = *player {
        let target = p.position;
        let n = zombies.len();
        let mut i: usize = 0;
        while i < n
            invariant
                i <= n,
                zombies@.len() == n,
                old(zombies)@.len() == n,
                forall|j: int| 0 <= j < i ==> zombies@[j] == old(zombies)@[j].chasing(target),
                forall|j: int| i <= j < n ==> zombies@[j] == old(zombies)@[j],
            decreases n - i,
        {
            let z = zombies[i].chase(target);
            zombies.set(i, z);
            i += 1;
        }
        assert(zombies@ =~= chasing_all(old(zombies)@, target));
    }
}

/// Whether some enemy catches the player.
pub open spec fn caught(player: Player, zombies: Seq<Zombie>) -> bool {
    exists|i: int| 0 <= i < zombies.len() && (#[trigger] zombies[i]).catches(player)
}

/// Ends the game where an enemy has reached the player: the player is
/// destroyed and the state becomes `GameOver`, however many enemies reached
/// it. Otherwise, and without a player, nothing happens.
pub fn zombie_player_collision(
    player: &mut Option<Player>,
    zombies: &Vec<Zombie>,
    state: &mut GameState,
)
    ensures
        match *old(player) {
            Some(p) if caught(p, zombies@) => {
                &&& *final(player) == None::<Player>
                &&& *final(state) == GameState::GameOver
            },
            _ => {
                &&& *final(player) == *old(player)
                &&& *final(state) == *old(state)
            },
        },
{
    if let Some(p) = *player {
        let n = zombies.len();
        let mut i: usize = 0;
        let mut reached = false;
        while i < n
            invariant
                i <= n,
                zombies@.len() == n,
                reached == caught(p, zombies@.take(i as int)),
            decreases n - i,
        {
            let z = zombies[i];
            let near = p.position.within(z.position, CATCH_REACH);
            proof {
                let before = zombies@.take(i as int);
                let after = zombies@.take(i + 1);
                assert(after[i as int] == z);
                assert forall|j: int| 0 <= j < before.len() implies before[j] == after[j] by {}
                if caught(p, after) {
                    let j = choose|j: int| 0 <= j < after.len() && (#[trigger] after[j]).catches(p);
                    if j < i {
                        assert(before[j].catches(p));
                    }
                }
                if caught(p, before) {
                    let j = choose|j: int|
                        0 <= j < before.len() && (#[trigger] before[j]).catches(p);
                    assert(after[j].catches(p));
                }
            }
            if near {
                reached = true;
            }
            i += 1;
        }
        assert(zombies@.take(n as int) =~= zombies@);
        if reached {
            *player = None;
            *state = GameState::GameOver;
        }
    }
}

/// Whether the projectile hits some enemy.
pub open spec fn hits_any(bullet: Bullet, zombies: Seq<Zombie>) -> bool {
    exists|j: int| 0 <= j < zombies.len() && (#[trigger] zombies[j]).hit_by(bullet)
}

/// Whether some projectile hits the enemy.
pub open spec fn hit_by_any(zombie: Zombie, bullets: Seq<Bullet>) -> bool {
    exists|i: int| 0 <= i < bullets.len() && zombie.hit_by(#[trigger] bullets[i])
}

/// The projectiles that hit no enemy, in their order.
pub open spec fn missing(bullets: Seq<Bullet>, zombies: Seq<Zombie>) -> Seq<Bullet> {
    bullets.filter(|b: Bullet| !hits_any(b, zombies))
}

/// The enemies that no projectile hits, in their order.
pub open spec fn unhit(zombies: Seq<Zombie>, bullets: Seq<Bullet>) -> Seq<Zombie> {
    zombies.filter(|z: Zombie| !hit_by_any(z, bullets))
}

/// The number of enemies that some projectile hits.
pub open spec fn destroyed(zombies: Seq<Zombie>, bullets: Seq<Bullet>) -> nat {
    (zombies.len() - unhit(zombies, bullets).len()) as nat
}

/// Destroys what collides: every projectile that hits an enemy and every
/// enemy that a projectile hits go, and the rest keep their order. Each
/// enemy destroyed counts one on the score, and where one is destroyed the
/// score text becomes the line for the new score.
///
/// All pairs are judged as they stand on entry, so one projectile can
/// destroy several enemies, and an enemy that several projectiles hit is
/// destroyed, and counted, once.
pub fn zombie_bullet_collision(
    bullets: &mut Vec<Bullet>,
    zombies: &mut Vec<Zombie>,
    score: &mut u32,
    score_text: &mut String,
)
    ensures
        final(bullets)@ == missing(old(bullets)@, old(zombies)@),
        final(zombies)@ == unhit(old(zombies)@, old(bullets)@),
        *final(score) == counted(*old(score), destroyed(old(zombies)@, old(bullets)@)),
        final(score_text)@ == if destroyed(old(zombies)@, old(bullets)@) > 0 {
            spec_score_line(*final(score))
        } else {
            old(score_text)@
        },
{
    let shots = bullets.len();
    let crowd = zombies.len();
    let mut shot_hit = no_marks(shots);
    let mut zombie_hit = no_marks(crowd);
    let mut i: usize = 0;
    proof {
        assert(bullets@.take(0) =~= Seq::<Bullet>::empty());
    }
    while i < shots
        invariant
            i <= shots,
            bullets@ == old(bullets)@,
            zombies@ == old(zombies)@,
            bullets@.len() == shots,
            zombies@.len() == crowd,
            shot_hit@.len() == shots,
            zombie_hit@.len() == crowd,
            forall|k: int| 0 <= k < i ==> shot_hit@[k] == hits_any(#[trigger] bullets@[k], zombies@),
            forall|k: int| i <= k < shots ==> !shot_hit@[k],
            forall|j: int|
                0 <= j < crowd ==> zombie_hit@[j] == hit_by_any(
                    #[trigger] zombies@[j],
                    bullets@.take(i as int),
                ),
        decreases shots - i,
    {
        let b = bullets[i];
        let ghost before = bullets@.take(i as int);
        let mut j: usize = 0;
        proof {
            assert(zombies@.take(0) =~= Seq::<Zombie>::empty());
        }
        while j < crowd
            invariant
                j <= crowd,
                i < shots,
                b == bullets@[i as int],
                before == bullets@.take(i as int),
                bullets@.len() == shots,
                zombies@.len() == crowd,
                shot_hit@.len() == shots,
                zombie_hit@.len() == crowd,
                forall|k: int|
                    0 <= k < i ==> shot_hit@[k] == hits_any(#[trigger] bullets@[k], zombies@),
                forall|k: int| i < k < shots ==> !shot_hit@[k],
                shot_hit@[i as int] == hits_any(b, zombies@.take(j as int)),
                forall|k: int|
                    0 <= k < j ==> zombie_hit@[k] == (hit_by_any(#[trigger] zombies@[k], before)
                        || zombies@[k].hit_by(b)),
                forall|k: int|
                    j <= k < crowd ==> zombie_hit@[k] == hit_by_any(#[trigger] zombies@[k], before),
            decreases crowd - j,
        {
            let z = zombies[j];
            let struck = b.position.within(z.position, HIT_REACH);
            proof {
                let seen = zombies@.take(j as int);
                let next = zombies@.take(j + 1);
                assert(next =~= seen.push(z));
                if hits_any(b, next) {
                    let k = choose|k: int| 0 <= k < next.len() && (#[trigger] next[k]).hit_by(b);
                    if k < j {
                        assert(seen[k].hit_by(b));
                    }
                }
                if hits_any(b, seen) {
                    let k = choose|k: int| 0 <= k < seen.len() && (#[trigger] seen[k]).hit_by(b);
                    assert(next[k].hit_by(b));
                }
                if struck {
                    assert(next[j as int].hit_by(b));
                }
            }
            if struck {
                shot_hit.set(i, true);
                zombie_hit.set(j, true);
            }
            j += 1;
        }
        proof {
            let after = bullets@.take(i + 1);
            assert(zombies@.take(crowd as int) =~= zombies@);
            assert(after.drop_last() =~= before);
            assert(after.last() == b);
            assert forall|k: int| 0 <= k < crowd implies zombie_hit@[k] == hit_by_any(
                #[trigger] zombies@[k],
                after,
            ) by {
                let z = zombies@[k];
                if hit_by_any(z, after) {
                    let m = choose|m: int| 0 <= m < after.len() && z.hit_by(#[trigger] after[m]);
                    if m < i {
                        assert(z.hit_by(before[m]));
                    }
                }
                if hit_by_any(z, before) {
                    let m = choose|m: int| 0 <= m < before.len() && z.hit_by(#[trigger] before[m]);
                    assert(z.hit_by(after[m]));
                }
                if z.hit_by(b) {
                    assert(z.hit_by(after[i as int]));
                }
            }
        }
        i += 1;
    }
    assert(bullets@.take(shots as int) =~= bullets@);
    let ghost shots_before = bullets@;
    let ghost crowd_before = zombies@;
    let left = unmarked(bullets, &shot_hit, Ghost(|b: Bullet| !hits_any(b, crowd_before)));
    let standing = unmarked(zombies, &zombie_hit, Ghost(|z: Zombie| !hit_by_any(z, shots_before)));
    proof {
        crowd_before.lemma_filter_len(|z: Zombie| !hit_by_any(z, shots_before));
    }
    let gone = crowd - standing.len();
    *bullets = left;
    *zombies = standing;
    if gone > 0 {
        *score = count_more(*score, gone);
        *score_text = score_line(*score);
    }
}

/// Draws a whole number from `low` to `high`, both included: one call of
/// `Rng::gen_range` on `rand::thread_rng()` with the inclusive range.
///
/// Taken on trust from that crate, and not proved here: the number drawn
/// lies in the range. Which number comes is left open, and two draws may
/// differ. The call panics on an empty range, so the bounds must be in
/// order.
#[verifier::external_body]
fn random_between(low: i32, high: i32) -> (n: i32)
    requires
        low <= high,
    ensures
        low <= n <= high,
{
    rand::thread_rng().gen_range(low..=high)
}

/// Sends the next wave once no enemy is left: the wave count goes up by one
/// and as many enemies as it then says appear around the player, each at a
/// random whole number of units within the spread along each axis. With an
/// enemy left, or without a player, nothing happens.
pub fn next_zombie_wave(player: &Option<Player>, zombies: &mut Vec<Zombie>, wave: &mut u32)
    ensures
        match *player {
            Some(p) if old(zombies)@.len() == 0 => {
                &&& *final(wave) == counted(*old(wave), 1)
                &&& final(zombies)@.len() == *final(wave)
                &&& forall|i: int|
                    0 <= i < final(zombies)@.len() ==> (#[trigger] final(zombies)@[i]).spawned_near(
                        p.position,
                    )
            },
            _ => {
                &&& *final(wave) == *old(wave)
                &&& final(zombies)@ == old(zombies)@
            },
        },
{
    if let Some(p) = *player {
        if zombies.len() == 0 {
            *wave = count_up(*wave);
            let size = *wave;
            let mut n: u32 = 0;
            while n < size
                invariant
                    n <= size,
                    size == *wave,
                    zombies@.len() == n,
                    forall|i: int|
                        0 <= i < zombies@.len() ==> (#[trigger] zombies@[i]).spawned_near(
                            p.position,
                        ),
                decreases size - n,
            {
                let dx = random_between(-SPAWN_SPREAD, SPAWN_SPREAD);
                let dy = random_between(-SPAWN_SPREAD, SPAWN_SPREAD);
                let z = Zombie::spawn_near(p.position, dx, dy);
                assert(z.spawned_near(p.position));
                zombies.push(z);
                n += 1;
            }
        }
    }
}

} // verus!
