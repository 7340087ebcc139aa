//! The player: walking by the keys held, and firing.

use vstd::prelude::*;
use crate::bullet::Bullet;
use crate::movement::{Direction, Movement};
use crate::transform::{Position, Rotation, UNIT};

verus! {

/// How far the player walks along an axis in one tick, in half units.
pub const PLAYER_STEP: i64 = UNIT;

/// The radius of the player's body, in half units.
pub const PLAYER_RADIUS: u32 = 30;

/// The number of ticks a projectile flies before it is spent.
pub const BULLET_RANGE: u32 = 100;

/// What the keyboard reports for one tick.
#[derive(Clone, Copy, Debug, PartialEq, Eq, Structural)]
pub struct Keyboard {
    /// A is held: walk left.
    pub a: bool,
    /// D is held: walk right.
    pub d: bool,
    /// S is held: walk down.
    pub s: bool,
    /// W is held: walk up.
    pub w: bool,
    /// Space went from pressed to released: fire.
    pub space_released: bool,
    /// Enter is pressed: start, or start again.
    pub enter: bool,
}

impl Keyboard {
    /// No key touched.
    pub fn idle() -> (keys: Keyboard)
        ensures
            keys == (Keyboard {
                a: false,
                d: false,
                s: false,
                w: false,
                space_released: false,
                enter: false,
            }),
    {
        Keyboard { a: false, d: false, s: false, w: false, space_released: false, enter: false }
    }

    /// Whether any of the four walking keys is held.
    pub open spec fn walking(self) -> bool {
        self.a || self.d || self.s || self.w
    }

    /// The direction the keys name. Where several are held the last of A, D,
    /// S, W wins; where none is, `last` stays.
    pub open spec fn heading(self, last: Direction) -> Direction {
        if self.w {
            Direction::UP
        } else if self.s {
            Direction::DOWN
        } else if self.d {
            Direction::RIGHT
        } else if self.a {
            Direction::LEFT
        } else {
            last
        }
    }

    /// The horizontal walk the keys ask for, in steps: D adds one, A takes
    /// one away.
    pub open spec fn dx(self) -> int {
        (if self.d { 1int } else { 0int }) - (if self.a { 1int } else { 0int })
    }

    /// The vertical walk the keys ask for, in steps: W adds one, S takes one
    /// away.
    pub open spec fn dy(self) -> int {
        (if self.w { 1int } else { 0int }) - (if self.s { 1int } else { 0int })
    }
}

/// The player.
#[derive(Clone, Copy, Debug, PartialEq, Eq, Structural)]
pub struct Player {
    pub position: Position,
    pub rotation: Rotation,
    pub movement: Movement,
}

/// How long a projectile has flown and how long it may.
#[derive(Clone, Copy, Debug, PartialEq, Eq, Structural)]
pub struct Distance {
    /// Ticks flown so far.
    pub distance_travel: u32,
    /// The projectile is spent once it has flown more ticks than this.
    pub distance_despawn: u32,
}

impl Distance {
    /// A budget is positive and leaves room to count the one tick past it.
    pub open spec fn wf(self) -> bool {
        0 < self.distance_despawn < u32::MAX
    }

    /// Whether the budget is used up.
    pub open spec fn spec_spent(self) -> bool {
        self.distance_travel > self.distance_despawn
    }

    /// Whether the budget is used up.
    pub fn spent(&self) -> (r: bool)
        ensures
            r == self.spec_spent(),
    {
        self.distance_travel > self.distance_despawn
    }
}

impl Player {
    /// The player as it enters the arena: at the origin, unturned, its last
    /// direction up.
    pub open spec fn spec_spawn() -> Player {
        Player {
            position: Position { x: 0, y: 0 },
            rotation: Rotation::Zero,
            movement: Movement { last_movement: Direction::UP },
        }
    }

    /// The player as it enters the arena.
    pub fn spawn() -> (p: Player)
        ensures
            p == Player::spec_spawn(),
    {
        Player {
            position: Position { x: 0, y: 0 },
            rotation: Rotation::Zero,
            movement: Movement { last_movement: Direction::UP },
        }
    }

    /// The player after one tick under `keys`: it walks one step along each
    /// axis that the keys ask for, without slowing on a diagonal, and where a
    /// walking key is held it turns to the direction they name and records it.
    pub open spec fn walked(self, keys: Keyboard) -> Player {
        let heading = keys.heading(self.movement.last_movement);
        Player {
            position: self.position.spec_moved(PLAYER_STEP * keys.dx(), PLAYER_STEP * keys.dy()),
            rotation: if keys.walking() {
                heading.spec_rotation()
            } else {
                self.rotation
            },
            movement: Movement { last_movement: heading },
        }
    }

    /// The projectile this player fires: it starts where the player stands,
    /// flies the way the player last went, and has flown nothing of its
    /// budget yet.
    pub open spec fn fired(self) -> Bullet {
        Bullet {
            position: self.position,
            movement: self.movement,
            distance: Distance { distance_travel: 0, distance_despawn: BULLET_RANGE },
        }
    }
}

/// Walks the player by the keys held. Without a player nothing happens.
pub fn move_player(keys: &Keyboard, player: &mut Option<Player>)
    ensures
        *final(player) == match *old(player) {
            Some(p) => Some(p.walked(*keys)),
            None => None,
        },
{
    if let Some(p) = *player {
        let mut dx: i64 = 0;
        let mut dy: i64 = 0;
        let mut rotation = p.rotation;
        let mut last = p.movement.last_movement;
        if keys.a {
            dx = dx - PLAYER_STEP;
            last = Direction::LEFT;
            rotation = last.rotation();
        }
        if keys.d {
            dx = dx + PLAYER_STEP;
            last = Direction::RIGHT;
            rotation = last.rotation();
        }
        if keys.s {
            dy = dy - PLAYER_STEP;
            last = Direction::DOWN;
            rotation = last.rotation();
        }
        if keys.w {
            dy = dy + PLAYER_STEP;
            last = Direction::UP;
            rotation = last.rotation();
        }
        *player = Some(
            Player {
                position: p.position.moved(dx, dy),
                rotation,
                movement: Movement { last_movement: last },
            },
        );
    }
}

/// Fires once where Space was just released: the player's projectile joins
/// the others, last. Without a player nothing happens.
pub fn player_shoot(keys: &Keyboard, player: &Option<Player>, bullets: &mut Vec<Bullet>)
    ensures
        final(bullets)@ == match *player {
            Some(p) if keys.space_released => old(bullets)@.push(p.fired()),
            _ => old(bullets)@,
        },
{
    if let Some(p) = *player {
        if keys.space_released {
            bullets.push(
                Bullet {
                    position: p.position,
                    movement: p.movement,
                    distance: Distance { distance_travel: 0, distance_despawn: BULLET_RANGE },
                },
            );
        }
    }
}

} // verus!
