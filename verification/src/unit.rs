//! Quantities that every moving body carries: its health, its speeds and the
//! way it faces.

use vstd::prelude::*;
use crate::geometry::Vec2;

verus! {

/// Number of health steps in one health point.
pub const HEALTH_UNIT: i64 = 1000;

/// `v` limited to the range of a health value.
pub open spec fn clamp_health(v: int) -> int {
    if v < i64::MIN {
        i64::MIN as int
    } else if v > i64::MAX {
        i64::MAX as int
    } else {
        v
    }
}

/// `health + amount`, kept between one point and `max_health`.
pub open spec fn healed(health: int, max_health: int, amount: int) -> int {
    let sum = health + amount;
    if sum < HEALTH_UNIT {
        HEALTH_UNIT as int
    } else if sum > max_health {
        max_health
    } else {
        sum
    }
}

/// Whether a blow brought the health down to zero or below.
#[derive(Clone, Copy, Debug, PartialEq, Eq, Structural)]
pub struct HealthReachedZero(pub bool);

/// Current and greatest health of a body, in thousandths of a point.
#[derive(Clone, Copy, Debug, PartialEq, Eq, Structural)]
pub struct Health {
    health: i64,
    max_health: i64,
}

impl Health {
    /// The current health.
    pub closed spec fn health(self) -> int {
        self.health as int
    }

    /// The greatest health that healing can restore.
    pub closed spec fn max_health(self) -> int {
        self.max_health as int
    }

    /// A body in full health.
    pub fn new(max_health: i64) -> (h: Health)
        ensures
            h.health() == max_health,
            h.max_health() == max_health,
    {
        Health { health: max_health, max_health }
    }

    /// Takes `amount` from the health, which stops at the ends of its range.
    /// Reports whether the health is now zero or below.
    #[must_use]
    pub fn take_damage(&mut self, amount: i64) -> (reached_zero: HealthReachedZero)
        ensures
            final(self).health() == clamp_health(old(self).health() - amount),
            final(self).max_health() == old(self).max_health(),
            reached_zero.0 == (final(self).health() <= 0),
    {
        let left: i128 = self.health as i128 - amount as i128;
        self.health = if left < i64::MIN as i128 {
            i64::MIN
        } else if left > i64::MAX as i128 {
            i64::MAX
        } else {
            left as i64
        };
        HealthReachedZero(self.health <= 0)
    }

    /// Adds `amount` to the health and keeps the result between one point and
    /// the greatest health.
    pub fn heal(&mut self, amount: i64)
        requires
            old(self).max_health() >= HEALTH_UNIT,
        ensures
            final(self).max_health() == old(self).max_health(),
            final(self).health() == healed(
                old(self).health(),
                old(self).max_health(),
                amount as int,
            ),
    {
        let sum: i128 = self.health as i128 + amount as i128;
        self.health = if sum < HEALTH_UNIT as i128 {
            HEALTH_UNIT
        } else if sum > self.max_health as i128 {
            self.max_health
        } else {
            sum as i64
        };
    }

    /// The current health.
    pub fn get_health(&self) -> (h: i64)
        ensures
            h == self.health(),
    {
        self.health
    }

    /// The greatest health that healing can restore.
    pub fn get_max_health(&self) -> (h: i64)
        ensures
            h == self.max_health(),
    {
        self.max_health
    }

    /// Replaces the current health.
    pub fn set_health(&mut self, hp: i64)
        ensures
            final(self).health() == hp,
            final(self).max_health() == old(self).max_health(),
    {
        self.health = hp;
    }
}

impl Default for Health {
    /// A body with one hundred points of health.
    fn default() -> (h: Health)
        ensures
            h.health() == 100 * HEALTH_UNIT,
            h.max_health() == 100 * HEALTH_UNIT,
    {
        Health { health: 100_000, max_health: 100_000 }
    }
}

/// Walking and running speed, in grid steps per second.
#[derive(Clone, Copy, Debug, PartialEq, Eq, Structural)]
pub struct Movement {
    pub speed: u32,
    pub running_speed: u32,
}

impl Default for Movement {
    /// A body that stands still.
    fn default() -> (m: Movement)
        ensures
            m == (Movement { speed: 0, running_speed: 0 }),
    {
        Movement { speed: 0, running_speed: 0 }
    }
}

/// One of the four ways a body can face.
#[derive(Clone, Copy, Debug, PartialEq, Eq, Structural)]
pub enum Direction {
    Up,
    Down,
    Left,
    Right,
}

/// The quadrant that the displacement `(dx, dy)` points into. The quadrants
/// meet on the diagonals: the upper one owns both of its borders, the right
/// and the lower one each own the border that follows them clockwise. The
/// zero displacement counts as pointing up.
pub open spec fn facing_of(dx: int, dy: int) -> Direction {
    if dy > 0 && -dy <= dx <= dy {
        Direction::Up
    } else if dx > 0 && -dx <= dy < dx {
        Direction::Right
    } else if dy < 0 && dy <= dx < -dy {
        Direction::Down
    } else if dx < 0 && dx < dy < -dx {
        Direction::Left
    } else {
        Direction::Up
    }
}

impl Direction {
    /// The way a body at `from` faces when it looks at `to`.
    pub fn toward(from: Vec2, to: Vec2) -> (d: Direction)
        ensures
            d == facing_of(to.x - from.x, to.y - from.y),
    {
        let dx: i64 = to.x as i64 - from.x as i64;
        let dy: i64 = to.y as i64 - from.y as i64;
        if dy > 0 && -dy <= dx && dx <= dy {
            Direction::Up
        } else if dx > 0 && -dx <= dy && dy < dx {
            Direction::Right
        } else if dy < 0 && dy <= dx && dx < -dy {
            Direction::Down
        } else if dx < 0 && dx < dy && dy < -dx {
            Direction::Left
        } else {
            Direction::Up
        }
    }
}

impl Default for Direction {
    /// Facing up.
    fn default() -> (d: Direction)
        ensures
            d == Direction::Up,
    {
        Direction::Up
    }
}

/// Thousandths of a degree in a full turn.
pub const FULL_TURN: i32 = 360_000;

/// An angle in thousandths of a degree, counted clockwise from straight up.
#[derive(Clone, Copy, Debug, PartialEq, Eq, Structural)]
pub struct Euler(pub i32);

/// The angle of `radians` millionths of a radian, in thousandths of a degree
/// and brought into one full turn from zero.
pub open spec fn degrees_of(radians: int) -> int {
    ((radians * 180_000) / 3_141_593) % 360_000
}

/// The angle at which a body that faces `direction` looks.
pub open spec fn angle_of(direction: Direction) -> Euler {
    Euler(
        match direction {
            Direction::Up => 0i32,
            Direction::Right => 90_000i32,
            Direction::Down => 180_000i32,
            Direction::Left => 270_000i32,
        },
    )
}

/// The quadrant that holds `angle`. Each quadrant spans a quarter turn around
/// its own direction; an angle outside one full turn counts as pointing up.
pub open spec fn quadrant_of(angle: Euler) -> Direction {
    let a = angle.0;
    if (315_000 <= a <= 360_000) || (0 <= a <= 45_000) {
        Direction::Up
    } else if 45_000 < a <= 135_000 {
        Direction::Right
    } else if 135_000 < a <= 225_000 {
        Direction::Down
    } else if 225_000 < a < 315_000 {
        Direction::Left
    } else {
        Direction::Up
    }
}

impl Euler {
    /// The angle of `radians` millionths of a radian.
    pub fn from_radians(radians: i64) -> (e: Euler)
        ensures
            e.0 == degrees_of(radians as int),
            0 <= e.0 < FULL_TURN,
    {
        let scaled: i128 = radians as i128 * 180_000;
        let degrees: i128 = if scaled >= 0 {
            scaled / 3_141_593
        } else {
            -((-scaled - 1) / 3_141_593) - 1
        };
        let turned: i128 = if degrees >= 0 {
            degrees % 360_000
        } else {
            let back: i128 = (-degrees) % 360_000;
            if back == 0 {
                0
            } else {
                360_000 - back
            }
        };
        Euler(turned as i32)
    }
}

impl From<Direction> for Euler {
    fn from(direction: Direction) -> (e: Euler) {
        Euler(
            match direction {
                Direction::Up => 0,
                Direction::Right => 90_000,
                Direction::Down => 180_000,
                Direction::Left => 270_000,
            },
        )
    }
}

impl vstd::std_specs::convert::FromSpecImpl<Direction> for Euler {
    open spec fn obeys_from_spec() -> bool {
        true
    }

    open spec fn from_spec(direction: Direction) -> Euler {
        angle_of(direction)
    }
}

impl From<Euler> for Direction {
    fn from(angle: Euler) -> (d: Direction) {
        let a: i32 = angle.0;
        if (315_000 <= a && a <= 360_000) || (0 <= a && a <= 45_000) {
            Direction::Up
        } else if 45_000 < a && a <= 135_000 {
            Direction::Right
        } else if 135_000 < a && a <= 225_000 {
            Direction::Down
        } else if 225_000 < a && a < 315_000 {
            Direction::Left
        } else {
            Direction::Up
        }
    }
}

impl vstd::std_specs::convert::FromSpecImpl<Euler> for Direction {
    open spec fn obeys_from_spec() -> bool {
        true
    }

    open spec fn from_spec(angle: Euler) -> Direction {
        quadrant_of(angle)
    }
}

/// Turning a direction into its angle and back gives the direction again.
pub proof fn lemma_direction_round_trip(direction: Direction)
    ensures
        quadrant_of(angle_of(direction)) == direction,
{
}

} // verus!
