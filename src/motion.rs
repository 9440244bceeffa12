//! Points and directions on the plane, and constant-speed motion.
use vstd::prelude::*;

use crate::angle::{is_heading, FULL_TURN, HALF_TURN, QUARTER_TURN};

verus! {

/// Fixed-point scale: one world unit is `UNIT` coordinate steps, and a unit
/// direction has components of size at most `UNIT`.
pub const UNIT: i64 = 1_000_000;

/// Largest size of a coordinate that the steering model keeps to.
pub const WORLD_LIMIT: i64 = 0x2000_0000_0000_0000;

/// A point or a direction on the plane, in millionths of a world unit.
#[derive(Clone, Copy, Debug, PartialEq, Eq, Structural)]
pub struct Vector {
    pub x: i64,
    pub y: i64,
}

/// A coordinate within the world.
pub open spec fn in_world(c: int) -> bool {
    -WORLD_LIMIT <= c <= WORLD_LIMIT
}

impl Vector {
    /// The coordinates as mathematical integers.
    pub open spec fn coords(self) -> (int, int) {
        (self.x as int, self.y as int)
    }

    /// Both coordinates are within the world.
    pub open spec fn within_world(self) -> bool {
        in_world(self.x as int) && in_world(self.y as int)
    }

    /// Both components are at most `UNIT` in size, as those of a unit
    /// direction are.
    pub open spec fn is_direction(self) -> bool {
        -UNIT <= self.x <= UNIT && -UNIT <= self.y <= UNIT
    }

    pub fn new(x: i64, y: i64) -> (r: Vector)
        ensures
            r == (Vector { x, y }),
    {
        Vector { x, y }
    }

    /// The offset from `self` to `other`.
    pub fn offset_to(&self, other: &Vector) -> (r: Vector)
        requires
            self.within_world(),
            other.within_world(),
        ensures
            r.x == other.x - self.x,
            r.y == other.y - self.y,
    {
        Vector { x: other.x - self.x, y: other.y - self.y }
    }
}

/// The coordinate reached from `c` by moving `speed` world units along a
/// direction component `u`, scaled by `thrust`.
pub open spec fn moved(c: int, u: int, speed: int, thrust: int) -> int {
    c + u * speed * thrust
}

/// The point reached from `p` by moving `speed` world units along the unit
/// direction `u`, scaled by `thrust`.
pub open spec fn moved_to(p: Vector, u: Vector, speed: int, thrust: int) -> (int, int) {
    (moved(p.x as int, u.x as int, speed, thrust), moved(p.y as int, u.y as int, speed, thrust))
}

/// Both coordinates of `c` are within the world.
pub open spec fn reachable(c: (int, int)) -> bool {
    in_world(c.0) && in_world(c.1)
}

/// Moves `c` by `u * speed * thrust`, when the result stays within the world.
pub fn move_coordinate(c: i64, u: i64, speed: i64, thrust: i64) -> (r: Option<i64>)
    requires
        in_world(c as int),
        -UNIT <= u <= UNIT,
        0 <= speed <= UNIT,
        -1 <= thrust <= 1,
    ensures
        r is Some <==> in_world(moved(c as int, u as int, speed as int, thrust as int)),
        r matches Some(v) ==> v == moved(c as int, u as int, speed as int, thrust as int),
{
    assert(-UNIT * UNIT <= u * speed <= UNIT * UNIT) by (nonlinear_arith)
        requires
            -UNIT <= u <= UNIT,
            0 <= speed <= UNIT,
    ;
    let step = u * speed;
    let step = if thrust > 0 {
        step
    } else if thrust < 0 {
        -step
    } else {
        0
    };
    assert(step == u * speed * thrust) by (nonlinear_arith)
        requires
            -1 <= thrust <= 1,
            thrust > 0 ==> step == u * speed,
            thrust < 0 ==> step == -(u * speed),
            thrust == 0 ==> step == 0,
    ;
    let v = c + step;
    if -WORLD_LIMIT <= v && v <= WORLD_LIMIT {
        Some(v)
    } else {
        None
    }
}

/// The exact unit direction of a heading that points along an axis.
pub open spec fn axis_direction(h: int) -> Option<Vector> {
    if h == 0 {
        Some(Vector { x: 0, y: UNIT })
    } else if h == QUARTER_TURN {
        Some(Vector { x: UNIT, y: 0 })
    } else if h == HALF_TURN {
        Some(Vector { x: 0, y: -UNIT as i64 })
    } else if h == FULL_TURN - QUARTER_TURN {
        Some(Vector { x: -UNIT as i64, y: 0 })
    } else {
        None
    }
}

/// The exact unit direction of a heading along an axis, which trigonometry in
/// floating point gives only approximately; `None` for any other heading.
pub fn axis_unit(h: i64) -> (r: Option<Vector>)
    requires
        is_heading(h as int),
    ensures
        r == axis_direction(h as int),
{
    if h == 0 {
        Some(Vector { x: 0, y: UNIT })
    } else if h == QUARTER_TURN {
        Some(Vector { x: UNIT, y: 0 })
    } else if h == HALF_TURN {
        Some(Vector { x: 0, y: -UNIT })
    } else if h == FULL_TURN - QUARTER_TURN {
        Some(Vector { x: -UNIT, y: 0 })
    } else {
        None
    }
}

/// Moving along heading 0 changes only `y`, by `speed * thrust` world units;
/// moving along heading `QUARTER_TURN` changes only `x`, by the same amount.
pub proof fn lemma_compass_translation(p: Vector, speed: int, thrust: int)
    ensures
        ({
            let north = axis_direction(0).unwrap();
            &&& moved(p.x as int, north.x as int, speed, thrust) == p.x
            &&& moved(p.y as int, north.y as int, speed, thrust) == p.y + speed * thrust * UNIT
        }),
        ({
            let east = axis_direction(QUARTER_TURN as int).unwrap();
            &&& moved(p.x as int, east.x as int, speed, thrust) == p.x + speed * thrust * UNIT
            &&& moved(p.y as int, east.y as int, speed, thrust) == p.y
        }),
{
    assert(0 * speed * thrust == 0) by (nonlinear_arith);
    assert(UNIT * speed * thrust == speed * thrust * UNIT) by (nonlinear_arith);
}

} // verus!
