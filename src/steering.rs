//! The steering engine: one actor's heading and position, advanced once per
//! tick by keyboard input and then by pointer input.
use vstd::prelude::*;

use crate::angle::{
    abs, compass_heading, compass_of, is_heading, normalize, turn_towards, turned_towards, wrap,
    FULL_TURN, HALF_TURN,
};
use crate::motion::{move_coordinate, moved_to, reachable, Vector, UNIT};

verus! {

/// Turn per tick of the reference configuration: three degrees.
pub const TURN_RATE: i64 = 3_000;

/// Speed of the reference configuration, in world units per tick.
pub const SPEED: i64 = 2;

/// Which directional keys are held during a tick.
#[derive(Clone, Copy, Debug, PartialEq, Eq, Structural)]
pub struct Keys {
    pub left: bool,
    pub right: bool,
    pub up: bool,
    pub down: bool,
}

/// Forward (+1), backward (-1) or no (0) thrust: forward and backward held
/// together cancel.
pub open spec fn thrust_of(keys: Keys) -> int {
    if keys.up && !keys.down {
        1
    } else if keys.down && !keys.up {
        -1
    } else {
        0
    }
}

/// The heading after one tick of keyboard turning: `right` turns clockwise by
/// `rate`, `left` counter-clockwise by `rate`, and both together cancel.
pub open spec fn keyboard_heading(h: int, keys: Keys, rate: int) -> int {
    normalize(h + (if keys.right { rate } else { 0 }) - (if keys.left { rate } else { 0 }))
}

/// The pointer is less than `speed` world units from `p` along both axes.
pub open spec fn in_dead_zone(p: Vector, pointer: Vector, speed: int) -> bool {
    abs(pointer.x - p.x) < speed * UNIT && abs(pointer.y - p.y) < speed * UNIT
}

/// Rates of the steering model.
#[derive(Clone, Copy, Debug, PartialEq, Eq, Structural)]
pub struct Config {
    /// Turn per tick, in thousandths of a degree.
    pub turn_rate: i64,
    /// Distance per tick, in world units.
    pub speed: i64,
}

impl Config {
    /// Rates that a tick can apply: a turn of at most half a turn and a
    /// speed that keeps a step within the world's arithmetic.
    pub open spec fn wf(self) -> bool {
        0 <= self.turn_rate <= HALF_TURN && 0 <= self.speed <= UNIT
    }

    pub fn new(turn_rate: i64, speed: i64) -> (r: Config)
        requires
            0 <= turn_rate <= HALF_TURN,
            0 <= speed <= UNIT,
        ensures
            r == (Config { turn_rate, speed }),
            r.wf(),
    {
        Config { turn_rate, speed }
    }
}

impl Default for Config {
    /// The reference configuration: three degrees and two world units per tick.
    fn default() -> (r: Config)
        ensures
            r == (Config { turn_rate: TURN_RATE, speed: SPEED }),
    {
        Config { turn_rate: TURN_RATE, speed: SPEED }
    }
}

/// The actor's heading.
#[derive(Clone, Copy, Debug, PartialEq, Eq, Structural)]
pub struct Player {
    /// Compass heading in thousandths of a degree, within `[0, FULL_TURN)`.
    pub direction: i64,
}

impl Player {
    /// The heading is in its canonical range.
    pub open spec fn wf(self) -> bool {
        is_heading(self.direction as int)
    }

    /// An actor facing +y.
    pub fn new() -> (r: Player)
        ensures
            r.direction == 0,
            r.wf(),
    {
        Player { direction: 0 }
    }
}

/// One actor under steering: its rates, position and heading.
#[derive(Clone, Copy, Debug, PartialEq, Eq, Structural)]
pub struct Steering {
    pub config: Config,
    pub position: Vector,
    pub player: Player,
}

impl Steering {
    /// Valid rates, a position within the world and a canonical heading.
    pub open spec fn wf(self) -> bool {
        self.config.wf() && self.position.within_world() && self.player.wf()
    }

    /// The heading in thousandths of a degree.
    pub open spec fn heading(self) -> int {
        self.player.direction as int
    }

    /// An actor at the origin facing +y.
    pub fn new(config: Config) -> (r: Steering)
        requires
            config.wf(),
        ensures
            r.wf(),
            r.config == config,
            r.position == (Vector { x: 0, y: 0 }),
            r.heading() == 0,
    {
        Steering { config, position: Vector { x: 0, y: 0 }, player: Player::new() }
    }

    /// Turns by the held `left` and `right` keys, wrapping the heading after
    /// each turn.
    pub fn turn_by_keys(&mut self, keys: &Keys)
        requires
            old(self).wf(),
        ensures
            final(self).wf(),
            final(self).heading() == keyboard_heading(old(self).heading(), *keys, old(self).config.turn_rate as int),
            final(self).position == old(self).position,
            final(self).config == old(self).config,
    {
        let rate = self.config.turn_rate;
        let h0 = self.player.direction;
        if keys.right {
            self.player.direction = wrap(self.player.direction + rate);
        }
        if keys.left {
            self.player.direction = wrap(self.player.direction - rate);
        }
        assert(self.player.direction == keyboard_heading(h0 as int, *keys, rate as int)) by {
            if keys.right && keys.left {
                vstd::arithmetic::div_mod::lemma_mod_add_multiples_vanish(
                    h0 - rate,
                    FULL_TURN as int,
                );
            }
        }
    }

    /// Moves `thrust` times `speed` world units along `unit`, the unit
    /// direction of the current heading, unless that leaves the world; says
    /// whether it moved.
    fn translate(&mut self, unit: Vector, thrust: i64) -> (r: bool)
        requires
            old(self).wf(),
            unit.is_direction(),
            -1 <= thrust <= 1,
        ensures
            final(self).wf(),
            final(self).player == old(self).player,
            final(self).config == old(self).config,
            r == reachable(moved_to(old(self).position, unit, old(self).config.speed as int, thrust as int)),
            r ==> final(self).position.coords() == moved_to(old(self).position, unit, old(self).config.speed as int, thrust as int),
            !r ==> final(self).position == old(self).position,
    {
        let speed = self.config.speed;
        let x = move_coordinate(self.position.x, unit.x, speed, thrust);
        let y = move_coordinate(self.position.y, unit.y, speed, thrust);
        match (x, y) {
            (Some(x), Some(y)) => {
                self.position = Vector { x, y };
                true
            },
            _ => false,
        }
    }

    /// Moves along `unit`, the unit direction of the current heading, by the
    /// thrust of the held `up` and `down` keys, unless that leaves the world;
    /// says whether the position is the moved one.
    pub fn thrust_by_keys(&mut self, keys: &Keys, unit: Vector) -> (r: bool)
        requires
            old(self).wf(),
            unit.is_direction(),
        ensures
            final(self).wf(),
            final(self).player == old(self).player,
            final(self).config == old(self).config,
            r == reachable(moved_to(old(self).position, unit, old(self).config.speed as int, thrust_of(*keys))),
            r ==> final(self).position.coords() == moved_to(old(self).position, unit, old(self).config.speed as int, thrust_of(*keys)),
            !r ==> final(self).position == old(self).position,
    {
        let thrust: i64 = if keys.up && !keys.down {
            1
        } else if keys.down && !keys.up {
            -1
        } else {
            0
        };
        self.translate(unit, thrust)
    }

    /// Moves forward at full speed along `unit`, the unit direction of the
    /// current heading, unless that leaves the world; says whether it moved.
    pub fn advance(&mut self, unit: Vector) -> (r: bool)
        requires
            old(self).wf(),
            unit.is_direction(),
        ensures
            final(self).wf(),
            final(self).player == old(self).player,
            final(self).config == old(self).config,
            r == reachable(moved_to(old(self).position, unit, old(self).config.speed as int, 1)),
            r ==> final(self).position.coords() == moved_to(old(self).position, unit, old(self).config.speed as int, 1),
            !r ==> final(self).position == old(self).position,
    {
        self.translate(unit, 1)
    }

    /// Whether `pointer` is within one tick's travel of the actor along both
    /// axes, where steering towards it is suppressed.
    pub fn near_pointer(&self, pointer: &Vector) -> (r: bool)
        requires
            self.wf(),
            pointer.within_world(),
        ensures
            r == in_dead_zone(self.position, *pointer, self.config.speed as int),
    {
        let d = self.position.offset_to(pointer);
        let reach = self.config.speed * UNIT;
        let ax = if d.x < 0 { -d.x } else { d.x };
        let ay = if d.y < 0 { -d.y } else { d.y };
        ax < reach && ay < reach
    }

    /// Turns one tick towards `pointer`, whose direction from the actor has
    /// angle `bearing` (counter-clockwise from +x, in thousandths of a
    /// degree). Outside the dead zone the heading moves towards the compass
    /// heading of `bearing` by at most the turn rate, the short way round, and
    /// the result is `true`; inside it nothing changes and the result is `false`.
    pub fn steer_toward(&mut self, pointer: &Vector, bearing: i64) -> (r: bool)
        requires
            old(self).wf(),
            pointer.within_world(),
            -FULL_TURN <= bearing <= FULL_TURN,
        ensures
            final(self).wf(),
            r == !in_dead_zone(old(self).position, *pointer, old(self).config.speed as int),
            !r ==> *final(self) == *old(self),
            r ==> final(self).heading() == turned_towards(
                old(self).heading(),
                compass_of(bearing as int),
                old(self).config.turn_rate as int,
            ),
            final(self).position == old(self).position,
            final(self).config == old(self).config,
    {
        if self.near_pointer(pointer) {
            return false;
        }
        let desired = compass_heading(bearing);
        self.player.direction = turn_towards(self.player.direction, desired, self.config.turn_rate);
        true
    }
}

/// Holding `up` and `down` together gives no thrust, so no motion, and holding
/// `left` and `right` together leaves the heading as it was.
pub proof fn lemma_keyboard_symmetry(h: int, keys: Keys, rate: int, p: Vector, u: Vector, speed: int)
    requires
        is_heading(h),
    ensures
        keys.up && keys.down ==> thrust_of(keys) == 0 && moved_to(p, u, speed, thrust_of(keys)) == p.coords(),
        keys.left && keys.right ==> keyboard_heading(h, keys, rate) == h,
{
}

} // verus!
