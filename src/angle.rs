//! Compass angles in thousandths of a degree: heading 0 points to +y and
//! angles grow clockwise.
use vstd::prelude::*;

verus! {

/// One whole turn (360 degrees).
pub const FULL_TURN: i64 = 360_000;

/// Half a turn (180 degrees).
pub const HALF_TURN: i64 = 180_000;

/// A quarter turn (90 degrees).
pub const QUARTER_TURN: i64 = 90_000;

/// An angle brought into `[0, FULL_TURN)` by whole turns.
pub open spec fn normalize(a: int) -> int {
    a % (FULL_TURN as int)
}

/// The absolute value of `x`.
pub open spec fn abs(x: int) -> int {
    if x < 0 {
        -x
    } else {
        x
    }
}

/// A heading in its canonical range.
pub open spec fn is_heading(h: int) -> bool {
    0 <= h < FULL_TURN
}

/// The signed turn from heading `h` to heading `d` that takes the short way
/// round: congruent to `d - h` modulo a whole turn, within `(-HALF_TURN, HALF_TURN]`.
pub open spec fn shortest_delta(d: int, h: int) -> int {
    HALF_TURN - (HALF_TURN - (d - h)) % (FULL_TURN as int)
}

/// The turn actually made in one tick: the whole of `delta` when it is at most
/// `rate` in size, else `rate` in the direction of `delta`.
pub open spec fn turn_step(delta: int, rate: int) -> int {
    if -rate <= delta <= rate {
        delta
    } else if delta > 0 {
        rate
    } else {
        -rate
    }
}

/// The heading after one tick of turning from `h` towards `d` at `rate`.
pub open spec fn turned_towards(h: int, d: int, rate: int) -> int {
    normalize(h + turn_step(shortest_delta(d, h), rate))
}

/// The compass heading of a direction whose angle is `a` in the
/// mathematical convention (counter-clockwise from +x).
pub open spec fn compass_of(a: int) -> int {
    normalize(FULL_TURN - a + QUARTER_TURN)
}

/// Brings an angle within one turn of the canonical range into it.
pub fn wrap(a: i64) -> (r: i64)
    requires
        -FULL_TURN <= a < 2 * FULL_TURN,
    ensures
        r == normalize(a as int),
        is_heading(r as int),
{
    if a < 0 {
        a + FULL_TURN
    } else if a >= FULL_TURN {
        a - FULL_TURN
    } else {
        a
    }
}

/// The signed short-way turn from `h` to `d`.
pub fn shortest_turn(d: i64, h: i64) -> (r: i64)
    requires
        is_heading(d as int),
        is_heading(h as int),
    ensures
        r == shortest_delta(d as int, h as int),
        -HALF_TURN < r <= HALF_TURN,
{
    let diff = d - h;
    if diff > HALF_TURN {
        diff - FULL_TURN
    } else if diff <= -HALF_TURN {
        diff + FULL_TURN
    } else {
        diff
    }
}

/// Turns heading `h` towards heading `d` by at most `rate`, then wraps.
pub fn turn_towards(h: i64, d: i64, rate: i64) -> (r: i64)
    requires
        is_heading(h as int),
        is_heading(d as int),
        0 <= rate <= HALF_TURN,
    ensures
        r == turned_towards(h as int, d as int, rate as int),
        is_heading(r as int),
{
    let delta = shortest_turn(d, h);
    let step = if -rate <= delta && delta <= rate {
        delta
    } else if delta > 0 {
        rate
    } else {
        -rate
    };
    wrap(h + step)
}

/// Converts a mathematical angle (as `atan2` gives it, in thousandths of a
/// degree) into a compass heading.
pub fn compass_heading(a: i64) -> (r: i64)
    requires
        -FULL_TURN <= a <= FULL_TURN,
    ensures
        r == compass_of(a as int),
        is_heading(r as int),
{
    let r = wrap(QUARTER_TURN - a);
    assert(normalize(FULL_TURN - a + QUARTER_TURN) == normalize(QUARTER_TURN - a)) by {
        vstd::arithmetic::div_mod::lemma_mod_add_multiples_vanish(
            QUARTER_TURN - a,
            FULL_TURN as int,
        );
    }
    r
}

/// Every turn, by keys or towards a desired heading, ends in the canonical
/// range, whatever the heading, the turn and the rate it starts from.
pub proof fn lemma_turns_stay_normalized(h: int, d: int, turn: int, rate: int)
    ensures
        is_heading(normalize(h + turn)),
        is_heading(turned_towards(h, d, rate)),
{
}

/// The turn made in one tick is the short-way difference between the desired
/// and the current heading, that is whichever of `d - h`, `d - h + FULL_TURN`
/// and `d - h - FULL_TURN` is least in size, resolved exactly when it is
/// at most `rate` in size and clamped to `rate` otherwise.
pub proof fn lemma_shortest_path_turning(h: int, d: int, rate: int)
    requires
        is_heading(h),
        is_heading(d),
        0 <= rate <= HALF_TURN,
    ensures
        ({
            let delta = shortest_delta(d, h);
            &&& delta == d - h || delta == d - h + FULL_TURN || delta == d - h - FULL_TURN
            &&& abs(delta) <= abs(d - h)
            &&& abs(delta) <= abs(d - h + FULL_TURN)
            &&& abs(delta) <= abs(d - h - FULL_TURN)
            &&& abs(delta) <= rate ==> turned_towards(h, d, rate) == normalize(h + delta)
            &&& delta > rate ==> turned_towards(h, d, rate) == normalize(h + rate)
            &&& delta < -rate ==> turned_towards(h, d, rate) == normalize(h - rate)
        }),
{
}

} // verus!
