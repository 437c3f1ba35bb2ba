//! The input mapper: translates the held/not-held state of the four
//! directional keys into a velocity for the controlled body.

use vstd::prelude::*;
use crate::body::Body;

verus! {

/// How many units per tick a directional key moves the controlled body.
pub const SPEED: i64 = 5;

/// The held state of the four directional keys at one instant.
#[derive(Clone, Copy, Debug, PartialEq, Eq, Structural)]
pub struct InputState {
    pub up: bool,
    pub down: bool,
    pub left: bool,
    pub right: bool,
}

/// The velocity one axis gets from its pair of keys: the negative-direction
/// key alone gives `-SPEED`, the positive-direction key alone gives `SPEED`,
/// and both held or both released cancel to zero. (Opposite keys cancelling
/// rather than the most recent one winning is the current policy, kept as is.)
pub open spec fn axis_velocity(negative: bool, positive: bool) -> int {
    if negative && !positive {
        -(SPEED as int)
    } else if positive && !negative {
        SPEED as int
    } else {
        0
    }
}

/// The body with its velocity replaced by the mapped input: left/right drive
/// the horizontal axis, up/down the vertical one (up is negative, down is
/// positive). Position and geometry are untouched.
pub open spec fn mapped_body(b: Body, input: InputState) -> Body {
    Body {
        vx: axis_velocity(input.left, input.right) as i64,
        vy: axis_velocity(input.up, input.down) as i64,
        ..b
    }
}

/// Replace the body's velocity with the one the directional keys map to.
/// The mapping fully replaces the velocity every time it runs; it is not
/// cumulative. Position and geometry are untouched.
pub fn apply_input(body: &mut Body, input: InputState)
    ensures
        *final(body) == mapped_body(*old(body), input),
        final(body).vx == axis_velocity(input.left, input.right),
        final(body).vy == axis_velocity(input.up, input.down),
{
    body.vx = if input.left && !input.right {
        -SPEED
    } else if input.right && !input.left {
        SPEED
    } else {
        0
    };
    body.vy = if input.up && !input.down {
        -SPEED
    } else if input.down && !input.up {
        SPEED
    } else {
        0
    };
}

} // verus!
