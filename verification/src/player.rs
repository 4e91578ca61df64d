//! The player controller: look rotation, planar movement, jumping.
//!
//! Each frame the shell reads the mouse delta and the key levels, and this
//! module decides what the player transform and impulse accumulator receive.
//! The shell applies the yaw about world-up first and the pitch about the
//! player's local right axis second, in the order stated on [`LookDelta`].

use vstd::prelude::*;

use crate::fixed::{mul_div, Vec3Fx, COORD_LIMIT, SCALE};

verus! {

/// Radians of yaw per pixel of horizontal mouse travel, in micro-radians
/// per milli-pixel (0.003 rad per pixel).
pub const YAW_PER_PIXEL: i64 = 3;

/// Radians of pitch per pixel of vertical mouse travel, in micro-radians
/// per milli-pixel (0.002 rad per pixel).
pub const PITCH_PER_PIXEL: i64 = 2;

/// Distance walked per frame per held movement key, in milli-units
/// (a tenth of a world unit).
pub const MOVE_STEP: i64 = 100;

/// Upward impulse applied on a jump, in milli-units (80 units; with the
/// player's default mass of one, an instantaneous upward velocity change of
/// 80 units per second).
pub const JUMP_IMPULSE: i64 = 80_000;

/// Largest mouse delta magnitude the controller computes with, in
/// milli-pixels.
pub const MOUSE_DELTA_LIMIT: i64 = 1_000_000_000;

/// How one mouse-motion event turns the player, in micro-radians.
///
/// The yaw is applied about the world up axis first, then the pitch about
/// the player's local right axis; applying them in the other order would
/// drift the camera into roll.
#[derive(Clone, Copy, Debug, PartialEq, Eq, Structural)]
pub struct LookDelta {
    pub yaw: i64,
    pub pitch: i64,
}

/// Turn a mouse delta (in milli-pixels, right and down positive) into a
/// rotation: moving right looks right (negative yaw), moving down looks
/// down (negative pitch).
pub fn look_rotation(delta_x: i64, delta_y: i64) -> (r: LookDelta)
    requires
        -MOUSE_DELTA_LIMIT <= delta_x <= MOUSE_DELTA_LIMIT,
        -MOUSE_DELTA_LIMIT <= delta_y <= MOUSE_DELTA_LIMIT,
    ensures
        r.yaw == -YAW_PER_PIXEL * delta_x,
        r.pitch == -PITCH_PER_PIXEL * delta_y,
{
    LookDelta { yaw: -YAW_PER_PIXEL * delta_x, pitch: -PITCH_PER_PIXEL * delta_y }
}

/// Which movement keys are held this frame (levels, not edges: movement
/// continues for as long as a key stays down).
#[derive(Clone, Copy, Debug, PartialEq, Eq, Structural)]
pub struct MoveKeys {
    pub forward: bool,
    pub back: bool,
    pub left: bool,
    pub right: bool,
}

/// One key's contribution to this frame's walk: the given axis vector
/// scaled by [`MOVE_STEP`], or nothing when the key is up.
pub open spec fn spec_step_toward(held: bool, axis_component: int) -> int {
    if held {
        mul_div(axis_component, MOVE_STEP as int, SCALE as int)
    } else {
        0
    }
}

/// One component of this frame's walk: the sum of a step forward, a step
/// backward (along the negated forward axis), a step left (along the
/// negated right axis) and a step right, for whichever keys are held.
pub open spec fn spec_move_component(keys: MoveKeys, fwd: int, right: int) -> int {
    spec_step_toward(keys.forward, fwd) + spec_step_toward(keys.back, -fwd) + spec_step_toward(
        keys.left,
        -right,
    ) + spec_step_toward(keys.right, right)
}

/// This frame's walk, from the held keys and the player's forward and right
/// axis vectors (unit vectors in milli-units, as the shell reads them off
/// the player transform).
pub fn movement_delta(keys: MoveKeys, forward: Vec3Fx, right: Vec3Fx) -> (r: Vec3Fx)
    requires
        crate::fixed::spec_in_coord_range(forward),
        crate::fixed::spec_in_coord_range(right),
    ensures
        r.x == spec_move_component(keys, forward.x as int, right.x as int),
        r.y == spec_move_component(keys, forward.y as int, right.y as int),
        r.z == spec_move_component(keys, forward.z as int, right.z as int),
{
    let mut r = Vec3Fx { x: 0, y: 0, z: 0 };
    if keys.forward {
        proof {
            lemma_step_small(forward.x as int);
            lemma_step_small(forward.y as int);
            lemma_step_small(forward.z as int);
        }
        let step = forward.scaled_ratio(MOVE_STEP, SCALE);
        r = r.plus(step);
    }
    if keys.back {
        let back = Vec3Fx { x: -forward.x, y: -forward.y, z: -forward.z };
        proof {
            lemma_step_small(back.x as int);
            lemma_step_small(back.y as int);
            lemma_step_small(back.z as int);
        }
        let step = back.scaled_ratio(MOVE_STEP, SCALE);
        r = r.plus(step);
    }
    if keys.left {
        let left = Vec3Fx { x: -right.x, y: -right.y, z: -right.z };
        proof {
            lemma_step_small(left.x as int);
            lemma_step_small(left.y as int);
            lemma_step_small(left.z as int);
        }
        let step = left.scaled_ratio(MOVE_STEP, SCALE);
        r = r.plus(step);
    }
    if keys.right {
        proof {
            lemma_step_small(right.x as int);
            lemma_step_small(right.y as int);
            lemma_step_small(right.z as int);
        }
        let step = right.scaled_ratio(MOVE_STEP, SCALE);
        r = r.plus(step);
    }
    r
}

/// A step along a bounded axis is itself bounded by the coordinate limit.
proof fn lemma_step_small(c: int)
    requires
        -COORD_LIMIT <= c <= COORD_LIMIT,
    ensures
        -COORD_LIMIT <= mul_div(c, MOVE_STEP as int, SCALE as int) <= COORD_LIMIT,
        -0x7fff_ffff_ffff_ffff <= c * MOVE_STEP <= 0x7fff_ffff_ffff_ffff,
{
    assert(-100_000_000_000 <= c * 100 <= 100_000_000_000) by (nonlinear_arith)
        requires
            -1_000_000_000 <= c <= 1_000_000_000,
    ;
    crate::fixed::lemma_div_trunc_bound(c * 100, 1000);
    assert(mul_div(c, 100, 1000) == crate::fixed::div_trunc(c * 100, 1000));
}

/// Opposite keys cancel: holding forward and back together (or left and
/// right together) walks the player nowhere on that axis pair.
pub proof fn lemma_opposite_keys_cancel(fwd: int, right: int)
    ensures
        spec_move_component(
            MoveKeys { forward: true, back: true, left: false, right: false },
            fwd,
            right,
        ) == 0,
        spec_move_component(
            MoveKeys { forward: false, back: false, left: true, right: true },
            fwd,
            right,
        ) == 0,
{
    crate::fixed::lemma_div_trunc_neg(fwd * (MOVE_STEP as int), SCALE as int);
    assert((-fwd) * (MOVE_STEP as int) == -(fwd * (MOVE_STEP as int))) by (nonlinear_arith);
    crate::fixed::lemma_div_trunc_neg(right * (MOVE_STEP as int), SCALE as int);
    assert((-right) * (MOVE_STEP as int) == -(right * (MOVE_STEP as int))) by (nonlinear_arith);
}

/// The impulse the jump key hands the physics engine this frame: straight
/// up by [`JUMP_IMPULSE`] exactly when the frame is a rising edge of the
/// jump key and the player is alive, and nothing otherwise.
pub fn jump_impulse(jump_key_edge: bool, is_alive: bool) -> (r: Option<Vec3Fx>)
    ensures
        r == if jump_key_edge && is_alive {
            Some(Vec3Fx { x: 0, y: JUMP_IMPULSE, z: 0 })
        } else {
            None::<Vec3Fx>
        },
{
    if jump_key_edge && is_alive {
        Some(Vec3Fx { x: 0, y: JUMP_IMPULSE, z: 0 })
    } else {
        None
    }
}

} // verus!
