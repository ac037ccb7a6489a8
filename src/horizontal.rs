//! Horizontal motion: intent and facing to a ground-plane displacement.
//!
//! The axes are summed without normalisation: a diagonal request moves
//! along forward plus right, as an orthogonal one moves along either.
use vstd::prelude::*;
use crate::fixed::{div_toward_zero, div_i128_toward_zero};
use crate::input::MovementIntent;
use crate::vector::{Facing, MILLI_I32};
use crate::vertical::STEP_DIVISOR;

verus! {

/// World x of the requested direction, in milli-units per unit.
pub open spec fn heading_x(intent: MovementIntent, facing: Facing) -> int {
    intent.axis_forward() * facing.forward_x + intent.axis_right() * facing.right_x()
}

/// World z of the requested direction, in milli-units per unit.
pub open spec fn heading_z(intent: MovementIntent, facing: Facing) -> int {
    intent.axis_forward() * facing.forward_z + intent.axis_right() * facing.right_z()
}

/// Displacement along one axis, in milli-units, of heading `h` at `speed`
/// for `dt` microseconds.
pub open spec fn horizontal_displacement(h: int, speed: int, dt: int) -> int {
    div_toward_zero(h * speed * dt, STEP_DIVISOR as int)
}

fn axis_value(plus: bool, minus: bool) -> (r: i64)
    ensures
        r == (if plus {
            1int
        } else {
            0
        }) - (if minus {
            1int
        } else {
            0
        }),
{
    let p: i64 = if plus { 1 } else { 0 };
    let m: i64 = if minus { 1 } else { 0 };
    p - m
}

/// The requested direction in world coordinates `(x, z)`.
pub fn heading(intent: &MovementIntent, facing: &Facing) -> (r: (i64, i64))
    requires
        facing.wf(),
    ensures
        r.0 == heading_x(*intent, *facing),
        r.1 == heading_z(*intent, *facing),
        -2000 <= r.0 <= 2000,
        -2000 <= r.1 <= 2000,
{
    let f = axis_value(intent.forward, intent.back);
    let s = axis_value(intent.right, intent.left);
    let fx = facing.forward_x as i64;
    let fz = facing.forward_z as i64;
    assert(-1000 <= f * fx <= 1000 && -1000 <= s * fz <= 1000 && -1000 <= f * fz <= 1000 && -1000
        <= s * fx <= 1000) by (nonlinear_arith)
        requires
            -1 <= f <= 1,
            -1 <= s <= 1,
            -1000 <= fx <= 1000,
            -1000 <= fz <= 1000,
    ;
    assert(s * (-fz) == -(s * fz)) by (nonlinear_arith);
    (f * fx - s * fz, f * fz + s * fx)
}

/// Displacement along one axis of heading `h` at `speed` for `dt` microseconds.
pub fn horizontal_step(h: i64, speed: u32, dt: u32) -> (r: i64)
    requires
        -2000 <= h <= 2000,
    ensures
        r == horizontal_displacement(h as int, speed as int, dt as int),
{
    let hh: i128 = h as i128;
    let s: i128 = speed as i128;
    let t: i128 = dt as i128;
    let bound: i128 = 2000 * 0xffff_ffff * 0xffff_ffff;
    assert(-bound <= hh * s * t <= bound) by (nonlinear_arith)
        requires
            -2000 <= hh <= 2000,
            0 <= s <= 0xffff_ffff,
            0 <= t <= 0xffff_ffff,
            bound == 2000 * 0xffff_ffff * 0xffff_ffff,
    ;
    assert(-bound <= hh * s <= bound) by (nonlinear_arith)
        requires
            -2000 <= hh <= 2000,
            0 <= s <= 0xffff_ffff,
            bound == 2000 * 0xffff_ffff * 0xffff_ffff,
    ;
    let q = div_i128_toward_zero(hh * s * t, STEP_DIVISOR as i128);
    assert(-bound / 1_000_000_000 <= q <= bound / 1_000_000_000);
    q as i64
}

} // verus!
