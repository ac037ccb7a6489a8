//! Properties of the controller that hold over all inputs.
use vstd::prelude::*;
use crate::fixed::clamp;
use crate::sensor::in_contact;
use crate::state::{ACCEL_MAX, ACCEL_MIN, GRAVITY, GROUND_MIN};
use crate::vertical::{accel_after_jump, integrated_accel, JUMP_IMPULSE};

verus! {

/// Airborne, the vertical accel never decreases over a tick of non-negative
/// length: gravity only adds, and the ceiling is never below the old value.
pub proof fn lemma_airborne_accel_nondecreasing(accel: int, scale: int, dt: int)
    requires
        ACCEL_MIN <= accel <= ACCEL_MAX,
        scale >= 0,
        dt >= 0,
    ensures
        integrated_accel(accel, false, scale, dt) >= accel,
{
    assert(GRAVITY * scale * dt >= 0) by (nonlinear_arith)
        requires
            scale >= 0,
            dt >= 0,
    ;
}

/// Whatever the accel, speed scale and tick length, the integrated accel lies
/// within `[ACCEL_MIN, ACCEL_MAX]`.
pub proof fn lemma_integrated_accel_bounded(accel: int, grounded: bool, scale: int, dt: int)
    ensures
        ACCEL_MIN <= integrated_accel(accel, grounded, scale, dt) <= ACCEL_MAX,
{
}

/// Clamping is total and idempotent: its result lies in the range, and
/// clamping that result again changes nothing.
pub proof fn lemma_clamp_idempotent(v: int, lo: int, hi: int)
    requires
        lo <= hi,
    ensures
        lo <= clamp(v, lo, hi) <= hi,
        clamp(clamp(v, lo, hi), lo, hi) == clamp(v, lo, hi),
{
}

/// A jump by a grounded, falling character leaves an upward accel of at least
/// the impulse's size less gravity: residual fall speed is cut to gravity first.
pub proof fn lemma_jump_outweighs_gravity(accel: int)
    requires
        accel > 0,
    ensures
        -accel_after_jump(accel, true, true) >= -JUMP_IMPULSE - GRAVITY,
{
}

/// A probe origin further above the nearest surface below it than the contact
/// tolerance never gives contact, nor does a probe that finds nothing.
pub proof fn lemma_no_contact_beyond_tolerance(distance: i64, tolerance: u32)
    requires
        distance > tolerance,
    ensures
        !in_contact(Some(distance), tolerance as int),
        !in_contact(None, tolerance as int),
{
}

/// A grounded character at the ground floor stays there: damping cannot take
/// it below `GROUND_MIN`.
pub proof fn lemma_ground_floor_is_rest(scale: int, dt: int)
    requires
        scale >= 0,
        dt >= 0,
    ensures
        integrated_accel(GROUND_MIN as int, true, scale, dt) == GROUND_MIN,
{
    assert(6000 * scale * dt >= 0) by (nonlinear_arith)
        requires
            scale >= 0,
            dt >= 0,
    ;
}

} // verus!
