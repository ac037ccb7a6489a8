//! Vertical motion: jump gating and the grounded / airborne integrator.
use vstd::prelude::*;
use crate::fixed::{clamp, clamp_i64, div_toward_zero, div_i128_toward_zero, MICROS_PER_SECOND, MILLI};
use crate::state::{
    CharacterState, ACCEL_MAX, ACCEL_MIN, GRAVITY, GROUND_MAX, GROUND_MIN,
};

verus! {

/// Accel removed per second while grounded, at unit vertical speed scale (6).
pub const GROUND_DAMPING: i64 = 6000;

/// Accel added by a jump (-80).
pub const JUMP_IMPULSE: i64 = -80_000;

/// A rate in milli-units per second, times a scale in milli-units, times
/// microseconds, over this divisor, is in milli-units.
pub const STEP_DIVISOR: i64 = MILLI * MICROS_PER_SECOND;

/// Microseconds per second over the vertical conversion factor (0.2): the
/// vertical displacement of a tick is `-accel * dt / VERTICAL_DIVISOR`
/// milli-units.
pub const VERTICAL_DIVISOR: i64 = 5 * MICROS_PER_SECOND;

/// Accel that gravity adds in `dt` microseconds.
pub open spec fn gravity_step(scale: int, dt: int) -> int {
    GRAVITY * scale * dt / (STEP_DIVISOR as int)
}

/// Accel that ground damping removes in `dt` microseconds.
pub open spec fn damping_step(scale: int, dt: int) -> int {
    GROUND_DAMPING * scale * dt / (STEP_DIVISOR as int)
}

/// The grounded branch runs while the character stands and is not ascending.
pub open spec fn takes_ground_branch(grounded: bool, accel: int) -> bool {
    grounded && accel >= 0
}

/// The vertical accel after one tick of `dt` microseconds.
pub open spec fn integrated_accel(accel: int, grounded: bool, scale: int, dt: int) -> int {
    if takes_ground_branch(grounded, accel) {
        clamp(accel - damping_step(scale, dt), GROUND_MIN as int, GROUND_MAX as int)
    } else {
        clamp(accel + gravity_step(scale, dt), ACCEL_MIN as int, ACCEL_MAX as int)
    }
}

/// The vertical accel after a jump request: where the character is grounded
/// and not ascending, a fall faster than gravity is first cut down to gravity,
/// then the impulse is added.
pub open spec fn accel_after_jump(accel: int, grounded: bool, jump: bool) -> int {
    if grounded && accel > 0 && jump {
        (if accel > GRAVITY {
            GRAVITY as int
        } else {
            accel
        }) + JUMP_IMPULSE
    } else {
        accel
    }
}

/// Vertical displacement, in milli-units, of `dt` microseconds at `accel`.
pub open spec fn vertical_displacement(accel: int, dt: int) -> int {
    -div_toward_zero(accel * dt, VERTICAL_DIVISOR as int)
}

/// `GRAVITY * scale * dt / STEP_DIVISOR` or `GROUND_DAMPING * scale * dt / STEP_DIVISOR`.
fn scaled_step(rate: i64, scale: u32, dt: u32) -> (r: i64)
    requires
        rate == GRAVITY || rate == GROUND_DAMPING,
    ensures
        r == rate * scale * dt / (STEP_DIVISOR as int),
        0 <= r <= 200_000_000_000_000,
{
    let s: u128 = scale as u128;
    let t: u128 = dt as u128;
    assert(s * t <= 0xffff_ffff * 0xffff_ffff) by (nonlinear_arith)
        requires s <= 0xffff_ffff, t <= 0xffff_ffff;
    let st: u128 = s * t;
    assert((rate as u128) * st <= 9800 * (0xffff_ffffu128 * 0xffff_ffffu128)) by (nonlinear_arith)
        requires 0 <= rate <= 9800, st <= 0xffff_ffffu128 * 0xffff_ffffu128;
    let p: u128 = (rate as u128) * st;
    let q: u128 = p / (STEP_DIVISOR as u128);
    assert(q <= 200_000_000_000_000) by (nonlinear_arith)
        requires q == p / 1_000_000_000u128, p <= 9800 * (0xffff_ffffu128 * 0xffff_ffffu128);
    assert(rate * scale * dt == p) by (nonlinear_arith)
        requires p == rate * st, st == s * t, s == scale, t == dt;
    q as i64
}

impl CharacterState {
    /// Jump gating. With `jump` set, a grounded character whose accel is
    /// positive gets the jump impulse; otherwise nothing changes.
    pub fn apply_jump(&mut self, jump: bool)
        requires
            old(self).wf(),
        ensures
            final(self).wf(),
            final(self).vertical_accel == accel_after_jump(
                old(self).vertical_accel as int,
                old(self).grounded,
                jump,
            ),
            final(self).pending_direction == old(self).pending_direction,
            final(self).horizontal_speed == old(self).horizontal_speed,
            final(self).vertical_speed_scale == old(self).vertical_speed_scale,
            final(self).grounded == old(self).grounded,
    {
        if self.grounded && self.vertical_accel > 0 && jump {
            if self.vertical_accel > GRAVITY {
                self.vertical_accel = GRAVITY;
            }
            self.vertical_accel = self.vertical_accel + JUMP_IMPULSE;
        }
    }

    /// Advances the vertical accel by `dt` microseconds: grounded and not
    /// ascending, it is damped toward `[GROUND_MIN, GROUND_MAX]`; otherwise
    /// gravity is added and the result kept within `[ACCEL_MIN, ACCEL_MAX]`.
    pub fn integrate_vertical(&mut self, dt: u32)
        requires
            old(self).wf(),
        ensures
            final(self).wf(),
            final(self).vertical_accel == integrated_accel(
                old(self).vertical_accel as int,
                old(self).grounded,
                old(self).vertical_speed_scale as int,
                dt as int,
            ),
            !old(self).grounded ==> final(self).vertical_accel >= old(self).vertical_accel,
            old(self).grounded && old(self).vertical_accel >= 0 ==> GROUND_MIN
                <= final(self).vertical_accel <= GROUND_MAX,
            final(self).pending_direction == old(self).pending_direction,
            final(self).horizontal_speed == old(self).horizontal_speed,
            final(self).vertical_speed_scale == old(self).vertical_speed_scale,
            final(self).grounded == old(self).grounded,
    {
        if self.grounded && self.vertical_accel >= 0 {
            let step = scaled_step(GROUND_DAMPING, self.vertical_speed_scale, dt);
            self.vertical_accel = clamp_i64(self.vertical_accel - step, GROUND_MIN, GROUND_MAX);
        } else {
            let step = scaled_step(GRAVITY, self.vertical_speed_scale, dt);
            self.vertical_accel = clamp_i64(self.vertical_accel + step, ACCEL_MIN, ACCEL_MAX);
        }
    }
}

/// Vertical displacement of a tick of `dt` microseconds at `accel`.
pub fn vertical_step(accel: i64, dt: u32) -> (r: i64)
    requires
        ACCEL_MIN <= accel <= ACCEL_MAX,
    ensures
        r == vertical_displacement(accel as int, dt as int),
{
    let a: i128 = accel as i128;
    let t: i128 = dt as i128;
    assert(-500_000 * 0xffff_ffffi128 <= a * t <= 500_000 * 0xffff_ffffi128) by (nonlinear_arith)
        requires -500_000 <= a <= 500_000, 0 <= t <= 0xffff_ffff;
    let q = div_i128_toward_zero(a * t, VERTICAL_DIVISOR as i128);
    assert(-500_000 * 0xffff_ffffi128 / 5_000_000 <= q <= 500_000 * 0xffff_ffffi128 / 5_000_000);
    -(q as i64)
}

} // verus!
