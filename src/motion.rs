//! Composition of a tick's displacement, its hand-over to the mover, and the
//! per-tick pipeline: sense, then input, then integrate, then apply.
use vstd::prelude::*;
use crate::horizontal::{heading, heading_x, heading_z, horizontal_displacement, horizontal_step};
use crate::input::MovementIntent;
use crate::sensor::{in_contact, GroundSensor};
use crate::state::{CharacterState, DASH_SPEED};
use crate::vector::{Facing, Vector3};
use crate::vertical::{
    accel_after_jump, integrated_accel, vertical_displacement, vertical_step,
};

verus! {

/// The displacement of a tick: the horizontal request at the state's
/// speed, and the vertical displacement at accel `accel`.
pub open spec fn composed_displacement(
    intent: MovementIntent,
    facing: Facing,
    speed: int,
    accel: int,
    dt: int,
) -> Vector3 {
    Vector3 {
        x: horizontal_displacement(heading_x(intent, facing), speed, dt) as i64,
        y: vertical_displacement(accel, dt) as i64,
        z: horizontal_displacement(heading_z(intent, facing), speed, dt) as i64,
    }
}

/// Horizontal speed after the intent of a tick.
pub open spec fn speed_after(intent: MovementIntent, speed: u32) -> u32 {
    if intent.dash {
        DASH_SPEED
    } else {
        speed
    }
}

impl CharacterState {
    /// Integrates the vertical accel over `dt` microseconds and composes the
    /// tick's displacement into `pending_direction`.
    pub fn update_motion(&mut self, intent: &MovementIntent, facing: &Facing, dt: u32)
        requires
            old(self).wf(),
            facing.wf(),
        ensures
            final(self).wf(),
            final(self).vertical_accel == integrated_accel(
                old(self).vertical_accel as int,
                old(self).grounded,
                old(self).vertical_speed_scale as int,
                dt as int,
            ),
            final(self).pending_direction == composed_displacement(
                *intent,
                *facing,
                old(self).horizontal_speed as int,
                final(self).vertical_accel as int,
                dt as int,
            ),
            final(self).horizontal_speed == old(self).horizontal_speed,
            final(self).vertical_speed_scale == old(self).vertical_speed_scale,
            final(self).grounded == old(self).grounded,
    {
        self.integrate_vertical(dt);
        let (hx, hz) = heading(intent, facing);
        let x = horizontal_step(hx, self.horizontal_speed, dt);
        let z = horizontal_step(hz, self.horizontal_speed, dt);
        let y = vertical_step(self.vertical_accel, dt);
        self.pending_direction = Vector3 { x, y, z };
    }

    /// Hands over the pending displacement and clears it, so that nothing
    /// of this tick leaks into the next.
    pub fn take_translation(&mut self) -> (r: Vector3)
        ensures
            r == old(self).pending_direction,
            final(self).pending_direction.is_zero(),
            final(self).vertical_accel == old(self).vertical_accel,
            final(self).horizontal_speed == old(self).horizontal_speed,
            final(self).vertical_speed_scale == old(self).vertical_speed_scale,
            final(self).grounded == old(self).grounded,
    {
        let r = self.pending_direction;
        self.pending_direction = Vector3::zero();
        r
    }
}

/// One tick of `dt` microseconds: the sensor records `hit` and the state
/// mirrors it, the intent is applied (dash, then jump gating), the vertical
/// accel is integrated, and the composed displacement is returned for the
/// mover with `pending_direction` cleared.
pub fn run_tick(
    state: &mut CharacterState,
    sensor: &mut GroundSensor,
    hit: Option<i64>,
    intent: &MovementIntent,
    facing: &Facing,
    dt: u32,
) -> (r: Vector3)
    requires
        old(state).wf(),
        facing.wf(),
    ensures
        final(state).wf(),
        final(sensor).grounded == in_contact(hit, old(sensor).contact_tolerance as int),
        final(sensor).contact_tolerance == old(sensor).contact_tolerance,
        final(sensor).probe_depth == old(sensor).probe_depth,
        final(state).grounded == final(sensor).grounded,
        final(state).horizontal_speed == speed_after(*intent, old(state).horizontal_speed),
        final(state).vertical_speed_scale == old(state).vertical_speed_scale,
        final(state).vertical_accel == integrated_accel(
            accel_after_jump(
                old(state).vertical_accel as int,
                final(sensor).grounded,
                intent.jump,
            ),
            final(sensor).grounded,
            old(state).vertical_speed_scale as int,
            dt as int,
        ),
        r == composed_displacement(
            *intent,
            *facing,
            final(state).horizontal_speed as int,
            final(state).vertical_accel as int,
            dt as int,
        ),
        final(state).pending_direction.is_zero(),
{
    sensor.sense(hit);
    state.grounded = sensor.grounded;
    state.apply_dash(intent.dash);
    state.apply_jump(intent.jump);
    state.update_motion(intent, facing, dt);
    state.take_translation()
}

} // verus!
