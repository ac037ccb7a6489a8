//! The per-character motion record.
use vstd::prelude::*;
use crate::vector::Vector3;

verus! {

/// Accel added by gravity per second of airborne time at unit vertical speed
/// scale (9.8).
pub const GRAVITY: i64 = 9800;

/// Lower and upper bound of the vertical accel (-500 and 500).
pub const ACCEL_MIN: i64 = -500_000;
pub const ACCEL_MAX: i64 = 500_000;

/// Bounds of the vertical accel of a character that stands on the ground
/// (9.8 and 20).
pub const GROUND_MIN: i64 = 9800;
pub const GROUND_MAX: i64 = 20_000;

/// Walking and dashing horizontal speed (8 and 20 units per second).
pub const WALK_SPEED: u32 = 8000;
pub const DASH_SPEED: u32 = 20_000;

/// Vertical speed scale of a newly spawned character (18).
pub const DEFAULT_VERTICAL_SPEED_SCALE: u32 = 18_000;

/// Motion state of one character. All quantities are in milli-units.
#[derive(Clone, Copy, Debug)]
pub struct CharacterState {
    /// Displacement composed for the current tick, not yet handed to the mover.
    pub pending_direction: Vector3,
    /// Positive while falling, negative while ascending after a jump.
    pub vertical_accel: i64,
    /// Horizontal speed, per second.
    pub horizontal_speed: u32,
    /// Multiplier of gravity and of ground damping.
    pub vertical_speed_scale: u32,
    /// Last result of the ground sensor.
    pub grounded: bool,
}

impl CharacterState {
    /// The vertical accel lies within its clamp range.
    pub open spec fn wf(self) -> bool {
        ACCEL_MIN <= self.vertical_accel <= ACCEL_MAX
    }

    /// A character at spawn: walking speed, default vertical speed scale, at
    /// rest and airborne.
    pub fn new() -> (r: CharacterState)
        ensures
            r.wf(),
            r.pending_direction.is_zero(),
            r.vertical_accel == 0,
            r.horizontal_speed == WALK_SPEED,
            r.vertical_speed_scale == DEFAULT_VERTICAL_SPEED_SCALE,
            !r.grounded,
    {
        CharacterState {
            pending_direction: Vector3::zero(),
            vertical_accel: 0,
            horizontal_speed: WALK_SPEED,
            vertical_speed_scale: DEFAULT_VERTICAL_SPEED_SCALE,
            grounded: false,
        }
    }
}

impl Default for CharacterState {
    fn default() -> (r: CharacterState)
        ensures
            r.wf(),
            r.pending_direction.is_zero(),
            r.vertical_accel == 0,
            r.horizontal_speed == WALK_SPEED,
            r.vertical_speed_scale == DEFAULT_VERTICAL_SPEED_SCALE,
            !r.grounded,
    {
        CharacterState::new()
    }
}

} // verus!
