use player_motion::fixed::{clamp_i64, div_i128_toward_zero};
use player_motion::input::{is_held, InputBinding, MovementIntent};
use player_motion::motion::run_tick;
use player_motion::sensor::GroundSensor;
use player_motion::state::{CharacterState, ACCEL_MAX, ACCEL_MIN, DASH_SPEED, GROUND_MAX, GROUND_MIN};
use player_motion::vector::{Facing, Vector3};
use player_motion::vertical::vertical_step;

const TICK: u32 = 16_667;

fn no_input() -> MovementIntent {
    MovementIntent { forward: false, back: false, left: false, right: false, jump: false, dash: false }
}

fn facing_x() -> Facing {
    Facing::new(1000, 0).unwrap()
}

#[test]
fn airborne_accel_never_decreases() {
    let mut s = CharacterState::new();
    s.vertical_accel = -70_200;
    let mut last = s.vertical_accel;
    for _ in 0..400 {
        s.integrate_vertical(TICK);
        assert!(s.vertical_accel >= last);
        last = s.vertical_accel;
    }
    assert_eq!(s.vertical_accel, ACCEL_MAX);
}

#[test]
fn accel_stays_clamped_for_huge_steps() {
    let mut s = CharacterState::new();
    s.vertical_speed_scale = u32::MAX;
    s.integrate_vertical(u32::MAX);
    assert_eq!(s.vertical_accel, ACCEL_MAX);
    s.grounded = true;
    s.integrate_vertical(u32::MAX);
    assert_eq!(s.vertical_accel, GROUND_MIN);
    s.grounded = true;
    s.vertical_accel = ACCEL_MIN;
    s.integrate_vertical(0);
    assert_eq!(s.vertical_accel, ACCEL_MIN);
}

#[test]
fn clamp_is_idempotent() {
    for v in [-600_000i64, -500_000, 0, 9_800, 500_000, 600_000] {
        let once = clamp_i64(v, ACCEL_MIN, ACCEL_MAX);
        assert_eq!(clamp_i64(once, ACCEL_MIN, ACCEL_MAX), once);
    }
    assert_eq!(clamp_i64(600_000, ACCEL_MIN, ACCEL_MAX), 500_000);
    assert_eq!(clamp_i64(15_000, GROUND_MIN, GROUND_MAX), 15_000);
}

#[test]
fn jump_cuts_fall_to_gravity_first() {
    let mut s = CharacterState::new();
    s.grounded = true;
    s.vertical_accel = 400_000;
    s.apply_jump(true);
    assert_eq!(s.vertical_accel, -70_200);
}

#[test]
fn jump_needs_ground_and_positive_accel() {
    let mut s = CharacterState::new();
    s.vertical_accel = 9_800;
    s.apply_jump(true);
    assert_eq!(s.vertical_accel, 9_800);
    s.grounded = true;
    s.vertical_accel = -1_000;
    s.apply_jump(true);
    assert_eq!(s.vertical_accel, -1_000);
    s.vertical_accel = 5_000;
    s.apply_jump(false);
    assert_eq!(s.vertical_accel, 5_000);
    s.apply_jump(true);
    assert_eq!(s.vertical_accel, -75_000);
}

#[test]
fn sensor_contact_within_tolerance_only() {
    let mut g = GroundSensor::new();
    g.sense(Some(161));
    assert!(!g.grounded);
    g.sense(Some(160));
    assert!(g.grounded);
    g.sense(None);
    assert!(!g.grounded);
    g.sense(Some(0));
    assert!(g.grounded);
    g.sense(Some(-5));
    assert!(!g.grounded);
}

#[test]
fn probe_starts_below_the_character() {
    let g = GroundSensor::default();
    let o = g.probe_origin(Vector3 { x: 3, y: 1_400, z: -2 });
    assert_eq!(o, Vector3 { x: 3, y: 0, z: -2 });
}

#[test]
fn pending_direction_cleared_after_hand_over() {
    let mut s = CharacterState::new();
    s.pending_direction = Vector3 { x: 5, y: -7, z: 9 };
    let r = s.take_translation();
    assert_eq!(r, Vector3 { x: 5, y: -7, z: 9 });
    assert_eq!(s.pending_direction, Vector3::zero());

    let mut g = GroundSensor::new();
    let all = MovementIntent { forward: true, back: false, left: false, right: true, jump: true, dash: true };
    for _ in 0..10 {
        let r = run_tick(&mut s, &mut g, Some(10), &all, &facing_x(), TICK);
        assert_ne!(r, Vector3::zero());
        assert_eq!(s.pending_direction, Vector3::zero());
    }
}

#[test]
fn resting_character_settles_on_ground_floor() {
    let mut s = CharacterState::new();
    let mut g = GroundSensor::new();
    for _ in 0..60 {
        let r = run_tick(&mut s, &mut g, Some(0), &no_input(), &facing_x(), TICK);
        assert_eq!(r.x, 0);
        assert_eq!(r.z, 0);
        assert!(s.grounded);
        assert_eq!(s.vertical_accel, GROUND_MIN);
    }
    s.vertical_accel = GROUND_MAX;
    for _ in 0..60 {
        run_tick(&mut s, &mut g, Some(0), &no_input(), &facing_x(), TICK);
    }
    assert_eq!(s.vertical_accel, GROUND_MIN);
}

#[test]
fn free_fall_for_one_second() {
    let mut s = CharacterState::new();
    let mut g = GroundSensor::new();
    for _ in 0..60 {
        run_tick(&mut s, &mut g, None, &no_input(), &facing_x(), TICK);
    }
    assert!(!s.grounded);
    assert_eq!(s.vertical_accel, 176_400);
}

#[test]
fn jump_from_ground_floor() {
    let mut s = CharacterState::new();
    s.vertical_accel = 9_800;
    let mut g = GroundSensor::new();
    let jump = MovementIntent { jump: true, ..no_input() };
    run_tick(&mut s, &mut g, Some(0), &jump, &facing_x(), 0);
    assert_eq!(s.vertical_accel, -70_200);
    let r = run_tick(&mut s, &mut g, None, &no_input(), &facing_x(), TICK);
    assert!(!s.grounded);
    assert!(r.y > 0);
}

#[test]
fn forward_and_left_facing_x() {
    let mut s = CharacterState::new();
    let mut g = GroundSensor::new();
    let i = MovementIntent { forward: true, left: true, ..no_input() };
    let r = run_tick(&mut s, &mut g, Some(0), &i, &facing_x(), TICK);
    assert_eq!(r.x, 133);
    assert_eq!(r.z, -133);
}

#[test]
fn opposite_keys_cancel() {
    let mut s = CharacterState::new();
    let mut g = GroundSensor::new();
    let i = MovementIntent { forward: true, back: true, left: true, right: true, ..no_input() };
    let r = run_tick(&mut s, &mut g, Some(0), &i, &facing_x(), TICK);
    assert_eq!((r.x, r.z), (0, 0));
}

#[test]
fn right_of_facing_minus_z_is_plus_x() {
    let mut s = CharacterState::new();
    let mut g = GroundSensor::new();
    let i = MovementIntent { right: true, ..no_input() };
    let r = run_tick(&mut s, &mut g, Some(0), &i, &Facing::new(0, -1000).unwrap(), 1_000_000);
    assert_eq!((r.x, r.z), (8_000, 0));
}

#[test]
fn dash_persists() {
    let mut s = CharacterState::new();
    let mut g = GroundSensor::new();
    let i = MovementIntent { forward: true, dash: true, ..no_input() };
    let r = run_tick(&mut s, &mut g, Some(0), &i, &facing_x(), 1_000_000);
    assert_eq!(r.x, 20_000);
    let i = MovementIntent { forward: true, ..no_input() };
    run_tick(&mut s, &mut g, Some(0), &i, &facing_x(), 1_000_000);
    assert_eq!(s.horizontal_speed, DASH_SPEED);
}

#[test]
fn vertical_displacement_formula() {
    assert_eq!(vertical_step(176_400, 1_000_000), -35_280);
    assert_eq!(vertical_step(-70_200, 16_667), 234);
    assert_eq!(vertical_step(0, u32::MAX), 0);
}

#[test]
fn division_rounds_toward_zero() {
    assert_eq!(div_i128_toward_zero(-7, 2), -3);
    assert_eq!(div_i128_toward_zero(7, 2), 3);
}

#[test]
fn facing_rejects_long_components() {
    assert!(Facing::new(1001, 0).is_none());
    assert!(Facing::new(0, -1001).is_none());
    assert_eq!(Facing::new(-1000, 1000).map(|f| (f.forward_x, f.forward_z)), Some((-1000, 1000)));
}

#[test]
fn binding_maps_held_keys() {
    let b = InputBinding { forward: 1, back: 2, left: 3, right: 4, jump: 5, dash: 6 };
    let i = b.map(&[4, 5, 9]);
    assert_eq!(i, MovementIntent { forward: false, back: false, left: false, right: true, jump: true, dash: false });
    assert_eq!(b.map(&[]), no_input());
    assert!(is_held(&[7, 8], 8));
    assert!(!is_held(&[7, 8], 9));
}
