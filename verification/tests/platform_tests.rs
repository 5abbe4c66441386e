use player_controller::components::PlayerData;
use player_controller::math::Vec3;
use player_controller::platform::{
    compose_velocity, point_velocity, ride_platform, PlatformMotion,
};

const ZERO: Vec3 = Vec3 { x: 0, y: 0, z: 0 };

fn conveyor() -> PlatformMotion {
    PlatformMotion {
        linear_velocity: Vec3 { x: 0, y: 0, z: 10_000 },
        angular_velocity: ZERO,
        origin: ZERO,
    }
}

#[test]
fn pure_translation_carries_the_linear_velocity() {
    let v = point_velocity(&conveyor(), Vec3 { x: 2_000, y: 0, z: -3_000 });
    assert_eq!(v, Vec3 { x: 0, y: 0, z: 10_000 });
}

#[test]
fn rotation_adds_the_tangential_velocity() {
    // a turntable spinning 1 rad/s about +y, contact one unit out on +x:
    // the contact point moves toward -z at 2 units/s
    let platform = PlatformMotion {
        linear_velocity: ZERO,
        angular_velocity: Vec3 { x: 0, y: 1_000, z: 0 },
        origin: ZERO,
    };
    let v = point_velocity(&platform, Vec3 { x: 2_000, y: 0, z: 0 });
    assert_eq!(v, Vec3 { x: 0, y: 0, z: -2_000 });
}

#[test]
fn riding_records_the_carried_velocity_and_floor() {
    let mut state = PlayerData::default();
    ride_platform(
        &mut state,
        &Some(conveyor()),
        &Some(Vec3 { x: 0, y: 0, z: 0 }),
    );
    assert_eq!(state.carried_velocity, Vec3 { x: 0, y: 0, z: 10_000 });
    assert_eq!(state.last_floor_transform, Some(ZERO));
}

#[test]
fn no_support_decays_the_carried_velocity_to_zero() {
    let mut state = PlayerData::default();
    ride_platform(&mut state, &Some(conveyor()), &Some(ZERO));
    ride_platform(&mut state, &None, &None);
    assert_eq!(state.carried_velocity, ZERO);
    assert_eq!(state.last_floor_transform, None);
}

#[test]
fn composed_velocity_is_carried_plus_movement_plus_damped_drift() {
    let mut state = PlayerData::default();
    state.carried_velocity = Vec3 { x: 0, y: 0, z: 10_000 };
    state.last_unsimulated_velocity = ZERO;
    // the body moves at 0.5 along x that this controller never set:
    // drift 500, damped by 1 / (1 + 0.1 * 0.8) = 1000 / 1080
    let v = compose_velocity(&mut state, ZERO, Vec3 { x: 500, y: 0, z: 0 }, 100);
    assert_eq!(v, Vec3 { x: 462, y: 0, z: 10_000 });
    assert_eq!(state.last_unsimulated_velocity, Vec3 { x: 0, y: 0, z: 10_000 });
}

#[test]
fn drift_decays_to_zero_and_velocity_converges_to_the_platform() {
    // a conveyor at 10.0 along z, no input: whatever outside drift the
    // body starts with decays away, and the velocity becomes exactly the
    // platform's
    let mut state = PlayerData::default();
    let mut velocity = Vec3 { x: 500, y: 0, z: 0 };
    for _ in 0..80 {
        ride_platform(&mut state, &Some(conveyor()), &Some(ZERO));
        velocity = compose_velocity(&mut state, ZERO, velocity, 100);
    }
    assert_eq!(velocity, Vec3 { x: 0, y: 0, z: 10_000 });
}

#[test]
fn zero_drift_is_a_fixed_point() {
    let mut state = PlayerData::default();
    state.carried_velocity = Vec3 { x: 0, y: 0, z: 10_000 };
    state.last_unsimulated_velocity = Vec3 { x: 0, y: 0, z: 10_000 };
    let v = compose_velocity(&mut state, ZERO, Vec3 { x: 0, y: 0, z: 10_000 }, 100);
    assert_eq!(v, Vec3 { x: 0, y: 0, z: 10_000 });
}
