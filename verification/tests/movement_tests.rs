use player_controller::components::{
    GroundedState, InputSnapshot, Player, PlayerData, UngroundedReason,
};
use player_controller::math::Vec3;
use player_controller::movement::movement_velocity;

const FORWARD: Vec3 = Vec3 { x: 0, y: 0, z: 1_000 };
const RIGHTWARD: Vec3 = Vec3 { x: 1_000, y: 0, z: 0 };
const AT_REST: Vec3 = Vec3 { x: 0, y: 0, z: 0 };

fn held(forward: bool, back: bool, left: bool, right: bool) -> InputSnapshot {
    InputSnapshot { forward, back, left, right, jump: false, crouch: false }
}

fn grounded_flat() -> PlayerData {
    let mut state = PlayerData::default();
    state.grounded = GroundedState::Grounded;
    state.ground_normal = Some(Vec3 { x: 0, y: 1_000, z: 0 });
    state
}

#[test]
fn grounded_forward_runs_at_grounded_speed() {
    let state = grounded_flat();
    let v = movement_velocity(
        &state,
        &Player::default(),
        &held(true, false, false, false),
        FORWARD,
        RIGHTWARD,
        AT_REST,
    );
    // flat ground: the rejection removes nothing from a horizontal velocity
    assert_eq!(v, Vec3 { x: 0, y: 0, z: 15_000 });
}

#[test]
fn diagonal_input_is_renormalized() {
    let state = grounded_flat();
    let v = movement_velocity(
        &state,
        &Player::default(),
        &held(true, false, false, true),
        FORWARD,
        RIGHTWARD,
        AT_REST,
    );
    // |(1,0,1)| ~ 1.414: each axis becomes 0.707, then times 15.0
    assert_eq!(v, Vec3 { x: 10_605, y: 0, z: 10_605 });
}

#[test]
fn opposite_keys_cancel() {
    let state = grounded_flat();
    let v = movement_velocity(
        &state,
        &Player::default(),
        &held(true, true, false, false),
        FORWARD,
        RIGHTWARD,
        AT_REST,
    );
    assert_eq!(v, AT_REST);
}

#[test]
fn grounded_movement_hugs_the_slope() {
    // a 45 degree slope rising toward -x; moving toward +x is deflected
    let mut state = grounded_flat();
    state.ground_normal = Some(Vec3 { x: 707, y: 707, z: 0 });
    let v = movement_velocity(
        &state,
        &Player::default(),
        &held(false, false, false, true),
        FORWARD,
        RIGHTWARD,
        AT_REST,
    );
    // desired (15.0, 0, 0); along the normal: 15.0 * 0.707 = 10.605;
    // rejection removes (0.707, 0.707, 0) * 10.605
    assert_eq!(v, Vec3 { x: 15_000 - 7_497, y: -7_497, z: 0 });
}

#[test]
fn no_input_brakes_against_current_velocity() {
    let state = grounded_flat();
    let moving = Vec3 { x: 5_000, y: -200, z: 0 };
    let v = movement_velocity(
        &state,
        &Player::default(),
        &held(false, false, false, false),
        FORWARD,
        RIGHTWARD,
        moving,
    );
    // friction: 10.0 against the unit horizontal velocity, ignoring the
    // vertical component
    assert_eq!(v, Vec3 { x: -10_000, y: 0, z: 0 });
}

#[test]
fn no_input_at_rest_applies_no_friction() {
    let state = grounded_flat();
    let v = movement_velocity(
        &state,
        &Player::default(),
        &held(false, false, false, false),
        FORWARD,
        RIGHTWARD,
        AT_REST,
    );
    assert_eq!(v, AT_REST);
}

#[test]
fn airborne_input_uses_airborne_speed_unprojected() {
    let mut state = PlayerData::default();
    state.grounded = GroundedState::Ungrounded(UngroundedReason::Airborne);
    let v = movement_velocity(
        &state,
        &Player::default(),
        &held(true, false, false, false),
        FORWARD,
        RIGHTWARD,
        AT_REST,
    );
    assert_eq!(v, Vec3 { x: 0, y: 0, z: 7_500 });
}

#[test]
fn airborne_without_input_coasts() {
    let mut state = PlayerData::default();
    state.grounded = GroundedState::Ungrounded(UngroundedReason::SteepSlope);
    let moving = Vec3 { x: 5_000, y: 0, z: 0 };
    let v = movement_velocity(
        &state,
        &Player::default(),
        &held(false, false, false, false),
        FORWARD,
        RIGHTWARD,
        moving,
    );
    // no friction term while not grounded
    assert_eq!(v, AT_REST);
}
