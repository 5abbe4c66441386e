use player_controller::components::{GroundedState, Player, PlayerData, UngroundedReason};
use player_controller::suspension::suspend;

fn config() -> Player {
    Player::default()  // float_height 2.0
}

fn grounded_state(ground_height: i64) -> PlayerData {
    let mut state = PlayerData::default();
    state.grounded = GroundedState::Grounded;
    state.ground_distance = Some(2_000);
    state.ground_height = Some(ground_height);
    state
}

#[test]
fn rest_is_a_fixed_point() {
    // distance equals float_height exactly, no obstruction: the target is
    // the current height, vertical velocity goes to zero and stays there
    let mut state = grounded_state(0);
    let first = suspend(&mut state, &config(), 2_000, 300, &None, 16);
    assert_eq!(first.body_height, 2_000);
    assert_eq!(first.vertical_velocity, 0);
    assert_eq!(first.gravity_scale, 0);
    assert!(!first.pushed_down);
    let again = suspend(&mut state, &config(), first.body_height, first.vertical_velocity, &None, 16);
    assert_eq!(again, first);
}

#[test]
fn low_body_rises_at_the_bounded_rate() {
    // 1.0 below target; the recovery rate is 10 units/s, so a 16 ms tick
    // climbs 0.16
    let mut state = grounded_state(0);
    let out = suspend(&mut state, &config(), 1_000, -4_000, &None, 16);
    assert_eq!(out.body_height, 1_160);
    assert_eq!(out.vertical_velocity, 0);
    assert_eq!(out.gravity_scale, 0);
}

#[test]
fn rise_stops_exactly_at_the_target() {
    let mut state = grounded_state(0);
    let out = suspend(&mut state, &config(), 1_990, 0, &None, 16);
    assert_eq!(out.body_height, 2_000);
}

#[test]
fn ceiling_clamps_the_float_height_and_pushes_down() {
    // an obstruction 1.0 above, closer than the 2.0 float height
    let mut state = grounded_state(0);
    let out = suspend(&mut state, &config(), 2_000, 0, &Some(1_000), 16);
    assert_eq!(out.body_height, 1_000);
    assert_eq!(out.vertical_velocity, 0);
    assert!(out.pushed_down);
    assert!(state.pushed_down);
}

#[test]
fn cleared_obstruction_recovers_gradually() {
    let mut state = grounded_state(0);
    suspend(&mut state, &config(), 2_000, 0, &Some(1_000), 16);
    // the ceiling is gone; rise toward 2.0 at 10 units/s, still pushed down
    let out = suspend(&mut state, &config(), 1_000, 0, &None, 16);
    assert_eq!(out.body_height, 1_160);
    assert!(out.pushed_down);
    // reaching the target exactly clears the flag
    let out = suspend(&mut state, &config(), 1_900, 0, &None, 16);
    assert_eq!(out.body_height, 2_000);
    assert!(!out.pushed_down);
}

#[test]
fn airborne_restores_gravity() {
    let mut state = PlayerData::default();
    state.grounded = GroundedState::Ungrounded(UngroundedReason::Airborne);
    state.pushed_down = true;
    let out = suspend(&mut state, &config(), 5_000, -3_000, &None, 16);
    assert_eq!(out.gravity_scale, 1_000);
    assert_eq!(out.body_height, 5_000);
    assert_eq!(out.vertical_velocity, -3_000);
    assert!(!out.pushed_down);
    assert!(!state.pushed_down);
}

#[test]
fn missing_ground_height_is_treated_as_airborne() {
    // stale grounded flag but no height this tick: degrade to airborne
    let mut state = PlayerData::default();
    state.grounded = GroundedState::Grounded;
    state.ground_height = None;
    let out = suspend(&mut state, &config(), 2_000, 100, &None, 16);
    assert_eq!(out.gravity_scale, 1_000);
    assert_eq!(out.vertical_velocity, 100);
}
