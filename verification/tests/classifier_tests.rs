use player_controller::classifier::classify;
use player_controller::components::{
    GroundSample, GroundedState, Player, PlayerData, UngroundedReason,
};
use player_controller::math::Vec3;

fn config() -> Player {
    Player::default()  // float_height 2.0, max_slope_degrees 45
}

fn sample(distance: i64, slope_degrees: i64) -> GroundSample {
    GroundSample {
        distance,
        normal: Vec3 { x: 0, y: 1_000, z: 0 },
        contact_point: Vec3 { x: 0, y: 0, z: 0 },
        slope_degrees,
        entity: Some(9),
    }
}

#[test]
fn gentle_slope_is_grounded() {
    let mut state = PlayerData::default();
    classify(&mut state, &config(), &Some(sample(1_500, 30_000)));
    assert_eq!(state.grounded, GroundedState::Grounded);
    assert_eq!(state.ground_distance, Some(1_500));
    assert_eq!(state.ground_height, Some(0));
    assert_eq!(state.ground_normal, Some(Vec3 { x: 0, y: 1_000, z: 0 }));
    assert_eq!(state.floor_entity, Some(9));
}

#[test]
fn boundary_angle_is_still_grounded() {
    // exactly max_slope_degrees plus the 0.1 degree slack: inclusive
    let mut state = PlayerData::default();
    classify(&mut state, &config(), &Some(sample(1_500, 45_100)));
    assert_eq!(state.grounded, GroundedState::Grounded);
}

#[test]
fn beyond_boundary_is_steep_slope() {
    let mut state = PlayerData::default();
    classify(&mut state, &config(), &Some(sample(1_500, 45_101)));
    assert_eq!(
        state.grounded,
        GroundedState::Ungrounded(UngroundedReason::SteepSlope)
    );
    // contact data is still stored for the slide
    assert_eq!(state.ground_distance, Some(1_500));
}

#[test]
fn eighty_degree_slope_is_steep() {
    let mut state = PlayerData::default();
    classify(&mut state, &config(), &Some(sample(1_500, 80_000)));
    assert_eq!(
        state.grounded,
        GroundedState::Ungrounded(UngroundedReason::SteepSlope)
    );
}

#[test]
fn missing_sample_is_airborne_and_clears_stale_state() {
    let mut state = PlayerData::default();
    // leave stale contact data from an earlier tick
    classify(&mut state, &config(), &Some(sample(1_500, 10_000)));
    assert_eq!(state.grounded, GroundedState::Grounded);
    classify(&mut state, &config(), &None);
    assert_eq!(
        state.grounded,
        GroundedState::Ungrounded(UngroundedReason::Airborne)
    );
    assert_eq!(state.ground_distance, None);
    assert_eq!(state.ground_height, None);
    assert_eq!(state.ground_normal, None);
    assert_eq!(state.floor_entity, None);
}

#[test]
fn distant_sample_is_airborne() {
    // beyond float_height (2.0) plus the 0.2 slack
    let mut state = PlayerData::default();
    classify(&mut state, &config(), &Some(sample(2_201, 0)));
    assert_eq!(
        state.grounded,
        GroundedState::Ungrounded(UngroundedReason::Airborne)
    );
    assert_eq!(state.ground_distance, None);
}

#[test]
fn sample_at_distance_slack_is_kept() {
    let mut state = PlayerData::default();
    classify(&mut state, &config(), &Some(sample(2_200, 0)));
    assert_eq!(state.grounded, GroundedState::Grounded);
}
