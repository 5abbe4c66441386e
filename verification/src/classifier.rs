//! The grounding classifier: converts one tick's ground sample into the
//! discrete grounding state, the single source of truth every downstream
//! component reads. It must run exactly once per tick, before any of them.

use crate::components::{
    GroundSample, GroundedState, Player, PlayerData, UngroundedReason, EPSILON_ANGLE,
    EPSILON_DISTANCE,
};
use vstd::prelude::*;

verus! {

/// The grounding state for a sample under a tuning: airborne when there is
/// no sample or it lies beyond `float_height` plus the distance slack;
/// otherwise grounded exactly when the slope angle is within
/// `max_slope_degrees` plus the angle slack (inclusive), and a steep slope
/// beyond it.
pub open spec fn spec_classify(sample: Option<GroundSample>, config: Player) -> GroundedState {
    match sample {
        None => GroundedState::Ungrounded(UngroundedReason::Airborne),
        Some(s) => {
            if s.distance > config.float_height + EPSILON_DISTANCE {
                GroundedState::Ungrounded(UngroundedReason::Airborne)
            } else if s.slope_degrees <= config.max_slope_degrees + EPSILON_ANGLE {
                GroundedState::Grounded
            } else {
                GroundedState::Ungrounded(UngroundedReason::SteepSlope)
            }
        },
    }
}

/// Classifies this tick's sample and stores the result. On an airborne
/// verdict the contact data is cleared to `None` whatever the prior tick
/// left behind; otherwise distance, contact height, normal and contact
/// entity are stored from the sample. Nothing else of the state changes.
pub fn classify(state: &mut PlayerData, config: &Player, sample: &Option<GroundSample>)
    requires
        old(state).wf(),
        config.wf(),
        (*sample) matches Some(s) ==> s.wf(),
    ensures
        final(state).grounded == spec_classify(*sample, *config),
        final(state).grounded == GroundedState::Ungrounded(UngroundedReason::Airborne) ==> {
            &&& final(state).ground_distance is None
            &&& final(state).ground_height is None
            &&& final(state).ground_normal is None
            &&& final(state).floor_entity is None
        },
        final(state).grounded != GroundedState::Ungrounded(UngroundedReason::Airborne) ==> {
            let s = sample->Some_0;
            &&& final(state).ground_distance == Some(s.distance)
            &&& final(state).ground_height == Some(s.contact_point.y)
            &&& final(state).ground_normal == Some(s.normal)
            &&& final(state).floor_entity == s.entity
        },
        *final(state) == (PlayerData {
            grounded: final(state).grounded,
            ground_distance: final(state).ground_distance,
            ground_height: final(state).ground_height,
            ground_normal: final(state).ground_normal,
            floor_entity: final(state).floor_entity,
            ..*old(state)
        }),
        final(state).wf(),
{
    match sample {
        None => {
            state.grounded = GroundedState::Ungrounded(UngroundedReason::Airborne);
            state.ground_distance = None;
            state.ground_height = None;
            state.ground_normal = None;
            state.floor_entity = None;
        },
        Some(s) => {
            if s.distance > config.float_height + EPSILON_DISTANCE {
                state.grounded = GroundedState::Ungrounded(UngroundedReason::Airborne);
                state.ground_distance = None;
                state.ground_height = None;
                state.ground_normal = None;
                state.floor_entity = None;
            } else {
                if s.slope_degrees <= config.max_slope_degrees + EPSILON_ANGLE {
                    state.grounded = GroundedState::Grounded;
                } else {
                    state.grounded = GroundedState::Ungrounded(UngroundedReason::SteepSlope);
                }
                state.ground_distance = Some(s.distance);
                state.ground_height = Some(s.contact_point.y);
                state.ground_normal = Some(s.normal);
                state.floor_entity = s.entity;
            }
        },
    }
}

/// The slope law, for samples the distance rule keeps: a slope angle
/// within `max_slope_degrees` is classified grounded; an angle beyond
/// `max_slope_degrees` plus the angle slack is classified a steep slope;
/// and the boundary, exactly `max_slope_degrees` plus the slack, is still
/// grounded (the threshold is inclusive).
pub proof fn lemma_classifier_slope(sample: GroundSample, config: Player)
    requires
        sample.wf(),
        config.wf(),
        sample.distance <= config.float_height + EPSILON_DISTANCE,
    ensures
        sample.slope_degrees <= config.max_slope_degrees ==> spec_classify(Some(sample), config)
            == GroundedState::Grounded,
        sample.slope_degrees == config.max_slope_degrees + EPSILON_ANGLE ==> spec_classify(
            Some(sample),
            config,
        ) == GroundedState::Grounded,
        sample.slope_degrees > config.max_slope_degrees + EPSILON_ANGLE ==> spec_classify(
            Some(sample),
            config,
        ) == GroundedState::Ungrounded(UngroundedReason::SteepSlope),
{
}

/// The missing-sample law: with no ground sample the verdict is airborne,
/// whatever any prior tick's state was — `classify` then also clears every
/// stored contact field, so no stale state leaks through.
pub proof fn lemma_classifier_airborne(config: Player)
    ensures
        spec_classify(None, config) == GroundedState::Ungrounded(UngroundedReason::Airborne),
{
}

} // verus!
