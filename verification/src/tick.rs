//! One full simulation tick, in the dependency order the components
//! require: crouch (fixes the tick's geometry), ground sensor, grounding
//! classifier, then — all reading the same verdict — suspension, slope
//! slide, movement and jump, and finally the platform rider folding in the
//! carried velocity.
//!
//! The tick is pure bookkeeping over plain values: the caller collects the
//! probe results, the supporting body's motion and the input snapshot
//! beforehand, and applies the returned outcome to the body afterwards —
//! a two-phase read/write that keeps the controller free of engine state.

use crate::classifier::{classify, spec_classify};
use crate::components::{
    GroundSample, GroundedState, InputSnapshot, Player, PlayerData, ProbeHit, UngroundedReason,
};
use crate::crouch::apply_crouch;
use crate::jump::{jump_tick, spec_jump_accepted, JumpTimer};
use crate::math::{clamp_magnitude, spec_clamp, Vec3, COORD_LIMIT, SCALE};
use crate::movement::{movement_velocity, spec_movement_velocity};
use crate::platform::{
    compose_velocity, ride_platform, spec_compose, spec_point_velocity, PlatformMotion,
};
use crate::sensor::{sense, spec_sense};
use crate::slope::{slide_force, spec_slide_force, GRAVITY_LIMIT, MASS_LIMIT};
use crate::suspension::{spec_suspend, suspend};
use vstd::prelude::*;

verus! {

/// Everything the engine hands the controller for one tick, collected
/// before any mutation: the two downward probes and the upward obstruction
/// sweep (all cast with the player's own body and children excluded), the
/// supporting body's motion (if its contact entity exposes any), the input
/// snapshot, and the body's current transform and motion.
#[derive(Clone, Copy, Debug, PartialEq)]
pub struct TickInputs {
    pub ray: Option<ProbeHit>,
    pub sweep: Option<ProbeHit>,
    pub obstruction: Option<i64>,
    pub platform: Option<PlatformMotion>,
    pub input: InputSnapshot,
    pub body_position: Vec3,
    pub velocity: Vec3,
    pub forward: Vec3,
    pub rightward: Vec3,
    pub mass: i64,
    pub gravity: Vec3,
    pub dt: i64,
}

impl TickInputs {
    /// The machine limits the fixed-point arithmetic needs of a tick's
    /// inputs.
    pub open spec fn wf(self) -> bool {
        &&& self.ray matches Some(h) ==> h.wf()
        &&& self.sweep matches Some(h) ==> h.wf()
        &&& self.obstruction matches Some(d) ==> 0 <= d <= COORD_LIMIT
        &&& self.platform matches Some(m) ==> m.wf()
        &&& self.body_position.bounded(COORD_LIMIT as int)
        &&& self.velocity.bounded(COORD_LIMIT as int)
        &&& self.forward.bounded(SCALE as int)
        &&& self.rightward.bounded(SCALE as int)
        &&& -MASS_LIMIT <= self.mass <= MASS_LIMIT
        &&& self.gravity.bounded(GRAVITY_LIMIT as int)
        &&& 0 <= self.dt <= COORD_LIMIT
    }
}

/// Everything the controller asks the engine to apply after one tick: the
/// velocity to set (vertical component from the suspension and jump,
/// horizontal from movement and the platform rider), the corrected
/// vertical position — the one write that bypasses normal integration —
/// the gravity scale, the slide force to apply externally, the angular
/// velocity inherited from the supporting body, and the collider and
/// sensor heights for the tick.
#[derive(Clone, Copy, Debug, PartialEq)]
pub struct TickOutcome {
    pub velocity: Vec3,
    pub body_height: i64,
    pub gravity_scale: i64,
    pub slide_force: Vec3,
    pub jump_impulse: Option<i64>,
    pub angular_velocity: Vec3,
    pub collider_height: i64,
    pub sensor_height: i64,
}

/// Runs one player's full tick and returns what to apply to the body.
pub fn player_tick(state: &mut PlayerData, config: &Player, inputs: &TickInputs) -> (outcome:
    TickOutcome)
    requires
        old(state).wf(),
        config.wf(),
        inputs.wf(),
    ensures
        ({
            let collider_height = if inputs.input.crouch {
                config.crouch_height
            } else {
                config.stand_height
            };
            let sample = spec_sense(
                inputs.ray,
                inputs.sweep,
                *config,
                collider_height,
                inputs.body_position,
            );
            let grounded = spec_classify(sample, *config);
            let susp = spec_suspend(
                grounded,
                final(state).ground_height,
                old(state).pushed_down,
                *config,
                inputs.body_position.y,
                inputs.velocity.y,
                inputs.obstruction,
                inputs.dt,
            );
            let relative = Vec3 {
                x: spec_clamp(
                    inputs.velocity.x - old(state).carried_velocity.x,
                    COORD_LIMIT as int,
                ) as i64,
                y: spec_clamp(
                    inputs.velocity.y - old(state).carried_velocity.y,
                    COORD_LIMIT as int,
                ) as i64,
                z: spec_clamp(
                    inputs.velocity.z - old(state).carried_velocity.z,
                    COORD_LIMIT as int,
                ) as i64,
            };
            let movement = spec_movement_velocity(
                inputs.input,
                inputs.forward,
                inputs.rightward,
                grounded,
                final(state).ground_normal,
                relative,
                *config,
            );
            let accepted = spec_jump_accepted(
                grounded,
                old(state).jump_cooldown,
                inputs.input.jump,
                inputs.dt,
            );
            let carried = match (inputs.platform, sample) {
                (Some(m), Some(s)) => spec_point_velocity(m, s.contact_point),
                _ => (Vec3 { x: 0, y: 0, z: 0 }),
            };
            let composed = spec_compose(
                carried,
                old(state).last_unsimulated_velocity,
                movement,
                inputs.velocity,
                inputs.dt,
            );
            let vertical = susp.vertical_velocity + if accepted {
                config.jump_height as int
            } else {
                0int
            };
            // the classifier's verdict and stored contact data
            &&& final(state).grounded == grounded
            &&& grounded == GroundedState::Ungrounded(UngroundedReason::Airborne) ==> {
                &&& final(state).ground_distance is None
                &&& final(state).ground_height is None
                &&& final(state).ground_normal is None
                &&& final(state).floor_entity is None
            }
            &&& grounded != GroundedState::Ungrounded(UngroundedReason::Airborne) ==> {
                let s = sample->Some_0;
                &&& final(state).ground_distance == Some(s.distance)
                &&& final(state).ground_height == Some(s.contact_point.y)
                &&& final(state).ground_normal == Some(s.normal)
                &&& final(state).floor_entity == s.entity
            }
            // crouch: both heights swapped together
            &&& final(state).crouching == inputs.input.crouch
            &&& outcome.collider_height == collider_height
            &&& outcome.sensor_height == collider_height
            // suspension
            &&& outcome.body_height == susp.body_height
            &&& outcome.gravity_scale == susp.gravity_scale
            &&& final(state).pushed_down == susp.pushed_down
            // slope slide
            &&& outcome.slide_force == spec_slide_force(
                grounded,
                final(state).ground_normal,
                inputs.mass,
                inputs.gravity,
            )
            // jump
            &&& outcome.jump_impulse == if accepted {
                Some(config.jump_height)
            } else {
                None::<i64>
            }
            &&& final(state).jump_cooldown == if accepted {
                (JumpTimer { elapsed: 0, duration: old(state).jump_cooldown.duration })
            } else {
                old(state).jump_cooldown.spec_tick(inputs.dt)
            }
            // platform rider
            &&& final(state).carried_velocity == carried
            &&& final(state).last_floor_transform == (match (inputs.platform, sample) {
                (Some(m), Some(s)) => Some(m.origin),
                _ => None::<Vec3>,
            })
            &&& final(state).last_unsimulated_velocity == (Vec3 {
                x: (carried.x + movement.x) as i64,
                y: (carried.y + movement.y) as i64,
                z: (carried.z + movement.z) as i64,
            })
            // the applied velocity: suspension and jump vertically,
            // movement and rider horizontally
            &&& outcome.velocity == (Vec3 {
                x: composed.x,
                y: vertical as i64,
                z: composed.z,
            })
            &&& outcome.angular_velocity == (match inputs.platform {
                Some(m) => m.angular_velocity,
                None => (Vec3 { x: 0, y: 0, z: 0 }),
            })
            &&& final(state).wf()
        }),
{
    let crouch = apply_crouch(state, config, inputs.input.crouch);
    let sample = sense(
        &inputs.ray,
        &inputs.sweep,
        config,
        crouch.sensor_height,
        inputs.body_position,
    );
    classify(state, config, &sample);
    let susp = suspend(
        state,
        config,
        inputs.body_position.y,
        inputs.velocity.y,
        &inputs.obstruction,
        inputs.dt,
    );
    let slide = slide_force(state, inputs.mass, inputs.gravity);
    // the movement integrator observes the body's velocity relative to the
    // carried platform frame, so friction brakes toward riding the
    // platform, not toward absolute rest
    let relative = Vec3 {
        x: clamp_magnitude(inputs.velocity.x - state.carried_velocity.x, COORD_LIMIT),
        y: clamp_magnitude(inputs.velocity.y - state.carried_velocity.y, COORD_LIMIT),
        z: clamp_magnitude(inputs.velocity.z - state.carried_velocity.z, COORD_LIMIT),
    };
    let movement = movement_velocity(
        state,
        config,
        &inputs.input,
        inputs.forward,
        inputs.rightward,
        relative,
    );
    let impulse = jump_tick(state, config, inputs.input.jump, inputs.dt);
    let contact_point = match &sample {
        Some(s) => Some(s.contact_point),
        None => None,
    };
    ride_platform(state, &inputs.platform, &contact_point);
    let composed = compose_velocity(state, movement, inputs.velocity, inputs.dt);
    let vertical = match impulse {
        Some(j) => susp.vertical_velocity + j,
        None => susp.vertical_velocity,
    };
    let angular = match &inputs.platform {
        Some(m) => m.angular_velocity,
        None => Vec3::zero(),
    };
    TickOutcome {
        velocity: Vec3 { x: composed.x, y: vertical, z: composed.z },
        body_height: susp.body_height,
        gravity_scale: susp.gravity_scale,
        slide_force: slide,
        jump_impulse: impulse,
        angular_velocity: angular,
        collider_height: crouch.collider_height,
        sensor_height: crouch.sensor_height,
    }
}

} // verus!
