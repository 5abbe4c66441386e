//! The movement integrator: converts held-direction input, resolved
//! against the body's forward/right basis, into the desired horizontal
//! velocity for this tick.
//!
//! Grounded movement hugs slopes: the desired velocity is rejected onto
//! the ground plane by removing its component along the ground normal,
//! and with no input held a friction term decelerates the body toward
//! rest instead of stopping it instantaneously. Airborne control is
//! weaker and unconstrained by ground geometry: the airborne speed, no
//! friction, no projection. The caller applies the result as an external
//! force so it composes with the underlying rigid-body integrator.

use crate::components::{GroundedState, InputSnapshot, Player, PlayerData};
use crate::math::{
    fp, lemma_fp_mul_bound, spec_dot, spec_normalize, spec_smul, Vec3, COORD_LIMIT, SCALE,
};
use vstd::prelude::*;

verus! {

/// The net contribution of one key pair along one axis: the component
/// itself when only the positive key is held, its negation when only the
/// negative key is held, nothing when both or neither.
pub open spec fn spec_axis(pos: bool, neg: bool, component: i64) -> int {
    (if pos {
        component as int
    } else {
        0int
    }) + (if neg {
        -(component as int)
    } else {
        0int
    })
}

/// The raw input direction: the sum of the held directions' basis
/// vectors, opposite keys cancelling.
pub open spec fn spec_input_direction(
    input: InputSnapshot,
    forward: Vec3,
    rightward: Vec3,
) -> Vec3 {
    Vec3 {
        x: (spec_axis(input.forward, input.back, forward.x) + spec_axis(
            input.right,
            input.left,
            rightward.x,
        )) as i64,
        y: (spec_axis(input.forward, input.back, forward.y) + spec_axis(
            input.right,
            input.left,
            rightward.y,
        )) as i64,
        z: (spec_axis(input.forward, input.back, forward.z) + spec_axis(
            input.right,
            input.left,
            rightward.z,
        )) as i64,
    }
}

/// What `movement_velocity` returns. Grounded with input: the unit input
/// direction at `grounded_speed`, rejected onto the ground plane. Grounded
/// without input: friction, opposite the horizontal velocity at
/// `ground_friction` (zero when already at rest). Not grounded: the unit
/// input direction at `airborne_speed`, unprojected.
pub open spec fn spec_movement_velocity(
    input: InputSnapshot,
    forward: Vec3,
    rightward: Vec3,
    grounded: GroundedState,
    ground_normal: Option<Vec3>,
    current_velocity: Vec3,
    config: Player,
) -> Vec3 {
    let raw = spec_input_direction(input, forward, rightward);
    let dir = spec_normalize(raw);
    if grounded == GroundedState::Grounded {
        if raw == (Vec3 { x: 0, y: 0, z: 0 }) {
            let horiz = Vec3 { x: current_velocity.x, y: 0, z: current_velocity.z };
            if horiz == (Vec3 { x: 0, y: 0, z: 0 }) {
                horiz
            } else {
                let brake = spec_normalize(horiz);
                spec_smul(
                    Vec3 { x: -brake.x as i64, y: -brake.y as i64, z: -brake.z as i64 },
                    config.ground_friction,
                )
            }
        } else {
            let desired = spec_smul(dir, config.grounded_speed);
            match ground_normal {
                Some(n) => {
                    let along = spec_dot(desired, n);
                    Vec3 {
                        x: (desired.x - fp(n.x as int, along)) as i64,
                        y: (desired.y - fp(n.y as int, along)) as i64,
                        z: (desired.z - fp(n.z as int, along)) as i64,
                    }
                },
                None => desired,
            }
        }
    } else {
        spec_smul(dir, config.airborne_speed)
    }
}

/// One tick of the movement integrator. `forward` and `rightward` are the
/// body's current basis vectors (camera- or body-relative), unit length in
/// fixed point; the result is the desired velocity to apply as an external
/// force.
pub fn movement_velocity(
    state: &PlayerData,
    config: &Player,
    input: &InputSnapshot,
    forward: Vec3,
    rightward: Vec3,
    current_velocity: Vec3,
) -> (r: Vec3)
    requires
        state.wf(),
        config.wf(),
        forward.bounded(SCALE as int),
        rightward.bounded(SCALE as int),
        current_velocity.bounded(COORD_LIMIT as int),
    ensures
        r == spec_movement_velocity(
            *input,
            forward,
            rightward,
            state.grounded,
            state.ground_normal,
            current_velocity,
            *config,
        ),
        r.bounded(4 * COORD_LIMIT as int),
{
    let mut raw = Vec3::zero();
    if input.forward {
        raw = raw.add(forward);
    }
    if input.back {
        raw = raw.sub(forward);
    }
    if input.right {
        raw = raw.add(rightward);
    }
    if input.left {
        raw = raw.sub(rightward);
    }
    proof {
        assert(raw == spec_input_direction(*input, forward, rightward));
    }
    let grounded = matches!(state.grounded, GroundedState::Grounded);
    if grounded {
        if raw.x == 0 && raw.y == 0 && raw.z == 0 {
            let horiz = Vec3 { x: current_velocity.x, y: 0, z: current_velocity.z };
            if horiz.x == 0 && horiz.z == 0 {
                horiz
            } else {
                let brake = horiz.normalize_or_zero();
                let reversed = Vec3 { x: -brake.x, y: -brake.y, z: -brake.z };
                proof {
                    lemma_fp_mul_bound(
                        reversed.x as int,
                        config.ground_friction as int,
                        SCALE as int,
                        COORD_LIMIT as int,
                    );
                    lemma_fp_mul_bound(
                        reversed.y as int,
                        config.ground_friction as int,
                        SCALE as int,
                        COORD_LIMIT as int,
                    );
                    lemma_fp_mul_bound(
                        reversed.z as int,
                        config.ground_friction as int,
                        SCALE as int,
                        COORD_LIMIT as int,
                    );
                }
                reversed.smul(config.ground_friction)
            }
        } else {
            let dir = raw.normalize_or_zero();
            proof {
                lemma_fp_mul_bound(
                    dir.x as int,
                    config.grounded_speed as int,
                    SCALE as int,
                    COORD_LIMIT as int,
                );
                lemma_fp_mul_bound(
                    dir.y as int,
                    config.grounded_speed as int,
                    SCALE as int,
                    COORD_LIMIT as int,
                );
                lemma_fp_mul_bound(
                    dir.z as int,
                    config.grounded_speed as int,
                    SCALE as int,
                    COORD_LIMIT as int,
                );
            }
            let desired = dir.smul(config.grounded_speed);
            match &state.ground_normal {
                Some(n) => {
                    proof {
                        lemma_fp_mul_bound(
                            desired.x as int,
                            n.x as int,
                            COORD_LIMIT as int,
                            SCALE as int,
                        );
                        lemma_fp_mul_bound(
                            desired.y as int,
                            n.y as int,
                            COORD_LIMIT as int,
                            SCALE as int,
                        );
                        lemma_fp_mul_bound(
                            desired.z as int,
                            n.z as int,
                            COORD_LIMIT as int,
                            SCALE as int,
                        );
                    }
                    let along = desired.dot(*n);
                    proof {
                        lemma_fp_mul_bound(n.x as int, along as int, SCALE as int, 3_000_000_000);
                        lemma_fp_mul_bound(n.y as int, along as int, SCALE as int, 3_000_000_000);
                        lemma_fp_mul_bound(n.z as int, along as int, SCALE as int, 3_000_000_000);
                    }
                    let pulled = n.smul(along);
                    Vec3 {
                        x: desired.x - pulled.x,
                        y: desired.y - pulled.y,
                        z: desired.z - pulled.z,
                    }
                },
                None => desired,
            }
        }
    } else {
        let dir = raw.normalize_or_zero();
        proof {
            lemma_fp_mul_bound(
                dir.x as int,
                config.airborne_speed as int,
                SCALE as int,
                COORD_LIMIT as int,
            );
            lemma_fp_mul_bound(
                dir.y as int,
                config.airborne_speed as int,
                SCALE as int,
                COORD_LIMIT as int,
            );
            lemma_fp_mul_bound(
                dir.z as int,
                config.airborne_speed as int,
                SCALE as int,
                COORD_LIMIT as int,
            );
        }
        dir.smul(config.airborne_speed)
    }
}

} // verus!
