//! The slope slide: a down-slope force applied while the classifier
//! reports a steep slope, and in no other state.
//!
//! The force is the body's weight rejected onto the plane perpendicular to
//! the ground normal — the component of gravity tangential to the slope —
//! then flattened to the horizontal plane by zeroing its vertical
//! component, so the player slides along the slope's horizontal projection
//! rather than straight down its face.

use crate::components::{GroundedState, PlayerData, UngroundedReason};
use crate::math::{fp, lemma_fp_mul_bound, spec_dot, spec_smul, Vec3, SCALE};
use vstd::prelude::*;

verus! {

/// Magnitude bound on the body mass handed in: one thousand mass units.
pub const MASS_LIMIT: i64 = 1_000_000;

/// Magnitude bound on each component of the gravity vector handed in: one
/// thousand units per second squared.
pub const GRAVITY_LIMIT: i64 = 1_000_000;

/// What `slide_force` returns: zero unless the state is a steep slope with
/// a stored normal; otherwise the weight's rejection from the normal, with
/// the vertical component zeroed.
pub open spec fn spec_slide_force(
    grounded: GroundedState,
    ground_normal: Option<Vec3>,
    mass: i64,
    gravity: Vec3,
) -> Vec3 {
    if grounded == GroundedState::Ungrounded(UngroundedReason::SteepSlope)
        && ground_normal is Some {
        let n = ground_normal->Some_0;
        let weight = spec_smul(gravity, mass);
        let along = spec_dot(weight, n);
        Vec3 {
            x: (weight.x - fp(n.x as int, along)) as i64,
            y: 0,
            z: (weight.z - fp(n.z as int, along)) as i64,
        }
    } else {
        Vec3 { x: 0, y: 0, z: 0 }
    }
}

/// One tick of the slope slide. Reads the classifier's verdict and the
/// stored normal and returns the external force to apply to the body;
/// zero in every state but a steep slope. The returned force always has a
/// zero vertical component.
pub fn slide_force(state: &PlayerData, mass: i64, gravity: Vec3) -> (r: Vec3)
    requires
        state.wf(),
        -MASS_LIMIT <= mass <= MASS_LIMIT,
        gravity.bounded(GRAVITY_LIMIT as int),
    ensures
        r == spec_slide_force(state.grounded, state.ground_normal, mass, gravity),
        r.y == 0 || r == (Vec3 { x: 0, y: 0, z: 0 }),
        state.grounded != GroundedState::Ungrounded(UngroundedReason::SteepSlope) ==> r == (Vec3 {
            x: 0,
            y: 0,
            z: 0,
        }),
{
    let steep = matches!(state.grounded, GroundedState::Ungrounded(UngroundedReason::SteepSlope));
    match (steep, &state.ground_normal) {
        (true, Some(n)) => {
            proof {
                lemma_fp_mul_bound(
                    gravity.x as int,
                    mass as int,
                    GRAVITY_LIMIT as int,
                    MASS_LIMIT as int,
                );
                lemma_fp_mul_bound(
                    gravity.y as int,
                    mass as int,
                    GRAVITY_LIMIT as int,
                    MASS_LIMIT as int,
                );
                lemma_fp_mul_bound(
                    gravity.z as int,
                    mass as int,
                    GRAVITY_LIMIT as int,
                    MASS_LIMIT as int,
                );
            }
            let weight = gravity.smul(mass);
            proof {
                lemma_fp_mul_bound(weight.x as int, n.x as int, 1_000_000_000, SCALE as int);
                lemma_fp_mul_bound(weight.y as int, n.y as int, 1_000_000_000, SCALE as int);
                lemma_fp_mul_bound(weight.z as int, n.z as int, 1_000_000_000, SCALE as int);
            }
            let along = weight.dot(*n);
            proof {
                lemma_fp_mul_bound(n.x as int, along as int, SCALE as int, 3_000_000_000);
                lemma_fp_mul_bound(n.z as int, along as int, SCALE as int, 3_000_000_000);
            }
            let pulled = n.smul(along);
            Vec3 { x: weight.x - pulled.x, y: 0, z: weight.z - pulled.z }
        },
        _ => Vec3 { x: 0, y: 0, z: 0 },
    }
}

/// The flattening law: whatever the state, normal, mass and gravity, the
/// slide force never has a vertical component.
pub proof fn lemma_slide_force_horizontal(
    grounded: GroundedState,
    ground_normal: Option<Vec3>,
    mass: i64,
    gravity: Vec3,
)
    ensures
        spec_slide_force(grounded, ground_normal, mass, gravity).y == 0,
{
}

} // verus!
