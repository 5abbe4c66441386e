//! The crouch controller: swaps the main collider and the suspension
//! sensor's sweep shape between the stand and crouch heights, always both
//! in the same tick, so no tick ever sees the visible collider and the
//! sensor disagree.

use crate::components::{Player, PlayerData};
use vstd::prelude::*;

verus! {

/// The geometry to use for the rest of the tick: the heights of the main
/// collider and of the sensor's sweep shape, swapped together.
#[derive(Clone, Copy, Debug, PartialEq, Eq, Structural)]
pub struct CrouchOutcome {
    pub collider_height: i64,
    pub sensor_height: i64,
}

/// One tick of the crouch controller: while the crouch key is held the
/// crouch-height variant is in use, otherwise the stand-height variant.
/// Both shapes are swapped atomically — the outcome's two heights are
/// always equal. Nothing else of the state changes.
pub fn apply_crouch(state: &mut PlayerData, config: &Player, crouch_held: bool) -> (r:
    CrouchOutcome)
    requires
        old(state).wf(),
        config.wf(),
    ensures
        final(state).crouching == crouch_held,
        r.collider_height == if crouch_held {
            config.crouch_height
        } else {
            config.stand_height
        },
        r.sensor_height == r.collider_height,
        *final(state) == (PlayerData { crouching: crouch_held, ..*old(state) }),
        final(state).wf(),
{
    state.crouching = crouch_held;
    let height = if crouch_held {
        config.crouch_height
    } else {
        config.stand_height
    };
    CrouchOutcome { collider_height: height, sensor_height: height }
}

} // verus!
