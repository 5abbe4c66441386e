//! The suspension controller: holds the body at its target ride height
//! above the ground by kinematic correction of the one vertical degree of
//! freedom.
//!
//! While grounded the controller moves the body toward
//! `ground_height + float_height`, zeroing vertical velocity and disabling
//! gravity; the returned height deliberately bypasses normal physics
//! integration for that axis and must be written to the body as a position.
//! An overhead obstruction clamps the achievable float height and sets
//! `pushed_down`; once it clears, the body is interpolated back up at a
//! bounded rate rather than snapped, and `pushed_down` clears when the
//! target is reached exactly. Whenever sensing is inconclusive the
//! controller degrades to airborne: gravity back at full scale, nothing
//! corrected.

use crate::components::{GroundedState, Player, PlayerData};
use crate::math::{fp, fp_mul, COORD_LIMIT, SCALE};
use vstd::prelude::*;

verus! {

/// How fast the body recovers toward its target height after an overhead
/// obstruction clears, in thousandths of a unit per second: interpolation,
/// not snapping, to avoid visible popping.
pub const RISE_RATE: i64 = 10_000;

/// What the suspension asks the body integrator to do for one tick: the
/// corrected vertical position, the vertical velocity to impose, the
/// gravity scale to set (`SCALE` is full gravity, `0` disabled), and the
/// obstruction flag to carry forward.
#[derive(Clone, Copy, Debug, PartialEq, Eq, Structural)]
pub struct SuspensionOutcome {
    pub body_height: i64,
    pub vertical_velocity: i64,
    pub gravity_scale: i64,
    pub pushed_down: bool,
}

/// What `suspend` returns.
///
/// With no ground height this tick, or a verdict other than grounded, the
/// body is treated as airborne regardless of stale state: full gravity,
/// nothing corrected, `pushed_down` cleared. While grounded the target is
/// `ground_height + float_height`; an obstruction closer than the float
/// height clamps the reachable height below it. A body above the reachable
/// height under an active obstruction is pushed straight down to it; one
/// below rises toward it at `RISE_RATE`; at the reachable height it rests,
/// vertical velocity zero and gravity off. A grounded body above its
/// unobstructed target is left to gravity. `pushed_down` holds exactly
/// while an obstruction clamps, or until a formerly pushed body reaches
/// the full target exactly.
pub open spec fn spec_suspend(
    grounded: GroundedState,
    ground_height: Option<i64>,
    pushed_down: bool,
    config: Player,
    body_height: i64,
    vertical_velocity: i64,
    obstruction: Option<i64>,
    dt: i64,
) -> SuspensionOutcome {
    if ground_height is None || grounded != GroundedState::Grounded {
        SuspensionOutcome {
            body_height,
            vertical_velocity,
            gravity_scale: SCALE,
            pushed_down: false,
        }
    } else {
        let h = ground_height->Some_0;
        let target = h + config.float_height;
        let reach = match obstruction {
            Some(d) => if d < config.float_height {
                h + d
            } else {
                target
            },
            None => target,
        };
        if body_height > reach {
            if reach < target {
                SuspensionOutcome {
                    body_height: reach as i64,
                    vertical_velocity: 0,
                    gravity_scale: 0,
                    pushed_down: true,
                }
            } else {
                SuspensionOutcome {
                    body_height,
                    vertical_velocity,
                    gravity_scale: SCALE,
                    pushed_down: false,
                }
            }
        } else if body_height < reach {
            let step = fp(RISE_RATE as int, dt as int);
            let risen = if body_height + step < reach {
                body_height + step
            } else {
                reach
            };
            SuspensionOutcome {
                body_height: risen as i64,
                vertical_velocity: 0,
                gravity_scale: 0,
                pushed_down: reach < target || (pushed_down && risen < target),
            }
        } else {
            SuspensionOutcome {
                body_height,
                vertical_velocity: 0,
                gravity_scale: 0,
                pushed_down: reach < target,
            }
        }
    }
}

/// One tick of the suspension controller. Reads the classifier's verdict
/// and the stored ground height, updates the `pushed_down` flag in place,
/// and returns the correction to apply; nothing else of the state changes.
/// `obstruction` is the distance reported by the upward obstruction sweep,
/// if it hit a ceiling.
pub fn suspend(
    state: &mut PlayerData,
    config: &Player,
    body_height: i64,
    vertical_velocity: i64,
    obstruction: &Option<i64>,
    dt: i64,
) -> (outcome: SuspensionOutcome)
    requires
        old(state).wf(),
        config.wf(),
        -COORD_LIMIT <= body_height <= COORD_LIMIT,
        -COORD_LIMIT <= vertical_velocity <= COORD_LIMIT,
        (*obstruction) matches Some(d) ==> 0 <= d <= COORD_LIMIT,
        0 <= dt <= COORD_LIMIT,
    ensures
        outcome == spec_suspend(
            old(state).grounded,
            old(state).ground_height,
            old(state).pushed_down,
            *config,
            body_height,
            vertical_velocity,
            *obstruction,
            dt,
        ),
        *final(state) == (PlayerData { pushed_down: outcome.pushed_down, ..*old(state) }),
        final(state).wf(),
{
    let airborne = match (state.ground_height, &state.grounded) {
        (None, _) => true,
        (Some(_), GroundedState::Grounded) => false,
        (Some(_), _) => true,
    };
    if airborne {
        state.pushed_down = false;
        SuspensionOutcome {
            body_height,
            vertical_velocity,
            gravity_scale: SCALE,
            pushed_down: false,
        }
    } else {
        let h = match state.ground_height {
            Some(h) => h,
            None => 0,  // unreachable: the airborne case above caught `None`
        };
        let target = h + config.float_height;
        let reach = match obstruction {
            Some(d) => if *d < config.float_height {
                h + *d
            } else {
                target
            },
            None => target,
        };
        if body_height > reach {
            if reach < target {
                state.pushed_down = true;
                SuspensionOutcome {
                    body_height: reach,
                    vertical_velocity: 0,
                    gravity_scale: 0,
                    pushed_down: true,
                }
            } else {
                state.pushed_down = false;
                SuspensionOutcome {
                    body_height,
                    vertical_velocity,
                    gravity_scale: SCALE,
                    pushed_down: false,
                }
            }
        } else if body_height < reach {
            let step = fp_mul(RISE_RATE, dt);
            let risen = if body_height + step < reach {
                body_height + step
            } else {
                reach
            };
            let still_pushed = reach < target || (state.pushed_down && risen < target);
            state.pushed_down = still_pushed;
            SuspensionOutcome {
                body_height: risen,
                vertical_velocity: 0,
                gravity_scale: 0,
                pushed_down: still_pushed,
            }
        } else {
            let still_pushed = reach < target;
            state.pushed_down = still_pushed;
            SuspensionOutcome {
                body_height,
                vertical_velocity: 0,
                gravity_scale: 0,
                pushed_down: still_pushed,
            }
        }
    }
}

/// The rest law: a grounded body floating exactly at
/// `ground_height + float_height` with no obstruction is a fixed point of
/// the suspension — the height is kept, vertical velocity is driven to
/// zero, gravity stays off and `pushed_down` stays clear — and it remains
/// one across repeated ticks.
pub proof fn lemma_suspension_idempotent_at_rest(
    config: Player,
    h: i64,
    vertical_velocity: i64,
    pushed_down: bool,
    dt: i64,
)
    requires
        config.wf(),
        -COORD_LIMIT <= h <= COORD_LIMIT,
    ensures
        ({
            let body_height = (h + config.float_height) as i64;
            let once = spec_suspend(
                GroundedState::Grounded,
                Some(h),
                pushed_down,
                config,
                body_height,
                vertical_velocity,
                None,
                dt,
            );
            let again = spec_suspend(
                GroundedState::Grounded,
                Some(h),
                once.pushed_down,
                config,
                once.body_height,
                once.vertical_velocity,
                None,
                dt,
            );
            &&& once.body_height == body_height
            &&& once.vertical_velocity == 0
            &&& once.gravity_scale == 0
            &&& once.pushed_down == false
            &&& again == once
        }),
{
}

/// The airborne-gravity law: whenever the tick has no ground height or the
/// verdict is not grounded, the suspension sets gravity back to full scale
/// and changes neither the height nor the vertical velocity.
pub proof fn lemma_suspension_airborne(
    grounded: GroundedState,
    ground_height: Option<i64>,
    pushed_down: bool,
    config: Player,
    body_height: i64,
    vertical_velocity: i64,
    obstruction: Option<i64>,
    dt: i64,
)
    requires
        ground_height is None || grounded != GroundedState::Grounded,
    ensures
        ({
            let out = spec_suspend(
                grounded,
                ground_height,
                pushed_down,
                config,
                body_height,
                vertical_velocity,
                obstruction,
                dt,
            );
            &&& out.gravity_scale == SCALE
            &&& out.body_height == body_height
            &&& out.vertical_velocity == vertical_velocity
            &&& out.pushed_down == false
        }),
{
}

} // verus!
