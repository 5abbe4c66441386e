//! The platform rider: folds a supporting body's motion into the player's
//! velocity without letting it compound.
//!
//! Each tick the rider samples the supporting body's velocity at the
//! contact point, `linear + angular x (contact - origin)`, and carries it.
//! Because the underlying integrator already carries forward last tick's
//! velocity, the rider separates "velocity this controller set last tick"
//! from "velocity imposed by outside physics": the difference — the
//! simulated drift — is damped exponentially before being added back, so
//! the two can never compound indefinitely. With no supporting body the
//! carried velocity decays to zero.

use crate::components::{PlayerData, CARRIED_LIMIT, SAMPLE_LIMIT, STATE_LIMIT};
use crate::math::{
    div_t, div_exec, fp, fp_mul, lemma_div_t_bound, lemma_fp_mul_bound, lemma_mul_bound,
    spec_cross, Vec3, COORD_LIMIT, SCALE,
};
use vstd::arithmetic::div_mod::{lemma_div_pos_is_pos, lemma_multiply_divide_lt};
use vstd::math::abs;
use vstd::prelude::*;

verus! {

/// The drift damping rate, in thousandths per second: each second of
/// simulated time scales the leftover drift by roughly
/// `1 / (1 + 0.8 * dt)`.
pub const DRIFT_DAMPING: i64 = 800;

/// Magnitude bound on a supporting body's angular velocity, in thousandths
/// of a radian per second: one hundred radians per second.
pub const ANGULAR_LIMIT: i64 = 100_000;

/// What the caller observed of the supporting body this tick, collected
/// before any mutation: its linear and angular velocity and its origin.
/// A contact entity that exposes no velocity data is simply not observed,
/// which counts as zero contribution, not an error.
#[derive(Clone, Copy, Debug, PartialEq, Eq, Structural)]
pub struct PlatformMotion {
    pub linear_velocity: Vec3,
    pub angular_velocity: Vec3,
    pub origin: Vec3,
}

impl PlatformMotion {
    pub open spec fn wf(self) -> bool {
        &&& self.linear_velocity.bounded(COORD_LIMIT as int)
        &&& self.angular_velocity.bounded(ANGULAR_LIMIT as int)
        &&& self.origin.bounded(COORD_LIMIT as int)
    }
}

/// The velocity of the specific contact point under the body's rotation:
/// the body's linear velocity plus its angular velocity crossed with the
/// arm from the body origin to the contact point.
pub open spec fn spec_point_velocity(motion: PlatformMotion, contact_point: Vec3) -> Vec3 {
    let arm = Vec3 {
        x: (contact_point.x - motion.origin.x) as i64,
        y: (contact_point.y - motion.origin.y) as i64,
        z: (contact_point.z - motion.origin.z) as i64,
    };
    let spin = spec_cross(motion.angular_velocity, arm);
    Vec3 {
        x: (motion.linear_velocity.x + spin.x) as i64,
        y: (motion.linear_velocity.y + spin.y) as i64,
        z: (motion.linear_velocity.z + spin.z) as i64,
    }
}

/// Computes the contact-point velocity of a supporting body.
pub fn point_velocity(motion: &PlatformMotion, contact_point: Vec3) -> (r: Vec3)
    requires
        motion.wf(),
        contact_point.bounded(SAMPLE_LIMIT as int),
    ensures
        r == spec_point_velocity(*motion, contact_point),
        r.bounded(CARRIED_LIMIT as int),
{
    let arm = contact_point.sub(motion.origin);
    proof {
        lemma_fp_mul_bound(
            motion.angular_velocity.y as int,
            arm.z as int,
            ANGULAR_LIMIT as int,
            2_500_000_000,
        );
        lemma_fp_mul_bound(
            motion.angular_velocity.z as int,
            arm.y as int,
            ANGULAR_LIMIT as int,
            2_500_000_000,
        );
        lemma_fp_mul_bound(
            motion.angular_velocity.z as int,
            arm.x as int,
            ANGULAR_LIMIT as int,
            2_500_000_000,
        );
        lemma_fp_mul_bound(
            motion.angular_velocity.x as int,
            arm.z as int,
            ANGULAR_LIMIT as int,
            2_500_000_000,
        );
        lemma_fp_mul_bound(
            motion.angular_velocity.x as int,
            arm.y as int,
            ANGULAR_LIMIT as int,
            2_500_000_000,
        );
        lemma_fp_mul_bound(
            motion.angular_velocity.y as int,
            arm.x as int,
            ANGULAR_LIMIT as int,
            2_500_000_000,
        );
    }
    let spin = motion.angular_velocity.cross(arm);
    motion.linear_velocity.add(spin)
}

/// One tick of the platform sampling. With a supporting body observed at a
/// known contact point, the carried velocity becomes that body's
/// contact-point velocity and the body's origin is remembered; otherwise
/// the carried velocity decays to zero and the bookkeeping clears. Nothing
/// else of the state changes.
pub fn ride_platform(
    state: &mut PlayerData,
    observation: &Option<PlatformMotion>,
    contact_point: &Option<Vec3>,
)
    requires
        old(state).wf(),
        (*observation) matches Some(m) ==> m.wf(),
        (*contact_point) matches Some(c) ==> c.bounded(SAMPLE_LIMIT as int),
    ensures
        match (*observation, *contact_point) {
            (Some(m), Some(c)) => {
                &&& final(state).carried_velocity == spec_point_velocity(m, c)
                &&& final(state).last_floor_transform == Some(m.origin)
            },
            _ => {
                &&& final(state).carried_velocity == (Vec3 { x: 0, y: 0, z: 0 })
                &&& final(state).last_floor_transform is None
            },
        },
        *final(state) == (PlayerData {
            carried_velocity: final(state).carried_velocity,
            last_floor_transform: final(state).last_floor_transform,
            ..*old(state)
        }),
        final(state).wf(),
{
    match (observation, contact_point) {
        (Some(m), Some(c)) => {
            state.carried_velocity = point_velocity(m, *c);
            state.last_floor_transform = Some(m.origin);
        },
        _ => {
            state.carried_velocity = Vec3::zero();
            state.last_floor_transform = None;
        },
    }
}

/// One damping step of a drift component: scaled by
/// `SCALE / (SCALE + k)`, rounding toward zero, where `k` is the damping
/// rate times the tick's delta time.
pub open spec fn spec_damp(d: int, k: int) -> int {
    div_t(d * (SCALE as int), (SCALE as int) + k)
}

/// What `compose_velocity` returns: carried velocity plus movement
/// velocity plus the damped drift of each component.
pub open spec fn spec_compose(
    carried: Vec3,
    last_set: Vec3,
    movement: Vec3,
    current_velocity: Vec3,
    dt: i64,
) -> Vec3 {
    let k = fp(dt as int, DRIFT_DAMPING as int);
    Vec3 {
        x: (carried.x + movement.x + spec_damp(current_velocity.x - last_set.x, k)) as i64,
        y: (carried.y + movement.y + spec_damp(current_velocity.y - last_set.y, k)) as i64,
        z: (carried.z + movement.z + spec_damp(current_velocity.z - last_set.z, k)) as i64,
    }
}

/// Composes this tick's velocity: the carried platform velocity plus the
/// movement velocity, plus the exponentially damped drift — the part of
/// the body's current velocity that this controller did not set last tick.
/// Remembers what it set, so next tick's drift is again only what outside
/// physics imposed.
pub fn compose_velocity(
    state: &mut PlayerData,
    movement: Vec3,
    current_velocity: Vec3,
    dt: i64,
) -> (r: Vec3)
    requires
        old(state).wf(),
        movement.bounded(4 * COORD_LIMIT as int),
        current_velocity.bounded(COORD_LIMIT as int),
        0 <= dt <= COORD_LIMIT,
    ensures
        r == spec_compose(
            old(state).carried_velocity,
            old(state).last_unsimulated_velocity,
            movement,
            current_velocity,
            dt,
        ),
        final(state).last_unsimulated_velocity == (Vec3 {
            x: (old(state).carried_velocity.x + movement.x) as i64,
            y: (old(state).carried_velocity.y + movement.y) as i64,
            z: (old(state).carried_velocity.z + movement.z) as i64,
        }),
        *final(state) == (PlayerData {
            last_unsimulated_velocity: final(state).last_unsimulated_velocity,
            ..*old(state)
        }),
        final(state).wf(),
{
    proof {
        lemma_fp_mul_bound(dt as int, DRIFT_DAMPING as int, COORD_LIMIT as int, 800);
        lemma_mul_bound(dt as int, DRIFT_DAMPING as int, COORD_LIMIT as int, 800);
        lemma_div_pos_is_pos(dt as int * DRIFT_DAMPING as int, SCALE as int);
    }
    let k = fp_mul(dt, DRIFT_DAMPING);
    let dx: i64 = current_velocity.x - state.last_unsimulated_velocity.x;
    let dy: i64 = current_velocity.y - state.last_unsimulated_velocity.y;
    let dz: i64 = current_velocity.z - state.last_unsimulated_velocity.z;
    proof {
        lemma_div_t_bound(dx as int * SCALE as int, SCALE as int + k as int, 3_000_000_000_000_000);
        lemma_div_t_bound(dy as int * SCALE as int, SCALE as int + k as int, 3_000_000_000_000_000);
        lemma_div_t_bound(dz as int * SCALE as int, SCALE as int + k as int, 3_000_000_000_000_000);
    }
    let damped_x = div_exec(dx * SCALE, SCALE + k);
    let damped_y = div_exec(dy * SCALE, SCALE + k);
    let damped_z = div_exec(dz * SCALE, SCALE + k);
    let r = Vec3 {
        x: state.carried_velocity.x + movement.x + damped_x,
        y: state.carried_velocity.y + movement.y + damped_y,
        z: state.carried_velocity.z + movement.z + damped_z,
    };
    state.last_unsimulated_velocity = Vec3 {
        x: state.carried_velocity.x + movement.x,
        y: state.carried_velocity.y + movement.y,
        z: state.carried_velocity.z + movement.z,
    };
    r
}

/// A damping step with any positive rate leaves zero at zero and strictly
/// shrinks the magnitude of any other drift toward zero, never crossing
/// it.
pub proof fn lemma_damp_shrinks(d: int, k: int)
    requires
        k >= 1,
    ensures
        d == 0 ==> spec_damp(d, k) == 0,
        d > 0 ==> 0 <= spec_damp(d, k) < d,
        d < 0 ==> d < spec_damp(d, k) <= 0,
{
    let s = SCALE as int;
    if d == 0 {
        lemma_div_t_bound(0, s + k, 0);
    } else if d > 0 {
        lemma_div_pos_is_pos(d * s, s + k);
        assert(d * s < (s + k) * d) by (nonlinear_arith)
            requires
                d >= 1,
                k >= 1,
                s == 1000,
        ;
        lemma_multiply_divide_lt(d * s, s + k, d);
    } else {
        lemma_div_pos_is_pos((-d) * s, s + k);
        assert((-d) * s < (s + k) * (-d)) by (nonlinear_arith)
            requires
                d <= -1,
                k >= 1,
                s == 1000,
        ;
        lemma_multiply_divide_lt((-d) * s, s + k, -d);
        assert(d * s == -((-d) * s)) by (nonlinear_arith);
    }
}

/// The drift left after `n` damping steps.
pub open spec fn spec_damp_iter(d: int, k: int, n: nat) -> int
    decreases n,
{
    if n == 0 {
        d
    } else {
        spec_damp(spec_damp_iter(d, k, (n - 1) as nat), k)
    }
}

/// After `n` damping steps at most `abs(d) - n` of the drift remains.
proof fn lemma_damp_iter_bound(d: int, k: int, n: nat)
    requires
        k >= 1,
    ensures
        abs(spec_damp_iter(d, k, n)) <= if abs(d) - n >= 0 {
            abs(d) - n
        } else {
            0
        },
    decreases n,
{
    if n > 0 {
        lemma_damp_iter_bound(d, k, (n - 1) as nat);
        lemma_damp_shrinks(spec_damp_iter(d, k, (n - 1) as nat), k);
    }
}

/// The settled state is a fixed point of the composition: once the body's
/// velocity is exactly what the controller set last tick — the carried
/// velocity plus the movement velocity, with no outside impact — the
/// composed velocity is that same value again, drift-free.
pub proof fn lemma_compose_fixed_point(carried: Vec3, movement: Vec3, dt: i64)
    requires
        carried.bounded(CARRIED_LIMIT as int),
        movement.bounded(4 * COORD_LIMIT as int),
        0 <= dt <= COORD_LIMIT,
    ensures
        ({
            let settled = Vec3 {
                x: (carried.x + movement.x) as i64,
                y: (carried.y + movement.y) as i64,
                z: (carried.z + movement.z) as i64,
            };
            spec_compose(carried, settled, movement, settled, dt) == settled
        }),
{
    let k = fp(dt as int, DRIFT_DAMPING as int);
    lemma_fp_mul_bound(dt as int, DRIFT_DAMPING as int, COORD_LIMIT as int, 800);
    lemma_mul_bound(dt as int, DRIFT_DAMPING as int, COORD_LIMIT as int, 800);
    lemma_div_pos_is_pos(dt as int * DRIFT_DAMPING as int, SCALE as int);
    assert(spec_damp(0, k) == 0) by {
        lemma_div_t_bound(0, SCALE as int + k, 0);
    }
}

/// The convergence law of the platform rider: on a platform with constant
/// linear velocity and zero angular velocity the carried velocity is the
/// platform's own, and the drift term decays to exactly zero within as
/// many ticks as its starting magnitude — from then on the composed
/// velocity is exactly the platform velocity plus the movement velocity.
pub proof fn lemma_platform_rider_converges(
    motion: PlatformMotion,
    contact_point: Vec3,
    d: int,
    k: int,
    n: nat,
)
    requires
        motion.angular_velocity == (Vec3 { x: 0, y: 0, z: 0 }),
        k >= 1,
        n >= abs(d),
    ensures
        spec_point_velocity(motion, contact_point) == motion.linear_velocity,
        spec_damp_iter(d, k, n) == 0,
{
    let arm = Vec3 {
        x: (contact_point.x - motion.origin.x) as i64,
        y: (contact_point.y - motion.origin.y) as i64,
        z: (contact_point.z - motion.origin.z) as i64,
    };
    assert(spec_cross(motion.angular_velocity, arm) == (Vec3 { x: 0, y: 0, z: 0 })) by {
        assert(forall|b: int| #[trigger] (0int * b) == 0) by (nonlinear_arith);
        assert(div_t(0, SCALE as int) == 0) by {
            lemma_div_t_bound(0, SCALE as int, 0);
        }
    }
    lemma_damp_iter_bound(d, k, n);
}

} // verus!
