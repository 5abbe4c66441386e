//! The controller's data: immutable per-player tuning, the mutable per-tick
//! state, and the plain-value records the engine hands the controller each
//! tick (probe hits, input snapshot).

use crate::jump::JumpTimer;
use crate::math::{Vec3, COORD_LIMIT, SCALE};
use vstd::prelude::*;

verus! {

/// Distance slack added to `float_height` by the grounding classifier, in
/// thousandths of a unit: keeps the body glued to ramp crests through small
/// per-tick height jitter.
pub const EPSILON_DISTANCE: i64 = 200;

/// Angle slack added to `max_slope_degrees` by the grounding classifier, in
/// thousandths of a degree: compensates for noise in near-threshold normals.
pub const EPSILON_ANGLE: i64 = 100;

/// One full right angle in thousandths of a degree.
pub const RIGHT_ANGLE_DEGREES: i64 = 90_000;

/// Magnitude bound on the tuning's geometry (radii, heights): one hundred
/// thousand units, room enough for any character while keeping the ground
/// sensor's derived offsets inside the sample bound.
pub const GEOMETRY_LIMIT: i64 = 100_000_000;

/// Magnitude bound on a ground sample's contact point and on stored ground
/// heights: an engine-supplied coordinate plus the sensor's largest derived
/// offset.
pub const SAMPLE_LIMIT: i64 = 1_500_000_000;

/// Magnitude bound on the carried velocity inherited from a supporting
/// platform: wide enough for any point velocity of a body within the
/// coordinate and angular-rate limits.
pub const CARRIED_LIMIT: i64 = 1_000_000_000_000;

/// Magnitude bound on the velocity the controller set last tick: the
/// carried velocity plus the largest movement velocity.
pub const STATE_LIMIT: i64 = 2_000_000_000_000;

/// Immutable per-player tuning, set at spawn and never mutated by the
/// controller. All scalars are fixed-point thousandths; angles are in
/// thousandths of a degree.
#[derive(Clone, Copy, Debug, PartialEq, Eq, Structural)]
pub struct Player {
    pub collider_radius: i64,
    pub stand_height: i64,
    pub crouch_height: i64,
    pub float_height: i64,
    pub grounded_speed: i64,
    pub airborne_speed: i64,
    pub ground_friction: i64,
    pub jump_height: i64,
    pub max_slope_degrees: i64,
}

/// Why the tuning in `Player` was rejected at construction time.
#[derive(Clone, Copy, Debug, PartialEq, Eq, Structural)]
pub enum ConfigError {
    /// A length (radius, height) is negative.
    NegativeLength,
    /// A speed, friction or jump strength is negative.
    NegativeMotion,
    /// `max_slope_degrees` lies outside `[0, 90)` degrees.
    SlopeOutOfRange,
    /// A value exceeds the fixed-point coordinate limit.
    TooLarge,
}

impl Player {
    /// Valid tuning: lengths and speeds nonnegative, the slope threshold
    /// inside `[0, 90)` degrees, everything inside the coordinate limit.
    pub open spec fn wf(self) -> bool {
        &&& 0 <= self.collider_radius <= GEOMETRY_LIMIT
        &&& 0 <= self.stand_height <= GEOMETRY_LIMIT
        &&& 0 <= self.crouch_height <= GEOMETRY_LIMIT
        &&& 0 <= self.float_height <= GEOMETRY_LIMIT
        &&& 0 <= self.grounded_speed <= COORD_LIMIT
        &&& 0 <= self.airborne_speed <= COORD_LIMIT
        &&& 0 <= self.ground_friction <= COORD_LIMIT
        &&& 0 <= self.jump_height <= COORD_LIMIT
        &&& 0 <= self.max_slope_degrees < RIGHT_ANGLE_DEGREES
    }

    /// The error `Player::new` reports for this tuning, checked in field
    /// order: geometry first, then motion, then the slope threshold, then
    /// the machine limit.
    pub open spec fn spec_config_error(c: Player) -> ConfigError {
        if c.collider_radius < 0 || c.stand_height < 0 || c.crouch_height < 0 || c.float_height
            < 0 {
            ConfigError::NegativeLength
        } else if c.grounded_speed < 0 || c.airborne_speed < 0 || c.ground_friction < 0
            || c.jump_height < 0 {
            ConfigError::NegativeMotion
        } else if !(0 <= c.max_slope_degrees < RIGHT_ANGLE_DEGREES) {
            ConfigError::SlopeOutOfRange
        } else {
            ConfigError::TooLarge
        }
    }

    /// Validates the tuning: returns the configuration exactly when every
    /// invariant of `wf` holds, and the first violated rule otherwise. The
    /// controller must not run with invalid tuning.
    pub fn new(
        collider_radius: i64,
        stand_height: i64,
        crouch_height: i64,
        float_height: i64,
        grounded_speed: i64,
        airborne_speed: i64,
        ground_friction: i64,
        jump_height: i64,
        max_slope_degrees: i64,
    ) -> (r: Result<Player, ConfigError>)
        ensures
            ({
                let c = Player {
                    collider_radius,
                    stand_height,
                    crouch_height,
                    float_height,
                    grounded_speed,
                    airborne_speed,
                    ground_friction,
                    jump_height,
                    max_slope_degrees,
                };
                &&& r is Ok <==> c.wf()
                &&& r is Ok ==> r->Ok_0 == c
                &&& r is Err ==> r->Err_0 == Player::spec_config_error(c)
            }),
    {
        let c = Player {
            collider_radius,
            stand_height,
            crouch_height,
            float_height,
            grounded_speed,
            airborne_speed,
            ground_friction,
            jump_height,
            max_slope_degrees,
        };
        if collider_radius < 0 || stand_height < 0 || crouch_height < 0 || float_height < 0 {
            Err(ConfigError::NegativeLength)
        } else if grounded_speed < 0 || airborne_speed < 0 || ground_friction < 0 || jump_height
            < 0 {
            Err(ConfigError::NegativeMotion)
        } else if max_slope_degrees < 0 || max_slope_degrees >= RIGHT_ANGLE_DEGREES {
            Err(ConfigError::SlopeOutOfRange)
        } else if collider_radius > GEOMETRY_LIMIT || stand_height > GEOMETRY_LIMIT
            || crouch_height > GEOMETRY_LIMIT || float_height > GEOMETRY_LIMIT || grounded_speed
            > COORD_LIMIT
            || airborne_speed > COORD_LIMIT || ground_friction > COORD_LIMIT || jump_height
            > COORD_LIMIT {
            Err(ConfigError::TooLarge)
        } else {
            Ok(c)
        }
    }

    /// The stock tuning: a squat capsule, a two-unit float height, brisk
    /// grounded movement with half-speed air control, and a forty-five
    /// degree walkable-slope limit.
    pub open spec fn spec_default() -> Player {
        Player {
            collider_radius: 2_000,
            stand_height: 2_000,
            crouch_height: 1_000,
            float_height: 2_000,
            grounded_speed: 15_000,
            airborne_speed: 7_500,
            ground_friction: 10_000,
            jump_height: 5_000,
            max_slope_degrees: 45_000,
        }
    }

    /// The collider height currently in use: the crouch variant while
    /// crouching, the stand variant otherwise.
    pub fn collider_height(&self, crouching: bool) -> (r: i64)
        ensures
            r == if crouching {
                self.crouch_height
            } else {
                self.stand_height
            },
    {
        if crouching {
            self.crouch_height
        } else {
            self.stand_height
        }
    }
}

impl Default for Player {
    /// The stock tuning, attached to a player entity that brings none of
    /// its own.
    fn default() -> (r: Player)
        ensures
            r == Player::spec_default(),
            r.wf(),
    {
        Player {
            collider_radius: 2_000,
            stand_height: 2_000,
            crouch_height: 1_000,
            float_height: 2_000,
            grounded_speed: 15_000,
            airborne_speed: 7_500,
            ground_friction: 10_000,
            jump_height: 5_000,
            max_slope_degrees: 45_000,
        }
    }
}

/// The discrete grounding state all downstream components read.
#[derive(Clone, Copy, Debug, PartialEq, Eq, Structural)]
pub enum GroundedState {
    Grounded,
    Ungrounded(UngroundedReason),
}

/// Why the body is not grounded.
#[derive(Clone, Copy, Debug, PartialEq, Eq, Structural)]
pub enum UngroundedReason {
    Airborne,
    SteepSlope,
}

/// One probe hit handed in by the spatial-query provider, already reduced
/// to plain values: distance along the cast, surface normal, world contact
/// point, the angle between the normal and world-up in thousandths of a
/// degree, and the hit entity's identifier.
#[derive(Clone, Copy, Debug, PartialEq)]
pub struct ProbeHit {
    pub distance: i64,
    pub normal: Vec3,
    pub contact_point: Vec3,
    pub slope_degrees: i64,
    pub entity: u64,
}

impl ProbeHit {
    /// A plausible hit: nonnegative bounded distance, a unit-length normal
    /// (components within one), a bounded contact point, an angle within a
    /// half turn.
    pub open spec fn wf(self) -> bool {
        &&& 0 <= self.distance <= COORD_LIMIT
        &&& self.normal.bounded(SCALE as int)
        &&& self.contact_point.bounded(COORD_LIMIT as int)
        &&& 0 <= self.slope_degrees <= 2 * RIGHT_ANGLE_DEGREES
    }
}

/// One tick's fused ray+sweep result describing the nearest walkable
/// surface below the body. Ephemeral: recomputed every tick.
#[derive(Clone, Copy, Debug, PartialEq)]
pub struct GroundSample {
    pub distance: i64,
    pub normal: Vec3,
    pub contact_point: Vec3,
    pub slope_degrees: i64,
    pub entity: Option<u64>,
}

impl GroundSample {
    pub open spec fn wf(self) -> bool {
        &&& 0 <= self.distance <= COORD_LIMIT
        &&& self.normal.bounded(SCALE as int)
        &&& self.contact_point.bounded(SAMPLE_LIMIT as int)
        &&& 0 <= self.slope_degrees <= 2 * RIGHT_ANGLE_DEGREES
    }
}

/// The held/just-pressed key state for one tick, polled by the caller and
/// passed in; the controller keeps no global input state.
#[derive(Clone, Copy, Debug, PartialEq, Eq, Structural)]
pub struct InputSnapshot {
    pub forward: bool,
    pub back: bool,
    pub left: bool,
    pub right: bool,
    pub jump: bool,
    pub crouch: bool,
}

/// Mutable per-player state, owned exclusively by the controller: created
/// at spawn, overwritten in place every tick, never persisted.
#[derive(Clone, Debug, PartialEq)]
pub struct PlayerData {
    pub grounded: GroundedState,
    pub ground_distance: Option<i64>,
    pub ground_height: Option<i64>,
    pub ground_normal: Option<Vec3>,
    pub crouching: bool,
    pub jump_cooldown: JumpTimer,
    pub pushed_down: bool,
    pub carried_velocity: Vec3,
    pub last_unsimulated_velocity: Vec3,
    pub floor_entity: Option<u64>,
    pub last_floor_transform: Option<Vec3>,
}

impl PlayerData {
    /// The state a freshly spawned player starts in: airborne with no
    /// contact data, standing, no inherited velocity, and a jump timer that
    /// has already run out so the first jump is not debounced away.
    pub open spec fn spec_spawned() -> PlayerData {
        PlayerData {
            grounded: GroundedState::Ungrounded(UngroundedReason::Airborne),
            ground_distance: None,
            ground_height: None,
            ground_normal: None,
            crouching: false,
            jump_cooldown: JumpTimer::spec_ready(),
            pushed_down: false,
            carried_velocity: Vec3 { x: 0, y: 0, z: 0 },
            last_unsimulated_velocity: Vec3 { x: 0, y: 0, z: 0 },
            floor_entity: None,
            last_floor_transform: None,
        }
    }

    /// The bookkeeping bounds the per-tick functions maintain.
    pub open spec fn wf(self) -> bool {
        &&& self.jump_cooldown.wf()
        &&& match self.ground_distance {
            Some(d) => 0 <= d <= COORD_LIMIT,
            None => true,
        }
        &&& match self.ground_height {
            Some(h) => -SAMPLE_LIMIT <= h <= SAMPLE_LIMIT,
            None => true,
        }
        &&& match self.ground_normal {
            Some(n) => n.bounded(SCALE as int),
            None => true,
        }
        &&& self.carried_velocity.bounded(CARRIED_LIMIT as int)
        &&& self.last_unsimulated_velocity.bounded(STATE_LIMIT as int)
        &&& match self.last_floor_transform {
            Some(t) => t.bounded(COORD_LIMIT as int),
            None => true,
        }
    }
}

impl Default for PlayerData {
    /// Attached to the player entity at spawn.
    fn default() -> (r: PlayerData)
        ensures
            r == PlayerData::spec_spawned(),
            r.wf(),
    {
        PlayerData {
            grounded: GroundedState::Ungrounded(UngroundedReason::Airborne),
            ground_distance: None,
            ground_height: None,
            ground_normal: None,
            crouching: false,
            jump_cooldown: JumpTimer::ready(),
            pushed_down: false,
            carried_velocity: Vec3::zero(),
            last_unsimulated_velocity: Vec3::zero(),
            floor_entity: None,
            last_floor_transform: None,
        }
    }
}

} // verus!
