//! The ground sensor: fuses a short downward ray probe and a longer
//! downward shape sweep into one ground sample. A pure query with no side
//! effects.
//!
//! The ray is evaluated first. A zero-distance ray hit means the body is
//! already touching the ground, where exact-contact rays report degenerate
//! normals; that case is resolved locally to flat ground, with a world-up
//! normal and a distance derived from the collider geometry. A ray result
//! farther than `float_height` — or no ray hit at all — falls back to the
//! sweep's nearest hit, which better captures sloped or partial contact a
//! thin ray can skip. When the sweep saw nothing either, a far ray hit is
//! still reported and the classifier's distance rule decides; no hit from
//! either probe gives no sample.

use crate::components::{GroundSample, Player, ProbeHit, GEOMETRY_LIMIT};
use crate::math::{div_t, div_exec, Vec3, COORD_LIMIT, SCALE};
use vstd::prelude::*;

verus! {

/// The lengths of the two downward casts the spatial-query provider is
/// asked for each tick: a short ray of one collider radius from the body's
/// origin, and a sweep of twice the float height — long enough to catch
/// any surface the suspension could still care about.
pub fn probe_lengths(config: &Player) -> (r: (i64, i64))
    requires
        config.wf(),
    ensures
        r.0 == config.collider_radius,
        r.1 == 2 * config.float_height,
{
    (config.collider_radius, 2 * config.float_height)
}

/// The sample a probe hit is taken over as, unchanged but for wrapping the
/// entity.
pub open spec fn spec_sample_of(hit: ProbeHit) -> GroundSample {
    GroundSample {
        distance: hit.distance,
        normal: hit.normal,
        contact_point: hit.contact_point,
        slope_degrees: hit.slope_degrees,
        entity: Some(hit.entity),
    }
}

/// The flat-ground sample a zero-distance ray hit is resolved to: world-up
/// normal, zero slope, and a distance of half the collider height plus the
/// collider radius, with the contact point that far straight below the
/// body's origin.
pub open spec fn spec_flat_ground_sample(
    hit: ProbeHit,
    config: Player,
    collider_height: i64,
    body_origin: Vec3,
) -> GroundSample {
    let offset = div_t(collider_height as int, 2) + config.collider_radius;
    GroundSample {
        distance: offset as i64,
        normal: Vec3 { x: 0, y: SCALE, z: 0 },
        contact_point: Vec3 {
            x: body_origin.x,
            y: (body_origin.y - offset) as i64,
            z: body_origin.z,
        },
        slope_degrees: 0,
        entity: Some(hit.entity),
    }
}

/// What the fused sensor reports for one tick's two probes.
pub open spec fn spec_sense(
    ray: Option<ProbeHit>,
    sweep: Option<ProbeHit>,
    config: Player,
    collider_height: i64,
    body_origin: Vec3,
) -> Option<GroundSample> {
    match ray {
        Some(r) => {
            let candidate = if r.distance == 0 {
                spec_flat_ground_sample(r, config, collider_height, body_origin)
            } else {
                spec_sample_of(r)
            };
            if candidate.distance > config.float_height && sweep is Some {
                Some(spec_sample_of(sweep->Some_0))
            } else {
                Some(candidate)
            }
        },
        None => match sweep {
            Some(s) => Some(spec_sample_of(s)),
            None => None,
        },
    }
}

/// Fuses the downward ray probe and the downward sweep into one ground
/// sample, exactly as `spec_sense` says. `collider_height` is the height
/// of the collider currently in use (stand or crouch variant).
pub fn sense(
    ray: &Option<ProbeHit>,
    sweep: &Option<ProbeHit>,
    config: &Player,
    collider_height: i64,
    body_origin: Vec3,
) -> (r: Option<GroundSample>)
    requires
        config.wf(),
        (*ray) matches Some(h) ==> h.wf(),
        (*sweep) matches Some(h) ==> h.wf(),
        0 <= collider_height <= GEOMETRY_LIMIT,
        body_origin.bounded(COORD_LIMIT as int),
    ensures
        r == spec_sense(*ray, *sweep, *config, collider_height, body_origin),
        r matches Some(s) ==> s.wf(),
{
    match ray {
        Some(hit) => {
            let candidate: GroundSample = if hit.distance == 0 {
                let offset = div_exec(collider_height, 2) + config.collider_radius;
                GroundSample {
                    distance: offset,
                    normal: Vec3::up(),
                    contact_point: Vec3 { x: body_origin.x, y: body_origin.y - offset, z: body_origin.z },
                    slope_degrees: 0,
                    entity: Some(hit.entity),
                }
            } else {
                GroundSample {
                    distance: hit.distance,
                    normal: hit.normal,
                    contact_point: hit.contact_point,
                    slope_degrees: hit.slope_degrees,
                    entity: Some(hit.entity),
                }
            };
            if candidate.distance > config.float_height && sweep.is_some() {
                let s = sweep.as_ref().unwrap();
                Some(
                    GroundSample {
                        distance: s.distance,
                        normal: s.normal,
                        contact_point: s.contact_point,
                        slope_degrees: s.slope_degrees,
                        entity: Some(s.entity),
                    },
                )
            } else {
                Some(candidate)
            }
        },
        None => match sweep {
            Some(s) => Some(
                GroundSample {
                    distance: s.distance,
                    normal: s.normal,
                    contact_point: s.contact_point,
                    slope_degrees: s.slope_degrees,
                    entity: Some(s.entity),
                },
            ),
            None => None,
        },
    }
}

} // verus!
