use player_controller::components::{Player, ProbeHit};
use player_controller::math::Vec3;
use player_controller::sensor::sense;

fn config() -> Player {
    Player::default()  // collider_radius 2.0, float_height 2.0
}

fn hit(distance: i64, slope_degrees: i64, entity: u64) -> ProbeHit {
    ProbeHit {
        distance,
        normal: Vec3 { x: 0, y: 1_000, z: 0 },
        contact_point: Vec3 { x: 100, y: -500, z: 200 },
        slope_degrees,
        entity,
    }
}

#[test]
fn zero_distance_ray_resolves_to_flat_ground() {
    let origin = Vec3 { x: 0, y: 3_000, z: 0 };
    let s = sense(&Some(hit(0, 77_000, 4)), &None, &config(), 2_000, origin).unwrap();
    // offset: collider height / 2 plus collider radius = 1.0 + 2.0
    assert_eq!(s.distance, 3_000);
    assert_eq!(s.normal, Vec3 { x: 0, y: 1_000, z: 0 });
    assert_eq!(s.slope_degrees, 0);
    assert_eq!(s.contact_point, Vec3 { x: 0, y: 0, z: 0 });
    assert_eq!(s.entity, Some(4));
}

#[test]
fn near_ray_hit_is_taken_directly() {
    let origin = Vec3 { x: 0, y: 3_000, z: 0 };
    let ray = hit(1_500, 20_000, 4);
    let sweep = hit(900, 5_000, 8);
    let s = sense(&Some(ray), &Some(sweep), &config(), 2_000, origin).unwrap();
    assert_eq!(s.distance, 1_500);
    assert_eq!(s.slope_degrees, 20_000);
    assert_eq!(s.entity, Some(4));
}

#[test]
fn far_ray_hit_falls_back_to_sweep() {
    // the ray saw something beyond float_height; the sweep's nearer hit wins
    let origin = Vec3 { x: 0, y: 3_000, z: 0 };
    let ray = hit(2_500, 20_000, 4);
    let sweep = hit(1_800, 35_000, 8);
    let s = sense(&Some(ray), &Some(sweep), &config(), 2_000, origin).unwrap();
    assert_eq!(s.distance, 1_800);
    assert_eq!(s.slope_degrees, 35_000);
    assert_eq!(s.entity, Some(8));
}

#[test]
fn far_ray_hit_without_sweep_is_reported() {
    // nothing in sweep range: the far ray hit is handed to the classifier,
    // whose distance rule discards it
    let origin = Vec3 { x: 0, y: 3_000, z: 0 };
    let ray = hit(2_500, 20_000, 4);
    let s = sense(&Some(ray), &None, &config(), 2_000, origin).unwrap();
    assert_eq!(s.distance, 2_500);
    assert_eq!(s.entity, Some(4));
}

#[test]
fn missing_ray_falls_back_to_sweep() {
    let origin = Vec3 { x: 0, y: 3_000, z: 0 };
    let sweep = hit(1_200, 10_000, 8);
    let s = sense(&None, &Some(sweep), &config(), 2_000, origin).unwrap();
    assert_eq!(s.distance, 1_200);
    assert_eq!(s.entity, Some(8));
}

#[test]
fn no_hit_from_either_probe_gives_no_sample() {
    let origin = Vec3 { x: 0, y: 3_000, z: 0 };
    assert_eq!(sense(&None, &None, &config(), 2_000, origin), None);
}
