use ascii_tracer::fixed::FX_ONE;
use ascii_tracer::intersect::{plane_line_int, sphere_line_int, SphereLineIntResult};
use ascii_tracer::scene::GROUND_Z;
use ascii_tracer::vec3::V3;

const S: i128 = FX_ONE;

#[test]
fn ray_through_center_hits_twice_symmetrically() {
    // From (0, 50, 0) straight down through the center: entry at y = 10,
    // exit at y = -10, symmetric about the origin.
    let p = V3::new(0, 50 * S, 0);
    let d = V3::new(0, -S, 0);
    let r = sphere_line_int(p, d);
    match r {
        SphereLineIntResult::Through(p1, p2) => {
            assert_eq!(p1, V3::new(0, 10 * S, 0));
            assert_eq!(p2, V3::new(0, -10 * S, 0));
            // Symmetric about the closest ray point to the center.
            assert_eq!(p1.y + p2.y, 0);
        }
        _ => panic!("expected a through hit"),
    }
}

#[test]
fn closest_picks_entry_point() {
    let p = V3::new(0, 50 * S, 0);
    let d = V3::new(0, -S, 0);
    let r = sphere_line_int(p, d);
    assert_eq!(r.closest(p), Some(V3::new(0, 10 * S, 0)));
}

#[test]
fn grazing_ray_is_tangent() {
    // From (10, 50, 0) straight down: touches the sphere at (10, 0, 0).
    let p = V3::new(10 * S, 50 * S, 0);
    let d = V3::new(0, -S, 0);
    let r = sphere_line_int(p, d);
    match r {
        SphereLineIntResult::Tangent(t) => assert_eq!(t, V3::new(10 * S, 0, 0)),
        _ => panic!("expected a tangent hit"),
    }
}

#[test]
fn wide_ray_misses() {
    let p = V3::new(20 * S, 50 * S, 0);
    let d = V3::new(0, -S, 0);
    let r = sphere_line_int(p, d);
    assert!(matches!(r, SphereLineIntResult::Miss));
    assert_eq!(r.closest(p), None);
}

#[test]
fn closest_tie_returns_second_point() {
    // Two hit points equidistant from the camera: the second one wins.
    let p1 = V3::new(10 * S, 0, 0);
    let p2 = V3::new(-10 * S, 0, 0);
    let cam = V3::new(0, 50 * S, 0);
    let r = SphereLineIntResult::Through(p1, p2);
    assert_eq!(r.closest(cam), Some(p2));
}

#[test]
fn plane_parallel_ray_misses() {
    let p = V3::new(0, 50 * S, 0);
    let d = V3::new(S, 0, 0);
    assert_eq!(plane_line_int(p, d), None);
}

#[test]
fn plane_vertical_ray_lands_exactly_on_plane() {
    let p = V3::new(0, 50 * S, 0);
    let d = V3::new(0, 0, -S);
    let hit = plane_line_int(p, d).expect("not parallel");
    assert_eq!(hit, V3::new(0, 50 * S, GROUND_Z));
    assert_eq!(hit.z, GROUND_Z);
}

#[test]
fn plane_skew_ray_lands_within_truncation_of_plane() {
    let p = V3::new(3 * S, 40 * S, 7 * S);
    let d = V3::new(3277, -60000, -20000);
    let hit = plane_line_int(p, d).expect("not parallel");
    let err = (hit.z - GROUND_Z).abs();
    assert!(err <= 2 + d.z.abs() / S, "height error {err} too large");
}

#[test]
fn plane_hit_behind_origin_is_still_returned() {
    // No front-face test: a direction pointing away from the plane still
    // yields the (backward) intersection point.
    let p = V3::new(0, 50 * S, 0);
    let d = V3::new(0, 0, S);
    let hit = plane_line_int(p, d).expect("not parallel");
    assert_eq!(hit.z, GROUND_Z);
}
