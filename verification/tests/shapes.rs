use raytracing::material::{Lambertian, Material};
use raytracing::math::scalar::Scalar;
use raytracing::math::vec3::vec3;
use raytracing::shapes::{Crossing, HitRecord, HittableList};

fn dist(x: f64) -> Scalar {
    Scalar::from_bits(x.to_bits())
}

fn val(s: Scalar) -> f64 {
    f64::from_bits(s.to_bits())
}

/// The crossing of the ray from `origin` along the x axis with a sphere of
/// radius `radius` whose centre lies at `center` on that axis at height `off`.
fn crossing(origin: f64, center: f64, off: f64, radius: f64) -> Crossing {
    let oc = (origin - center, -off);
    let a = 1.0;
    let half_b = oc.0;
    let c = oc.0 * oc.0 + oc.1 * oc.1 - radius * radius;
    let discriminant = half_b * half_b - a * c;
    let root = discriminant.sqrt();
    Crossing {
        discriminant: dist(discriminant),
        near: dist((-half_b - root) / a),
        far: dist((-half_b + root) / a),
    }
}

#[test]
fn a_sphere_ahead_is_hit_at_its_near_side() {
    let c = crossing(0.0, 5.0, 0.0, 1.0);
    let t = c.hit(dist(0.001), dist(f64::INFINITY)).unwrap();
    assert_eq!(val(t), 4.0);
}

#[test]
fn the_same_ray_and_sphere_give_the_same_hit_again() {
    let c = crossing(0.0, 5.0, 0.5, 1.0);
    let first = c.hit(dist(0.001), dist(f64::INFINITY)).unwrap();
    let second = c.hit(dist(0.001), dist(f64::INFINITY)).unwrap();
    assert_eq!(first.to_bits(), second.to_bits());
}

#[test]
fn from_inside_a_sphere_the_far_side_is_hit() {
    let c = crossing(5.0, 5.0, 0.0, 1.0);
    assert_eq!(val(c.near), -1.0);
    let t = c.hit(dist(0.001), dist(f64::INFINITY)).unwrap();
    assert_eq!(val(t), 1.0);
}

#[test]
fn a_sphere_behind_is_not_hit() {
    let c = crossing(0.0, -5.0, 0.0, 1.0);
    assert!(c.hit(dist(0.001), dist(f64::INFINITY)).is_none());
}

#[test]
fn a_sphere_beyond_the_distances_is_not_hit() {
    let c = crossing(0.0, 5.0, 0.0, 1.0);
    assert!(c.hit(dist(0.001), dist(3.9)).is_none());
    assert!(c.hit(dist(6.1), dist(100.0)).is_none());
}

#[test]
fn the_ends_of_the_distances_count_as_inside() {
    let c = crossing(0.0, 5.0, 0.0, 1.0);
    assert_eq!(val(c.hit(dist(0.001), dist(4.0)).unwrap()), 4.0);
    assert_eq!(val(c.hit(dist(4.0), dist(10.0)).unwrap()), 4.0);
    assert_eq!(val(c.hit(dist(4.5), dist(6.0)).unwrap()), 6.0);
}

#[test]
fn a_ray_that_passes_by_hits_for_no_distances() {
    let c = crossing(0.0, 5.0, 1.5, 1.0);
    assert!(val(c.discriminant) < 0.0);
    let bounds = [-1e9, -1.0, 0.0, 0.001, 1.0, 4.0, 6.0, 1e9, f64::INFINITY, f64::NEG_INFINITY];
    for lo in bounds {
        for hi in bounds {
            assert!(c.hit(dist(lo), dist(hi)).is_none());
        }
    }
    let made_up = Crossing { discriminant: dist(-1.0), near: dist(1.0), far: dist(2.0) };
    assert!(made_up.hit(dist(0.0), dist(10.0)).is_none());
}

#[test]
fn a_grazing_ray_hits_once() {
    let c = crossing(0.0, 5.0, 1.0, 1.0);
    assert_eq!(val(c.discriminant), 0.0);
    assert_eq!(val(c.hit(dist(0.001), dist(f64::INFINITY)).unwrap()), 5.0);
}

#[test]
fn of_two_spheres_along_a_ray_the_nearer_is_seen() {
    let mut world = HittableList { objects: vec![] };
    world.add(crossing(0.0, 10.0, 0.0, 1.0));
    world.add(crossing(0.0, 5.0, 0.0, 1.0));
    let (i, t) = world.hit(dist(0.001), dist(f64::INFINITY)).unwrap();
    assert_eq!(i, 1);
    assert_eq!(val(t), 4.0);

    let mut other = HittableList { objects: vec![] };
    other.add(crossing(0.0, 5.0, 0.0, 1.0));
    other.add(crossing(0.0, 10.0, 0.0, 1.0));
    let (i, t) = other.hit(dist(0.001), dist(f64::INFINITY)).unwrap();
    assert_eq!(i, 0);
    assert_eq!(val(t), 4.0);
}

#[test]
fn overlapping_spheres_show_the_nearest_surface() {
    let mut world = HittableList { objects: vec![] };
    world.add(crossing(0.0, 5.0, 0.0, 2.0));
    world.add(crossing(0.0, 5.5, 0.0, 3.0));
    world.add(crossing(0.0, 6.0, 0.0, 1.0));
    let (i, t) = world.hit(dist(0.001), dist(f64::INFINITY)).unwrap();
    assert_eq!(i, 1);
    assert_eq!(val(t), 2.5);
    let (i, t) = world.hit(dist(2.75), dist(f64::INFINITY)).unwrap();
    assert_eq!(i, 0);
    assert_eq!(val(t), 3.0);
}

#[test]
fn the_hit_of_a_scene_is_the_least_of_its_surfaces_hits() {
    let centers = [9.0, 3.0, 14.0, 6.5, 3.0, 20.0];
    let mut world = HittableList { objects: vec![] };
    for c in centers {
        world.add(crossing(0.0, c, 0.25, 1.0));
    }
    for (lo, hi) in [(0.001, f64::INFINITY), (2.5, 12.0), (7.0, 8.0), (4.5, 4.6), (30.0, 40.0)] {
        let mut want: Option<(usize, f64)> = None;
        for (k, object) in world.objects.iter().enumerate() {
            if let Some(t) = object.hit(dist(lo), dist(hi)) {
                if want.map_or(true, |(_, best)| val(t) < best) {
                    want = Some((k, val(t)));
                }
            }
        }
        let got = world.hit(dist(lo), dist(hi)).map(|(k, t)| (k, val(t)));
        assert_eq!(got, want);
    }
}

#[test]
fn of_two_surfaces_at_one_distance_the_earlier_is_seen() {
    let mut world = HittableList { objects: vec![] };
    world.add(crossing(0.0, 10.0, 0.0, 1.0));
    world.add(crossing(0.0, 5.0, 0.0, 1.0));
    world.add(crossing(0.0, 6.0, 0.0, 2.0));
    let (i, t) = world.hit(dist(0.001), dist(f64::INFINITY)).unwrap();
    assert_eq!(i, 1);
    assert_eq!(val(t), 4.0);
}

#[test]
fn an_empty_scene_is_never_hit() {
    let world = HittableList { objects: vec![] };
    assert!(world.hit(dist(0.001), dist(f64::INFINITY)).is_none());
}

#[test]
fn a_scene_that_the_ray_misses_gives_no_hit() {
    let mut world = HittableList { objects: vec![] };
    world.add(crossing(0.0, 5.0, 3.0, 1.0));
    world.add(crossing(0.0, -5.0, 0.0, 1.0));
    assert!(world.hit(dist(0.001), dist(f64::INFINITY)).is_none());
}

#[test]
fn a_cleared_scene_is_empty() {
    let mut world = HittableList { objects: vec![] };
    world.add(crossing(0.0, 5.0, 0.0, 1.0));
    assert_eq!(world.objects.len(), 1);
    world.clear();
    assert_eq!(world.objects.len(), 0);
    assert!(world.hit(dist(0.001), dist(f64::INFINITY)).is_none());
}

fn blank_record() -> HitRecord {
    HitRecord {
        p: vec3(dist(1.0), dist(2.0), dist(3.0)),
        normal: vec3(dist(0.0), dist(0.0), dist(0.0)),
        material: Material::Lambertian(Lambertian {
            albedo: vec3(dist(0.5), dist(0.5), dist(0.5)),
        }),
        t: dist(4.0),
        front_face: false,
    }
}

#[test]
fn a_ray_from_outside_keeps_the_outward_normal() {
    let mut rec = blank_record();
    let outward = vec3(dist(0.0), dist(1.0), dist(0.0));
    rec.set_face_normal(dist(-0.5), &outward);
    assert!(rec.front_face);
    assert_eq!(val(rec.normal.y), 1.0);
    assert_eq!(val(rec.t), 4.0);
    assert_eq!(val(rec.p.z), 3.0);
}

#[test]
fn a_ray_from_inside_turns_the_normal_round() {
    let mut rec = blank_record();
    let outward = vec3(dist(0.0), dist(1.0), dist(0.0));
    rec.set_face_normal(dist(0.5), &outward);
    assert!(!rec.front_face);
    assert_eq!(val(rec.normal.y), -1.0);
    rec.set_face_normal(dist(0.0), &outward);
    assert!(!rec.front_face);
    assert_eq!(val(rec.normal.y), -1.0);
}

#[test]
fn the_reported_normal_never_points_along_the_ray() {
    let direction = (0.3, -0.8, 0.5);
    for outward in [(0.0, 1.0, 0.0), (0.0, -1.0, 0.0), (0.6, 0.0, 0.8), (-0.6, 0.0, -0.8)] {
        let facing = direction.0 * outward.0 + direction.1 * outward.1 + direction.2 * outward.2;
        let mut rec = blank_record();
        rec.set_face_normal(dist(facing), &vec3(dist(outward.0), dist(outward.1), dist(outward.2)));
        let n = (val(rec.normal.x), val(rec.normal.y), val(rec.normal.z));
        let dot = direction.0 * n.0 + direction.1 * n.1 + direction.2 * n.2;
        assert!(dot <= 0.0);
        let length = (n.0 * n.0 + n.1 * n.1 + n.2 * n.2).sqrt();
        assert!((length - 1.0).abs() < 1e-12);
    }
}
