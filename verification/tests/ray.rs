use raytracing::math::ray::{new_ray, ray_color, reach, spent, Shade, Trace};
use raytracing::math::scalar::Scalar;
use raytracing::math::vec3::vec3;

fn r(x: f64) -> Scalar {
    Scalar::from_bits(x.to_bits())
}

#[test]
fn a_ray_keeps_its_origin_and_direction() {
    let ray = new_ray(&vec3(r(1.0), r(2.0), r(3.0)), &vec3(r(0.0), r(1.0), r(0.0)));
    assert_eq!(f64::from_bits(ray.origin().x.to_bits()), 1.0);
    assert_eq!(f64::from_bits(ray.origin().z.to_bits()), 3.0);
    assert_eq!(f64::from_bits(ray.direction().y.to_bits()), 1.0);
}

#[test]
fn a_ray_with_nothing_to_spend_is_black() {
    for depth in [0, -1, i32::MIN] {
        assert!(spent(depth));
        for trace in [Trace::Miss, Trace::Absorbed, Trace::Scattered] {
            assert_eq!(ray_color(depth, trace), Shade::Black);
        }
    }
}

#[test]
fn a_ray_that_leaves_the_scene_sees_the_sky() {
    assert!(!spent(1));
    assert_eq!(ray_color(1, Trace::Miss), Shade::Sky);
    assert_eq!(ray_color(50, Trace::Miss), Shade::Sky);
}

#[test]
fn an_absorbed_ray_is_black() {
    assert_eq!(ray_color(1, Trace::Absorbed), Shade::Black);
    assert_eq!(ray_color(50, Trace::Absorbed), Shade::Black);
}

#[test]
fn a_scattered_ray_is_followed_with_one_bounce_less() {
    assert_eq!(ray_color(50, Trace::Scattered), Shade::Bounce { depth: 49 });
    assert_eq!(ray_color(1, Trace::Scattered), Shade::Bounce { depth: 0 });
    assert_eq!(ray_color(i32::MAX, Trace::Scattered), Shade::Bounce { depth: i32::MAX - 1 });
}

#[test]
fn a_path_of_mirrors_ends_when_the_depth_is_spent() {
    let mut depth = 7;
    let mut bounces = 0;
    loop {
        match ray_color(depth, Trace::Scattered) {
            Shade::Bounce { depth: rest } => {
                depth = rest;
                bounces += 1;
            }
            other => {
                assert_eq!(other, Shade::Black);
                break;
            }
        }
    }
    assert_eq!(bounces, 7);
}

#[test]
fn a_followed_ray_may_hit_from_a_thousandth_on() {
    let (t_min, t_max) = reach();
    assert_eq!(f64::from_bits(t_min.to_bits()), 0.001);
    assert_eq!(f64::from_bits(t_max.to_bits()), f64::INFINITY);
}
