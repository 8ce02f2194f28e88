use raytracer::scalar::Scalar;
use raytracer::sphere::near_root;

fn s(x: f32) -> Scalar {
    Scalar::from_bits(x.to_bits())
}

// The discriminant and the smaller root of the ray's quadratic, computed as
// a renderer would.
fn quadratic(origin: [f32; 3], direction: [f32; 3], center: [f32; 3], radius: f32) -> (f32, f32) {
    let oc = [origin[0] - center[0], origin[1] - center[1], origin[2] - center[2]];
    let dot = |p: [f32; 3], q: [f32; 3]| p[0] * q[0] + p[1] * q[1] + p[2] * q[2];
    let a = dot(direction, direction);
    let b = 2.0 * dot(oc, direction);
    let c = dot(oc, oc) - radius.powi(2);
    let discriminant = b.powi(2) - 4.0 * a * c;
    (discriminant, (-b - discriminant.sqrt()) / (2.0 * a))
}

fn hit(origin: [f32; 3], direction: [f32; 3], center: [f32; 3], radius: f32) -> Option<f32> {
    let (discriminant, near) = quadratic(origin, direction, center, radius);
    near_root(s(discriminant), s(near)).map(|t| f32::from_bits(t.to_bits()))
}

#[test]
fn ray_at_the_centre_hits_at_distance_less_radius() {
    assert_eq!(hit([0.0, 0.0, 5.0], [0.0, 0.0, -1.0], [0.0, 0.0, 0.0], 1.0), Some(4.0));
    assert_eq!(hit([0.0, 0.0, 10.0], [0.0, 0.0, -1.0], [0.0, 0.0, 0.0], 3.0), Some(7.0));
    assert_eq!(hit([-8.0, 2.0, 1.0], [1.0, 0.0, 0.0], [0.0, 2.0, 1.0], 2.0), Some(6.0));
}

#[test]
fn ray_aimed_away_misses() {
    assert_eq!(hit([0.0, 0.0, 5.0], [0.0, 0.0, 1.0], [0.0, 0.0, 0.0], 1.0), None);
    assert_eq!(hit([0.0, 0.0, 5.0], [0.0, 1.0, 0.0], [0.0, 0.0, 0.0], 1.0), None);
}

#[test]
fn ray_from_inside_misses() {
    assert_eq!(hit([0.0, 0.0, 0.0], [0.0, 0.0, -1.0], [0.0, 0.0, 0.0], 1.0), None);
    assert_eq!(hit([0.5, 0.0, 0.0], [1.0, 0.0, 0.0], [0.0, 0.0, 0.0], 1.0), None);
}

#[test]
fn tangent_ray_misses() {
    let (discriminant, _) = quadratic([1.0, 0.0, 5.0], [0.0, 0.0, -1.0], [0.0, 0.0, 0.0], 1.0);
    assert_eq!(discriminant, 0.0);
    assert_eq!(hit([1.0, 0.0, 5.0], [0.0, 0.0, -1.0], [0.0, 0.0, 0.0], 1.0), None);
}

#[test]
fn near_root_wants_both_positive() {
    assert_eq!(near_root(s(4.0), s(2.0)), Some(s(2.0)));
    assert_eq!(near_root(s(4.0), s(0.0)), None);
    assert_eq!(near_root(s(4.0), s(-2.0)), None);
    assert_eq!(near_root(s(0.0), s(2.0)), None);
    assert_eq!(near_root(s(-4.0), s(2.0)), None);
    assert_eq!(near_root(s(-4.0), s(f32::NAN)), None);
    assert_eq!(near_root(s(4.0), s(f32::NAN)), None);
    assert_eq!(near_root(s(f32::NAN), s(2.0)), None);
    assert_eq!(near_root(s(f32::MIN_POSITIVE), s(f32::MIN_POSITIVE)), Some(s(f32::MIN_POSITIVE)));
}
