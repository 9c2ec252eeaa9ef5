use raytracer::scalar::Scalar;
use raytracer::shapes::plane::{hit_at, parallel, EPSILON};
use raytracer::shapes::sphere::{nearer, roots, valid_radius, Roots};
use raytracer::shapes::Intersection;

fn finite(x: f64) -> Scalar {
    Scalar::from_bits(x.to_bits()).unwrap()
}

#[test]
fn intersects_means_a_hit_at_or_ahead_of_the_origin() {
    assert!(Intersection::Hit(finite(1.0)).intersects());
    assert!(Intersection::Hit(finite(0.0)).intersects());
    assert!(Intersection::Hit(finite(-0.0)).intersects());
    assert!(Intersection::Hit(finite(5.0e-324)).intersects());
    assert!(!Intersection::Hit(finite(-5.0e-324)).intersects());
    assert!(!Intersection::Hit(finite(-1.0)).intersects());
    assert!(!Intersection::Miss.intersects());
}

#[test]
fn radius_must_be_positive() {
    assert!(valid_radius(finite(0.1)));
    assert!(valid_radius(finite(5.0e-324)));
    assert!(!valid_radius(finite(0.0)));
    assert!(!valid_radius(finite(-0.0)));
    assert!(!valid_radius(finite(-0.1)));
}

#[test]
fn negative_discriminant_has_no_root() {
    assert_eq!(roots(finite(-0.04)), Roots::Zero);
    assert_eq!(roots(finite(-5.0e-324)), Roots::Zero);
}

#[test]
fn zero_discriminant_is_the_tangent_case() {
    assert_eq!(roots(finite(0.0)), Roots::One);
    assert_eq!(roots(finite(-0.0)), Roots::One);
}

#[test]
fn positive_discriminant_has_two_roots() {
    assert_eq!(roots(finite(0.04)), Roots::Two);
    assert_eq!(roots(finite(5.0e-324)), Roots::Two);
}

#[test]
fn nearer_is_the_smaller_root_in_either_order() {
    assert_eq!(nearer(finite(2.1), finite(1.9)), Intersection::Hit(finite(1.9)));
    assert_eq!(nearer(finite(1.9), finite(2.1)), Intersection::Hit(finite(1.9)));
}

#[test]
fn nearer_keeps_negative_roots() {
    assert_eq!(nearer(finite(-1.9), finite(-2.1)), Intersection::Hit(finite(-2.1)));
    assert_eq!(nearer(finite(-0.5), finite(0.5)), Intersection::Hit(finite(-0.5)));
}

#[test]
fn sphere_roots_of_a_ray_through_the_centre() {
    // Ray from (0, 0, -1) along (0, 0, 1); sphere at (0, 0, 1) of radius 0.1.
    let (px, py, pz) = (0.0f64, 0.0f64, -2.0f64);
    let (dx, dy, dz) = (0.0f64, 0.0f64, 1.0f64);
    let radius = 0.1f64;
    let a = dx * dx + dy * dy + dz * dz;
    let b = 2.0 * (px * dx + py * dy + pz * dz);
    let c = px * px + py * py + pz * pz - radius * radius;
    let discriminant = b * b - 4.0 * a * c;
    assert_eq!(roots(finite(discriminant)), Roots::Two);
    let t1 = (-b + discriminant.sqrt()) / (2.0 * a);
    let t2 = (-b - discriminant.sqrt()) / (2.0 * a);
    let hit = nearer(finite(t1), finite(t2));
    assert_eq!(hit, Intersection::Hit(finite(t2)));
    match hit {
        Intersection::Hit(t) => {
            let t = f64::from_bits(t.to_bits());
            assert!((t - 1.9).abs() < 1.0e-9);
        }
        Intersection::Miss => panic!("the ray runs through the sphere"),
    }
}

#[test]
fn epsilon_is_the_gap_above_one() {
    assert_eq!(EPSILON, f64::EPSILON.to_bits());
}

#[test]
fn parallel_means_a_denominator_within_epsilon_of_zero() {
    assert!(parallel(finite(0.0)));
    assert!(parallel(finite(-0.0)));
    assert!(parallel(finite(1.0e-17)));
    assert!(parallel(finite(-1.0e-17)));
    assert!(parallel(finite(f64::from_bits(EPSILON - 1))));
    assert!(!parallel(finite(f64::EPSILON)));
    assert!(!parallel(finite(-f64::EPSILON)));
    assert!(!parallel(finite(1.0)));
    assert!(!parallel(finite(-1.0)));
}

#[test]
fn plane_behind_or_at_the_origin_is_a_miss() {
    assert_eq!(hit_at(finite(-2.0)), Intersection::Miss);
    assert_eq!(hit_at(finite(0.0)), Intersection::Miss);
    assert_eq!(hit_at(finite(-0.0)), Intersection::Miss);
    assert_eq!(hit_at(finite(1.0e-17)), Intersection::Miss);
    assert_eq!(hit_at(finite(f64::from_bits(EPSILON - 1))), Intersection::Miss);
}

#[test]
fn plane_ahead_of_the_origin_is_a_hit() {
    assert_eq!(hit_at(finite(f64::EPSILON)), Intersection::Hit(finite(f64::EPSILON)));
    assert_eq!(hit_at(finite(2.0)), Intersection::Hit(finite(2.0)));
}

#[test]
fn plane_facing_the_ray_is_hit_at_its_distance() {
    // Ray from (0, 0, -1) along (0, 0, 1); plane through (0, 0, 1), normal (0, 0, 1).
    let (qx, qy, qz) = (0.0f64, 0.0f64, -1.0f64);
    let (dx, dy, dz) = (0.0f64, 0.0f64, 1.0f64);
    let (ox, oy, oz) = (0.0f64, 0.0f64, 1.0f64);
    let (nx, ny, nz) = (0.0f64, 0.0f64, 1.0f64);
    let denominator = nx * dx + ny * dy + nz * dz;
    assert!(!parallel(finite(denominator)));
    let t = ((ox - qx) * nx + (oy - qy) * ny + (oz - qz) * nz) / denominator;
    assert_eq!(hit_at(finite(t)), Intersection::Hit(finite(2.0)));
}

#[test]
fn ray_along_the_plane_is_parallel() {
    let (dx, dy, dz) = (1.0f64, 0.0f64, 0.0f64);
    let (nx, ny, nz) = (0.0f64, 0.0f64, 1.0f64);
    assert!(parallel(finite(nx * dx + ny * dy + nz * dz)));
}

#[test]
fn sphere_hit_lies_on_the_sphere() {
    // Rays from (0.3, -0.2, -1) along several unit directions; sphere at
    // (0.1, 0.2, 1.5) of radius 0.75.
    let (qx, qy, qz) = (0.3f64, -0.2f64, -1.0f64);
    let (cx, cy, cz) = (0.1f64, 0.2f64, 1.5f64);
    let radius = 0.75f64;
    let mut struck = 0;
    for (ux, uy, uz) in [(0.0f64, 0.0f64, 1.0f64), (-0.1, 0.2, 1.0), (0.1, 0.3, 1.0), (1.0, 0.0, 0.0)] {
        let length = (ux * ux + uy * uy + uz * uz).sqrt();
        let (dx, dy, dz) = (ux / length, uy / length, uz / length);
        let (px, py, pz) = (qx - cx, qy - cy, qz - cz);
        let a = dx * dx + dy * dy + dz * dz;
        let b = 2.0 * (px * dx + py * dy + pz * dz);
        let c = px * px + py * py + pz * pz - radius * radius;
        let discriminant = b * b - 4.0 * a * c;
        let hit = match roots(finite(discriminant)) {
            Roots::Zero => Intersection::Miss,
            Roots::One => Intersection::Hit(finite(-b / (2.0 * a))),
            Roots::Two => nearer(
                finite((-b + discriminant.sqrt()) / (2.0 * a)),
                finite((-b - discriminant.sqrt()) / (2.0 * a)),
            ),
        };
        if let Intersection::Hit(t) = hit {
            let t = f64::from_bits(t.to_bits());
            let (x, y, z) = (qx + t * dx, qy + t * dy, qz + t * dz);
            let distance = ((x - cx).powi(2) + (y - cy).powi(2) + (z - cz).powi(2)).sqrt();
            assert!((distance - radius).abs() < 1.0e-9);
            struck += 1;
        }
    }
    assert_eq!(struck, 3);
}

#[test]
fn plane_hit_lies_in_the_plane() {
    // Rays from (0.3, -0.2, -1) along several unit directions; plane through
    // (0, 0, 1) facing along (0.6, 0, 0.8).
    let (qx, qy, qz) = (0.3f64, -0.2f64, -1.0f64);
    let (ox, oy, oz) = (0.0f64, 0.0f64, 1.0f64);
    let (nx, ny, nz) = (0.6f64, 0.0f64, 0.8f64);
    let mut struck = 0;
    for (ux, uy, uz) in [(0.0f64, 0.0f64, 1.0f64), (-0.1, 0.2, 1.0), (0.0, 0.0, -1.0), (0.8, 0.0, -0.6)] {
        let length = (ux * ux + uy * uy + uz * uz).sqrt();
        let (dx, dy, dz) = (ux / length, uy / length, uz / length);
        let denominator = nx * dx + ny * dy + nz * dz;
        if parallel(finite(denominator)) {
            continue;
        }
        let t = ((ox - qx) * nx + (oy - qy) * ny + (oz - qz) * nz) / denominator;
        if let Intersection::Hit(t) = hit_at(finite(t)) {
            let t = f64::from_bits(t.to_bits());
            let (x, y, z) = (qx + t * dx, qy + t * dy, qz + t * dz);
            let offset = nx * (x - ox) + ny * (y - oy) + nz * (z - oz);
            assert!(offset.abs() < 1.0e-9);
            struck += 1;
        }
    }
    assert_eq!(struck, 2);
}

#[test]
fn tangent_ray_has_one_root() {
    // Ray from (1, 0, -2) along (0, 0, 1) grazes the unit sphere at the origin.
    let (px, py, pz) = (1.0f64, 0.0f64, -2.0f64);
    let (dx, dy, dz) = (0.0f64, 0.0f64, 1.0f64);
    let a = dx * dx + dy * dy + dz * dz;
    let b = 2.0 * (px * dx + py * dy + pz * dz);
    let c = px * px + py * py + pz * pz - 1.0;
    let discriminant = b * b - 4.0 * a * c;
    assert_eq!(roots(finite(discriminant)), Roots::One);
    let t1 = (-b + discriminant.sqrt()) / (2.0 * a);
    let t2 = (-b - discriminant.sqrt()) / (2.0 * a);
    assert_eq!(t1, t2);
    assert_eq!(nearer(finite(t1), finite(t2)), Intersection::Hit(finite(2.0)));
}
