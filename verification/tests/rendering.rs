use raytracer::framebuffer::FrameBuffer;
use raytracer::geometry::{Object, Plane, Sphere};
use raytracer::lighting::{Light, Material};
use raytracer::render::{
    background, biased_origin, cast_ray, primary_direction, quantize, reflect, refract, render,
    render_pixel, scene_intersect, HEIGHT, WIDTH,
};
use raytracer::scalar::Scalar;
use raytracer::vector::{Vec3, Vec4};
use std::ops::{Add, Div, Mul, Neg, Sub};

/// Single-precision floats as the renderer's number type.
#[derive(Clone, Copy, Debug, Default, PartialEq, PartialOrd)]
struct F(f32);

impl Add for F {
    type Output = F;
    fn add(self, rhs: F) -> F {
        F(self.0 + rhs.0)
    }
}

impl Sub for F {
    type Output = F;
    fn sub(self, rhs: F) -> F {
        F(self.0 - rhs.0)
    }
}

impl Mul for F {
    type Output = F;
    fn mul(self, rhs: F) -> F {
        F(self.0 * rhs.0)
    }
}

impl Div for F {
    type Output = F;
    fn div(self, rhs: F) -> F {
        F(self.0 / rhs.0)
    }
}

impl Neg for F {
    type Output = F;
    fn neg(self) -> F {
        F(-self.0)
    }
}

impl Scalar for F {
    fn ratio(num: u32, den: u32) -> F {
        F(num as f32 / den as f32)
    }
    fn infinity() -> F {
        F(f32::INFINITY)
    }
    fn pi() -> F {
        F(std::f32::consts::PI)
    }
    fn sqrt(self) -> F {
        F(self.0.sqrt())
    }
    fn powi(self, n: i32) -> F {
        F(self.0.powi(n))
    }
    fn powf(self, n: F) -> F {
        F(self.0.powf(n.0))
    }
    fn abs(self) -> F {
        F(self.0.abs())
    }
    fn max(self, other: F) -> F {
        F(self.0.max(other.0))
    }
    fn min(self, other: F) -> F {
        F(self.0.min(other.0))
    }
    fn tan(self) -> F {
        F(self.0.tan())
    }
    fn to_u8(self) -> u8 {
        self.0 as u8
    }
}

fn v(x: f32, y: f32, z: f32) -> Vec3<F> {
    Vec3::new(F(x), F(y), F(z))
}

/// A material from its colour, its albedo as `(x, y, z, w)`, its specular
/// exponent and its refractive index.
fn material(
    color: (f32, f32, f32),
    albedo: (f32, f32, f32, f32),
    exp: f32,
    idx: f32,
) -> Material<F> {
    Material::new(
        v(color.0, color.1, color.2),
        Vec4::new(F(albedo.0), F(albedo.1), F(albedo.2), F(albedo.3)),
        F(exp),
        F(idx),
    )
}

fn ivory() -> Material<F> {
    material((0.4, 0.4, 0.3), (0.3, 0.4, 0.0, 0.6), 50.0, 1.0)
}

fn red_rubber() -> Material<F> {
    material((0.3, 0.1, 0.1), (0.1, 0.0, 0.0, 0.9), 10.0, 1.0)
}

fn mirror() -> Material<F> {
    material((1.0, 1.0, 1.0), (10.0, 0.8, 0.0, 0.0), 1425.0, 1.0)
}

fn glass() -> Material<F> {
    material((0.6, 0.7, 0.8), (0.5, 0.1, 0.8, 0.0), 125.0, 1.5)
}

fn matte(color: (f32, f32, f32)) -> Material<F> {
    material(color, (0.0, 0.0, 0.0, 1.0), 1.0, 1.0)
}

fn sphere(center: (f32, f32, f32), radius: f32, material: Material<F>) -> Box<dyn Object<F>> {
    Box::new(Sphere { center: v(center.0, center.1, center.2), radius: F(radius), material })
}

/// Five spheres over the floor, under two lights.
fn still_life() -> (Vec<Box<dyn Object<F>>>, Vec<Light<F>>) {
    let objects: Vec<Box<dyn Object<F>>> = vec![
        sphere((-3.0, 0.0, -16.0), 2.0, ivory()),
        sphere((-1.0, -1.5, -12.0), 2.0, glass()),
        sphere((-1.0, -1.5, -12.0), 2.0, mirror()),
        sphere((1.5, -0.5, -18.0), 3.0, red_rubber()),
        sphere((7.0, 5.0, -18.0), 4.0, mirror()),
        Box::new(Plane { center: v(0.0, 0.0, 0.0), material: red_rubber() }),
    ];
    let lights = vec![
        Light { position: v(-20.0, 20.0, 20.0), intensity: F(1.5) },
        Light { position: v(30.0, 50.0, -25.0), intensity: F(1.8) },
    ];
    (objects, lights)
}

fn close(a: F, b: f32) -> bool {
    (a.0 - b).abs() <= 1e-4
}

#[test]
fn constants_are_the_nearest_floats() {
    assert_eq!(F::ratio(1, 1000), F(1e-3));
    assert_eq!(F::ratio(2, 10), F(0.2));
    assert_eq!(F::ratio(7, 10), F(0.7));
    assert_eq!(F::ratio(8, 10), F(0.8));
    assert_eq!(F::ratio(1, 2), F(0.5));
    assert_eq!(F::ratio(1024, 768), F(1024.0 / 768.0));
    assert_eq!(background::<F>(), v(0.2, 0.7, 0.8));
}

#[test]
fn sphere_hit_straight_on_is_distance_less_radius() {
    let s = Sphere { center: v(0.0, 0.0, -10.0), radius: F(2.0), material: ivory() };
    assert_eq!(s.ray_intersect(v(0.0, 0.0, 0.0), v(0.0, 0.0, -1.0)), Some(F(8.0)));

    let s = Sphere { center: v(0.0, 0.0, 0.0), radius: F(1.0), material: ivory() };
    let p = v(3.0, 4.0, 0.0);
    let dir = (s.center - p).normalize();
    let d = s.ray_intersect(p, dir).unwrap();
    assert!(close(d, 4.0), "{:?}", d);

    let s = Sphere { center: v(1.0, -2.0, -7.0), radius: F(0.5), material: ivory() };
    let p = v(-4.0, 3.0, 2.0);
    let dir = (s.center - p).normalize();
    let d = s.ray_intersect(p, dir).unwrap();
    assert!(close(d, (s.center - p).norm().0 - 0.5), "{:?}", d);
}

/// Numbers in `0..1`, the same on every run.
struct Dice(u32);

impl Dice {
    fn next(&mut self) -> f32 {
        self.0 = self.0.wrapping_mul(1664525).wrapping_add(1013904223);
        (self.0 >> 8) as f32 / (1u32 << 24) as f32
    }

    fn direction(&mut self) -> Vec3<F> {
        loop {
            let d = v(2.0 * self.next() - 1.0, 2.0 * self.next() - 1.0, 2.0 * self.next() - 1.0);
            let n = d.norm().0;
            if n > 0.1 && n <= 1.0 {
                return d.normalize();
            }
        }
    }
}

#[test]
fn sphere_hit_head_on_from_anywhere_outside() {
    let mut dice = Dice(1);
    for _ in 0..2000 {
        let center = v(
            200.0 * dice.next() - 100.0,
            200.0 * dice.next() - 100.0,
            200.0 * dice.next() - 100.0,
        );
        let radius = 0.01 + 50.0 * dice.next();
        // Between 1.001 and 100 radii away from the centre.
        let away = radius * (1.001 + 98.999 * dice.next());
        let p = center + dice.direction() * F(away);
        let s = Sphere { center, radius: F(radius), material: ivory() };
        let dir = (center - p).normalize();
        let distance = (center - p).norm().0;
        let t = s.ray_intersect(p, dir).unwrap().0;
        assert!(
            (t - (distance - radius)).abs() <= 1e-4 * distance,
            "{} for {} - {} from {:?} to {:?}",
            t,
            distance,
            radius,
            p,
            center
        );
    }
}

#[test]
fn sphere_normals_are_unit_and_point_outward() {
    let mut dice = Dice(2);
    for _ in 0..2000 {
        let center = v(
            200.0 * dice.next() - 100.0,
            200.0 * dice.next() - 100.0,
            200.0 * dice.next() - 100.0,
        );
        let radius = 0.01 + 50.0 * dice.next();
        let out = dice.direction();
        let hit = center + out * F(radius);
        let s = Sphere { center, radius: F(radius), material: ivory() };
        let n = s.compute_normal(hit);
        assert!((n.norm().0 - 1.0).abs() <= 1e-6, "{:?}", n);
        // Scaled back to the length of `hit - center` it is `hit - center`.
        let arm = hit - center;
        let back = n * arm.norm();
        let off = (back - arm).norm().0;
        assert!(off <= 1e-5 * arm.norm().0, "{:?} against {:?}", back, arm);
        assert!((n * arm).0 > 0.0);
    }
}

#[test]
fn sphere_missed_when_the_ray_passes_outside_the_radius() {
    let s = Sphere { center: v(0.0, 0.0, -10.0), radius: F(2.0), material: ivory() };
    let o = v(0.0, 0.0, 0.0);
    assert_eq!(s.ray_intersect(o, v(0.0, 1.0, 0.0)), None);
    assert_eq!(s.ray_intersect(o, v(1.0, 0.0, 0.0)), None);
    assert_eq!(s.ray_intersect(o, v(0.3, 0.0, -1.0).normalize()), None);
    assert_eq!(s.ray_intersect(v(2.5, 0.0, 0.0), v(0.0, 0.0, -1.0)), None);
    assert_eq!(s.ray_intersect(v(0.0, -2.01, 0.0), v(0.0, 0.0, -1.0)), None);
    assert_eq!(s.ray_intersect(v(5.0, 5.0, 5.0), v(0.0, 1.0, 0.0)), None);
    // Just inside the radius it is met.
    assert!(s.ray_intersect(v(0.0, -1.99, 0.0), v(0.0, 0.0, -1.0)).is_some());
}

#[test]
fn sphere_behind_the_origin_is_missed() {
    let s = Sphere { center: v(0.0, 0.0, 10.0), radius: F(2.0), material: ivory() };
    assert_eq!(s.ray_intersect(v(0.0, 0.0, 0.0), v(0.0, 0.0, -1.0)), None);
}

#[test]
fn sphere_met_from_inside_at_the_far_root() {
    let s = Sphere { center: v(0.0, 0.0, 0.0), radius: F(2.0), material: ivory() };
    assert_eq!(s.ray_intersect(v(0.0, 0.0, 0.0), v(0.0, 0.0, -1.0)), Some(F(2.0)));
    assert_eq!(s.ray_intersect(v(0.0, 0.0, -1.0), v(0.0, 0.0, -1.0)), Some(F(1.0)));
    assert_eq!(s.ray_intersect(v(0.0, 0.0, -1.0), v(0.0, 0.0, 1.0)), Some(F(3.0)));
}

#[test]
fn sphere_is_not_met_at_distance_zero() {
    let s = Sphere { center: v(0.0, 0.0, -2.0), radius: F(1.0), material: ivory() };
    // From a point of the sphere, away from it: the roots are -2 and 0.
    assert_eq!(s.ray_intersect(v(0.0, 0.0, -1.0), v(0.0, 0.0, 1.0)), None);
    assert_eq!(s.ray_intersect(v(0.0, 0.0, -3.0), v(0.0, 0.0, -1.0)), None);
    // From a point of the sphere, through it: the roots are 0 and 2.
    assert_eq!(s.ray_intersect(v(0.0, 0.0, -1.0), v(0.0, 0.0, -1.0)), Some(F(2.0)));
    assert_eq!(s.ray_intersect(v(0.0, 0.0, -3.0), v(0.0, 0.0, 1.0)), Some(F(2.0)));
    // A point alone, met where the ray starts.
    let p = Sphere { center: v(0.0, 0.0, 0.0), radius: F(0.0), material: ivory() };
    assert_eq!(p.ray_intersect(v(0.0, 0.0, 0.0), v(0.0, 0.0, -1.0)), None);
}

#[test]
fn every_distance_met_is_above_zero() {
    let (objects, _) = still_life();
    let origins =
        [v(0.0, 0.0, 0.0), v(-1.0, -1.5, -12.0), v(1.5, -0.5, -15.0), v(0.0, -4.0, -20.0)];
    for o in origins {
        for k in 0..200 {
            let a = k as f32 * 0.37;
            let b = k as f32 * 0.11;
            let dir = v(a.sin() * b.cos(), b.sin(), -a.cos() * b.cos());
            for object in objects.iter() {
                if let Some(d) = object.ray_intersect(o, dir) {
                    assert!(d.0 > 0.0, "{:?} from {:?} along {:?}", d, o, dir);
                }
            }
        }
    }
}

#[test]
fn sphere_grazed_at_the_radius_is_met() {
    let s = Sphere { center: v(0.0, 0.0, -10.0), radius: F(2.0), material: ivory() };
    assert_eq!(s.ray_intersect(v(2.0, 0.0, 0.0), v(0.0, 0.0, -1.0)), Some(F(10.0)));
}

#[test]
fn sphere_of_radius_zero_is_a_point() {
    let s = Sphere { center: v(0.0, 0.0, -3.0), radius: F(0.0), material: ivory() };
    assert_eq!(s.ray_intersect(v(0.0, 0.0, 0.0), v(0.0, 0.0, -1.0)), Some(F(3.0)));
    assert_eq!(s.ray_intersect(v(0.0, 0.1, 0.0), v(0.0, 0.0, -1.0)), None);
}

#[test]
fn normals_have_length_one() {
    let s = Sphere { center: v(1.0, -2.0, -7.0), radius: F(3.0), material: ivory() };
    for hit in [v(4.0, -2.0, -7.0), v(1.0, 1.0, -7.0), v(2.0, -1.0, -5.0), v(-0.5, -3.5, -9.0)] {
        let n = s.compute_normal(hit);
        assert!(close(n.norm(), 1.0), "{:?}", n);
    }
    assert_eq!(s.compute_normal(v(4.0, -2.0, -7.0)), v(1.0, 0.0, 0.0));

    let p = Plane { center: v(0.0, 0.0, 0.0), material: red_rubber() };
    for hit in [v(0.0, -4.0, -20.0), v(9.0, -4.0, -11.0), v(100.0, 3.0, 7.0)] {
        let n = p.compute_normal(hit);
        assert_eq!(n, v(0.0, 1.0, 0.0));
        assert_eq!(n.norm(), F(1.0));
    }
}

#[test]
fn surfaces_hand_out_their_material() {
    let s = Sphere { center: v(0.0, 0.0, 0.0), radius: F(1.0), material: glass() };
    assert_eq!(s.get_material(), glass());
    let p = Plane { center: v(0.0, 0.0, 0.0), material: red_rubber() };
    assert_eq!(p.get_material(), red_rubber());
}

#[test]
fn floor_is_met_over_its_tile() {
    let p = Plane { center: v(0.0, 0.0, 0.0), material: red_rubber() };
    let down = v(0.0, -1.0, 0.0);
    assert_eq!(p.ray_intersect(v(0.0, 0.0, -20.0), down), Some(F(4.0)));
    assert_eq!(p.ray_intersect(v(9.5, 1.0, -10.5), down), Some(F(5.0)));
    assert_eq!(p.ray_intersect(v(-9.5, -3.0, -29.5), down), Some(F(1.0)));
    // From below, looking up.
    assert_eq!(p.ray_intersect(v(0.0, -6.0, -20.0), v(0.0, 1.0, 0.0)), Some(F(2.0)));
    // Slanted: from the origin towards (0, -4, -16).
    let dir = v(0.0, -4.0, -16.0).normalize();
    let d = p.ray_intersect(v(0.0, 0.0, 0.0), dir).unwrap();
    assert!(close(d, (4.0f32 * 4.0 + 16.0 * 16.0).sqrt()), "{:?}", d);
}

#[test]
fn floor_is_missed_at_and_beyond_the_edges_of_its_tile() {
    let p = Plane { center: v(0.0, 0.0, 0.0), material: red_rubber() };
    let down = v(0.0, -1.0, 0.0);
    assert_eq!(p.ray_intersect(v(10.0, 0.0, -20.0), down), None);
    assert_eq!(p.ray_intersect(v(-10.0, 0.0, -20.0), down), None);
    assert_eq!(p.ray_intersect(v(10.5, 0.0, -20.0), down), None);
    assert_eq!(p.ray_intersect(v(-300.0, 0.0, -20.0), down), None);
    assert_eq!(p.ray_intersect(v(0.0, 0.0, -10.0), down), None);
    assert_eq!(p.ray_intersect(v(0.0, 0.0, -9.0), down), None);
    assert_eq!(p.ray_intersect(v(0.0, 0.0, 5.0), down), None);
    assert_eq!(p.ray_intersect(v(0.0, 0.0, -30.0), down), None);
    assert_eq!(p.ray_intersect(v(0.0, 0.0, -31.0), down), None);
}

#[test]
fn floor_is_missed_by_rays_that_run_along_it_or_away_from_it() {
    let p = Plane { center: v(0.0, 0.0, 0.0), material: red_rubber() };
    let o = v(0.0, 0.0, -20.0);
    assert_eq!(p.ray_intersect(o, v(0.0, 0.0, -1.0)), None);
    assert_eq!(p.ray_intersect(o, v(0.0, 1e-3, -1.0)), None);
    assert_eq!(p.ray_intersect(o, v(0.0, -1e-3, -1.0)), None);
    assert_eq!(p.ray_intersect(o, v(0.0, 1.0, 0.0)), None);
    // On the floor itself the distance is zero, which is not ahead.
    assert_eq!(p.ray_intersect(v(0.0, -4.0, -20.0), v(0.0, -1.0, 0.0)), None);
}

#[test]
fn nearest_surface_is_met_whatever_the_order() {
    let near = sphere((0.0, 0.0, -5.0), 1.0, ivory());
    let far = sphere((0.0, 0.0, -10.0), 1.0, glass());
    let o = v(0.0, 0.0, 0.0);
    let d = v(0.0, 0.0, -1.0);
    let (m, n, p) = scene_intersect(o, d, &[near, far]).unwrap();
    assert_eq!((m, n, p), (ivory(), v(0.0, 0.0, 1.0), v(0.0, 0.0, -4.0)));
    let near = sphere((0.0, 0.0, -5.0), 1.0, ivory());
    let far = sphere((0.0, 0.0, -10.0), 1.0, glass());
    let (m, n, p) = scene_intersect(o, d, &[far, near]).unwrap();
    assert_eq!((m, n, p), (ivory(), v(0.0, 0.0, 1.0), v(0.0, 0.0, -4.0)));
}

#[test]
fn first_of_two_surfaces_at_one_distance_is_met() {
    let o = v(0.0, 0.0, 0.0);
    let d = v(0.0, 0.0, -1.0);
    let a = sphere((0.0, 0.0, -5.0), 1.0, glass());
    let b = sphere((0.0, 0.0, -5.0), 1.0, mirror());
    assert_eq!(scene_intersect(o, d, &[a, b]).unwrap().0, glass());
    let a = sphere((0.0, 0.0, -5.0), 1.0, glass());
    let b = sphere((0.0, 0.0, -5.0), 1.0, mirror());
    assert_eq!(scene_intersect(o, d, &[b, a]).unwrap().0, mirror());
}

#[test]
fn nothing_is_met_in_an_empty_scene_or_past_every_surface() {
    let o = v(0.0, 0.0, 0.0);
    assert_eq!(scene_intersect(o, v(0.0, 0.0, -1.0), &[]), None);
    let (objects, _) = still_life();
    assert_eq!(scene_intersect(o, v(0.0, 0.0, 1.0), &objects), None);
    assert_eq!(scene_intersect(o, v(0.0, 1.0, 0.0), &objects), None);
}

#[test]
fn a_ray_from_what_is_not_a_number_meets_nothing() {
    let o = v(f32::NAN, 0.0, 0.0);
    let d = v(0.0, 0.0, -1.0);
    let s = Sphere { center: v(0.0, 0.0, -5.0), radius: F(1.0), material: ivory() };
    assert_eq!(s.ray_intersect(o, d), None);
    assert_eq!(scene_intersect(o, d, &[sphere((0.0, 0.0, -5.0), 1.0, ivory())]), None);
    let (objects, _) = still_life();
    assert_eq!(scene_intersect(o, d, &objects), None);
}

#[test]
fn reflect_mirrors_at_the_normal() {
    assert_eq!(reflect(v(1.0, -1.0, 0.0), v(0.0, 1.0, 0.0)), v(1.0, 1.0, 0.0));
    assert_eq!(reflect(v(0.0, 0.0, -1.0), v(0.0, 0.0, 1.0)), v(0.0, 0.0, 1.0));
    assert_eq!(reflect(v(1.0, 0.0, 0.0), v(0.0, 1.0, 0.0)), v(1.0, 0.0, 0.0));
}

#[test]
fn refract_goes_straight_where_the_indices_are_equal() {
    assert_eq!(refract(v(0.0, 0.0, -1.0), v(0.0, 0.0, 1.0), F(1.0)), v(0.0, 0.0, -1.0));
    let i = v(0.6, 0.0, -0.8);
    let r = refract(i, v(0.0, 0.0, 1.0), F(1.0));
    assert!(close(r.x, 0.6) && close(r.y, 0.0) && close(r.z, -0.8), "{:?}", r);
}

#[test]
fn refract_bends_by_the_ratio_of_the_indices() {
    // The ray runs against the normal, so the cosine is positive: 1 over 1.5.
    let i = v(0.6, 0.0, -0.8);
    let r = refract(i, v(0.0, 0.0, 1.0), F(1.5));
    let eta = 1.0f32 / 1.5;
    let k = 1.0 - eta * eta * (1.0 - 0.8f32 * 0.8);
    assert!(close(r.x, 0.6 * eta), "{:?}", r);
    assert!(close(r.z, -0.8 * eta + (eta * 0.8 - k.sqrt())), "{:?}", r);
    // The ray runs with the normal: the cosine is negative, the normal is
    // flipped and 1.5 stands over 1.
    let r = refract(v(0.0, 0.0, 1.0), v(0.0, 0.0, 1.0), F(1.5));
    assert_eq!(r, v(0.0, 0.0, 1.0));
}

#[test]
fn refract_gives_the_zero_vector_where_no_ray_passes() {
    // With the normal and at a flat angle: eta is 1.5 and the term under
    // the root is negative.
    let i = v(0.8, 0.0, 0.6);
    assert_eq!(refract(i, v(0.0, 0.0, 1.0), F(1.5)), v(0.0, 0.0, 0.0));
}

#[test]
fn new_origins_are_moved_to_the_side_the_ray_leaves_on() {
    let p = v(1.0, 2.0, 3.0);
    let n = v(0.0, 1.0, 0.0);
    assert_eq!(biased_origin(p, n, v(0.0, 1.0, 0.0)), v(1.0, 2.0 + 1e-3, 3.0));
    assert_eq!(biased_origin(p, n, v(0.0, -1.0, 0.0)), v(1.0, 2.0 - 1e-3, 3.0));
    assert_eq!(biased_origin(p, n, v(1.0, 0.0, 0.0)), v(1.0, 2.0 + 1e-3, 3.0));
}

#[test]
fn cast_ray_beyond_the_depth_limit_is_the_background() {
    let (objects, lights) = still_life();
    let o = v(0.0, 0.0, 0.0);
    // Straight at the glass sphere, into the sky, and at the floor.
    for dir in [v(0.0, 0.0, -1.0), v(0.0, 1.0, 0.0), v(0.0, -4.0, -16.0).normalize()] {
        assert_eq!(cast_ray(o, dir, &objects, &lights, 5), v(0.2, 0.7, 0.8));
        assert_eq!(cast_ray(o, dir, &objects, &lights, 6), v(0.2, 0.7, 0.8));
        assert_eq!(cast_ray(o, dir, &objects, &lights, usize::MAX), v(0.2, 0.7, 0.8));
    }
    // At the limit itself a surface is still shaded.
    assert!(cast_ray(o, v(0.0, 0.0, -1.0), &objects, &lights, 4) != v(0.2, 0.7, 0.8));
}

#[test]
fn cast_ray_into_the_sky_is_the_background() {
    let (objects, lights) = still_life();
    let o = v(0.0, 0.0, 0.0);
    assert_eq!(cast_ray(o, v(0.0, 1.0, 0.0), &objects, &lights, 0), v(0.2, 0.7, 0.8));
    assert_eq!(cast_ray(o, v(0.0, 0.0, -1.0), &[], &lights, 0), v(0.2, 0.7, 0.8));
}

#[test]
fn matte_sphere_is_lit_by_the_cosine_of_the_light() {
    // A matte white sphere seen head on, lit from where the eye is: the
    // light falls along the normal, so the diffuse sum is the intensity.
    let objects = vec![sphere((0.0, 0.0, -10.0), 2.0, matte((1.0, 0.5, 0.25)))];
    let lights = vec![Light { position: v(0.0, 0.0, 0.0), intensity: F(0.5) }];
    let c = cast_ray(v(0.0, 0.0, 0.0), v(0.0, 0.0, -1.0), &objects, &lights, 0);
    assert!(close(c.x, 0.5) && close(c.y, 0.25) && close(c.z, 0.125), "{:?}", c);
}

#[test]
fn albedo_slots_are_x_y_z_w() {
    let m = material((0.0, 0.0, 0.0), (1.0, 2.0, 3.0, 4.0), 5.0, 6.0);
    assert_eq!((m.albedo.x, m.albedo.y, m.albedo.z, m.albedo.w), (F(1.0), F(2.0), F(3.0), F(4.0)));
    assert_eq!((m.specular_exp, m.refractive_idx), (F(5.0), F(6.0)));
}

#[test]
fn weights_are_read_from_the_albedo_in_its_own_order() {
    // Only the specular weight is set: the colour is one number on every
    // channel, the specular sum times `x`. Seen and lit head on, the
    // mirrored light direction is against the ray, so the sum is 0 ^ exp.
    let only_x = material((1.0, 1.0, 1.0), (1.0, 0.0, 0.0, 0.0), 0.0, 1.0);
    let objects = vec![sphere((0.0, 0.0, -10.0), 2.0, only_x)];
    let lights = vec![Light { position: v(0.0, 0.0, 0.0), intensity: F(0.5) }];
    let c = cast_ray(v(0.0, 0.0, 0.0), v(0.0, 0.0, -1.0), &objects, &lights, 0);
    // 0 ^ 0 is 1 in floats, times the intensity.
    assert_eq!(c, v(0.5, 0.5, 0.5));

    // Only the reflection weight is set: the mirrored ray leaves the scene
    // and brings the background, times `y`.
    let only_y = material((1.0, 1.0, 1.0), (0.0, 0.5, 0.0, 0.0), 1.0, 1.0);
    let objects = vec![sphere((0.0, 0.0, -10.0), 2.0, only_y)];
    let c = cast_ray(v(0.0, 0.0, 0.0), v(0.0, 0.0, -1.0), &objects, &lights, 0);
    assert_eq!(c, v(0.2 * 0.5, 0.7 * 0.5, 0.8 * 0.5));

    // Only the refraction weight is set, at index 1: the ray goes straight
    // through the sphere and brings the background, times `z`.
    let only_z = material((1.0, 1.0, 1.0), (0.0, 0.0, 0.25, 0.0), 1.0, 1.0);
    let objects = vec![sphere((0.0, 0.0, -10.0), 2.0, only_z)];
    let c = cast_ray(v(0.0, 0.0, 0.0), v(0.0, 0.0, -1.0), &objects, &lights, 0);
    assert!(close(c.x, 0.2 * 0.25 * 0.25), "{:?}", c);
}

#[test]
fn a_sphere_between_light_and_point_takes_the_light_away() {
    // The eye looks down -z at a matte sphere and sees the point
    // (0, 0, -8), whose normal points back at the eye.
    let target = || sphere((0.0, 0.0, -10.0), 2.0, matte((1.0, 1.0, 1.0)));
    // One light up and towards the eye, one mirrored below.
    let above = Light { position: v(0.0, 8.0, 0.0), intensity: F(1.0) };
    let below = Light { position: v(0.0, -8.0, 0.0), intensity: F(0.5) };
    // Half way between the point and the upper light, off the eye's ray.
    let blocker = || sphere((0.0, 4.0, -4.0), 1.0, matte((1.0, 1.0, 1.0)));
    let o = v(0.0, 0.0, 0.0);
    let d = v(0.0, 0.0, -1.0);
    let cosine = (0.5f32).sqrt();

    let open = cast_ray(o, d, &[target()], &[above], 0);
    assert!(close(open.x, cosine), "{:?}", open);

    let blocked = cast_ray(o, d, &[target(), blocker()], &[above], 0);
    assert_eq!(blocked, v(0.0, 0.0, 0.0));

    let both = cast_ray(o, d, &[target(), blocker()], &[above, below], 0);
    let lower_only = cast_ray(o, d, &[target()], &[below], 0);
    assert_eq!(both, lower_only);
    assert!(close(both.x, 0.5 * cosine), "{:?}", both);

    // A blocker behind the light takes nothing away.
    let behind = sphere((0.0, 12.0, 4.0), 1.0, matte((1.0, 1.0, 1.0)));
    assert_eq!(cast_ray(o, d, &[target(), behind], &[above], 0), open);
}

#[test]
fn channels_are_held_to_the_unit_range_and_cut_to_bytes() {
    assert_eq!(quantize(F(0.0)), 0);
    assert_eq!(quantize(F(0.2)), 51);
    assert_eq!(quantize(F(0.7)), 178);
    assert_eq!(quantize(F(0.8)), 204);
    assert_eq!(quantize(F(0.999)), 254);
    assert_eq!(quantize(F(1.0)), 255);
    assert_eq!(quantize(F(17.5)), 255);
    assert_eq!(quantize(F(-0.3)), 0);
    assert_eq!(quantize(F(f32::INFINITY)), 255);
    assert_eq!(quantize(F(f32::NEG_INFINITY)), 0);
    // What is not a number is held to the upper end.
    assert_eq!(quantize(F(f32::NAN)), 255);
}

#[test]
fn primary_rays_fan_out_from_the_negative_z_axis() {
    let c = primary_direction::<F>(512, 384);
    let x = (2.0 * (512.0f32 + 0.5) / 1024.0 - 1.0) * (1024.0f32 / 768.0);
    let y = -(2.0 * (384.0f32 + 0.5) / 768.0 - 1.0);
    let len = (x * x + y * y + 1.0).sqrt();
    assert_eq!(c, v(x / len, y / len, -1.0 / len));
    assert!(c.x.0 > 0.0 && c.y.0 < 0.0 && c.z.0 < -0.999);

    let tl = primary_direction::<F>(0, 0);
    assert!(tl.x.0 < 0.0 && tl.y.0 > 0.0 && tl.z.0 < 0.0);
    let br = primary_direction::<F>(WIDTH - 1, HEIGHT - 1);
    assert!(close(br.x, -tl.x.0) && close(br.y, -tl.y.0) && close(br.z, tl.z.0), "{:?}", br);
    assert!(close(tl.norm(), 1.0));
}

#[test]
fn still_life_shows_its_known_pixels() {
    let (objects, lights) = still_life();
    // The middle of the picture shows the glass sphere.
    assert_eq!(render_pixel(&objects, &lights, 512, 384), Vec3::new(41, 38, 42));
    let dir = primary_direction::<F>(512, 384);
    let c = cast_ray(Vec3::id(), dir, &objects, &lights, 0);
    assert!(close(c.x, 0.16290979) && close(c.y, 0.15001544) && close(c.z, 0.16512746), "{:?}", c);
    // Sky, the red sphere, a mirror, and the glass sphere's rim.
    assert_eq!(render_pixel(&objects, &lights, 0, 0), Vec3::new(51, 178, 204));
    assert_eq!(render_pixel(&objects, &lights, 1023, 767), Vec3::new(51, 178, 204));
    assert_eq!(render_pixel(&objects, &lights, 600, 400), Vec3::new(13, 4, 4));
    assert_eq!(render_pixel(&objects, &lights, 700, 200), Vec3::new(40, 142, 163));
    assert_eq!(render_pixel(&objects, &lights, 450, 384), Vec3::new(8, 30, 34));
    assert_eq!(render_pixel(&objects, &lights, 512, 450), Vec3::new(41, 143, 164));
}

#[test]
fn still_life_renders_to_a_pixmap() {
    let (objects, lights) = still_life();
    let mut picture = FrameBuffer::new(WIDTH, HEIGHT);
    render(&objects, &lights, &mut picture);
    let bytes = picture.to_ppm();
    let header = b"P6\n1024 768\n255\n";
    assert_eq!(&bytes[..header.len()], &header[..]);
    assert_eq!(bytes.len(), header.len() + 1024 * 768 * 3);
    let middle = header.len() + 3 * (512 + 384 * 1024);
    assert_eq!(&bytes[middle..middle + 3], &[41, 38, 42]);
    assert_eq!(picture.get(512 + 384 * WIDTH), Vec3::new(41, 38, 42));
    assert_eq!(picture.get(600 + 400 * WIDTH), Vec3::new(13, 4, 4));
    assert_eq!(picture.get(0), Vec3::new(51, 178, 204));
    assert_eq!(picture.get(WIDTH * HEIGHT - 1), Vec3::new(51, 178, 204));
}

#[test]
fn empty_scene_renders_the_background_everywhere() {
    let lights = vec![Light { position: v(-20.0, 20.0, 20.0), intensity: F(1.5) }];
    let mut picture = FrameBuffer::new(WIDTH, HEIGHT);
    render::<F>(&[], &lights, &mut picture);
    for k in 0..WIDTH * HEIGHT {
        assert_eq!(picture.get(k), Vec3::new(51, 178, 204), "pixel {}", k);
    }
    let mut picture = FrameBuffer::new(WIDTH, HEIGHT);
    render::<F>(&[], &[], &mut picture);
    assert!((0..WIDTH * HEIGHT).all(|k| picture.get(k) == Vec3::new(51, 178, 204)));
}

#[test]
fn rendering_leaves_pixels_past_the_picture_alone() {
    let mut picture = FrameBuffer::new(WIDTH, HEIGHT + 1);
    let marker = Vec3::new(1, 2, 3);
    for k in WIDTH * HEIGHT..WIDTH * (HEIGHT + 1) {
        picture.set(k, marker);
    }
    render::<F>(&[], &[], &mut picture);
    assert_eq!(picture.len(), WIDTH * (HEIGHT + 1));
    assert_eq!(picture.get(WIDTH * HEIGHT - 1), Vec3::new(51, 178, 204));
    for k in WIDTH * HEIGHT..WIDTH * (HEIGHT + 1) {
        assert_eq!(picture.get(k), marker);
    }
}

#[test]
fn vector_norms() {
    assert_eq!(v(3.0, 4.0, 0.0).norm(), F(5.0));
    assert_eq!(v(0.0, 0.0, -2.0).normalize(), v(0.0, 0.0, -1.0));
    assert_eq!(Vec4::new(F(1.0), F(1.0), F(1.0), F(1.0)).norm(), F(2.0));
    assert_eq!(
        Vec4::new(F(2.0), F(0.0), F(0.0), F(0.0)).normalize(),
        Vec4::new(F(1.0), F(0.0), F(0.0), F(0.0))
    );
    // The zero vector has no direction: its components are not numbers.
    let z = v(0.0, 0.0, 0.0).normalize();
    assert!(z.x.0.is_nan() && z.y.0.is_nan() && z.z.0.is_nan());
}

/// A surface that every ray meets at one fixed distance above zero.
struct At(f32, Material<F>);

impl Object<F> for At {
    fn ray_intersect_spec(&self, _orig: Vec3<F>, _dir: Vec3<F>) -> Option<F> {
        unreachable!()
    }

    fn get_material_spec(&self) -> Material<F> {
        unreachable!()
    }

    fn compute_normal_spec(&self, _hit: Vec3<F>) -> Vec3<F> {
        unreachable!()
    }

    fn ray_intersect(&self, _orig: Vec3<F>, _dir: Vec3<F>) -> Option<F> {
        Some(F(self.0))
    }

    fn get_material(&self) -> Material<F> {
        self.1
    }

    fn compute_normal(&self, _hit: Vec3<F>) -> Vec3<F> {
        v(0.0, 0.0, 1.0)
    }
}

fn met(distances: &[(f32, Material<F>)]) -> Option<(Material<F>, Vec3<F>)> {
    let objects: Vec<Box<dyn Object<F>>> =
        distances.iter().map(|&(d, m)| Box::new(At(d, m)) as Box<dyn Object<F>>).collect();
    scene_intersect(v(0.0, 0.0, 0.0), v(0.0, 0.0, -1.0), &objects).map(|(m, _, p)| (m, p))
}

#[test]
fn scan_keeps_the_least_distance_and_the_first_of_equals() {
    assert_eq!(
        met(&[(5.0, ivory()), (3.0, glass()), (4.0, mirror())]),
        Some((glass(), v(0.0, 0.0, -3.0)))
    );
    assert_eq!(
        met(&[(3.0, ivory()), (3.0, glass()), (3.0, mirror())]),
        Some((ivory(), v(0.0, 0.0, -3.0)))
    );
    assert_eq!(
        met(&[(4.0, ivory()), (2.0, glass()), (2.0, mirror()), (9.0, ivory())]),
        Some((glass(), v(0.0, 0.0, -2.0)))
    );
}

#[test]
fn scan_starts_from_infinity() {
    // Every finite distance is below the bound that the scan starts from.
    assert_eq!(met(&[(f32::MAX, ivory())]), Some((ivory(), v(0.0, 0.0, -f32::MAX))));
    // Infinity is not.
    assert_eq!(met(&[(f32::INFINITY, ivory())]), None);
    assert_eq!(met(&[(f32::INFINITY, ivory()), (7.0, glass())]).unwrap().0, glass());
    assert_eq!(met(&[(7.0, glass()), (f32::INFINITY, ivory())]).unwrap().0, glass());
}

#[test]
fn still_life_on_a_coarse_grid() {
    // Every 64th pixel of every 64th row, from (32, 32). Where nothing is
    // listed the sky shows.
    let shown: [(usize, usize, (u8, u8, u8)); 20] = [
        (608, 224, (40, 142, 163)),
        (672, 224, (40, 142, 163)),
        (736, 224, (40, 142, 163)),
        (608, 288, (40, 142, 163)),
        (672, 288, (40, 142, 163)),
        (736, 288, (40, 142, 163)),
        (416, 352, (130, 181, 164)),
        (544, 352, (93, 31, 31)),
        (672, 352, (137, 52, 52)),
        (416, 416, (44, 28, 29)),
        (480, 416, (107, 62, 67)),
        (544, 416, (0, 0, 0)),
        (288, 480, (155, 51, 51)),
        (352, 480, (54, 18, 18)),
        (416, 480, (53, 17, 17)),
        (480, 480, (42, 127, 145)),
        (544, 480, (0, 0, 0)),
        (608, 480, (50, 16, 16)),
        (672, 480, (48, 16, 16)),
        (736, 480, (161, 53, 53)),
    ];
    let (objects, lights) = still_life();
    for j in (32..HEIGHT).step_by(64) {
        for i in (32..WIDTH).step_by(64) {
            let listed = shown.iter().find(|&&(si, sj, _)| (si, sj) == (i, j));
            let (r, g, b) = listed.map_or((51, 178, 204), |&(_, _, c)| c);
            let pixel = render_pixel(&objects, &lights, i, j);
            assert_eq!(pixel, Vec3::new(r, g, b), "({}, {})", i, j);
        }
    }
}
