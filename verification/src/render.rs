//! Casting rays into a scene: the nearest surface along a ray, the colour
//! that comes back along it, and the picture of a whole scene.
use crate::framebuffer::{FrameBuffer, Picture};
use crate::geometry::{point_along, Object};
use crate::lighting::{Light, Material};
use crate::scalar::{below, lawful, strict_order, Scalar, ScalarSpec};
use crate::vector::Vec3;
use std::ops::Neg;
use vstd::prelude::*;
use vstd::std_specs::cmp::PartialOrdIs;
use vstd::std_specs::ops::{AddSpec, DivSpec, MulSpec, NegSpec, SubSpec};

verus! {

pub const WIDTH: usize = 1024;

pub const HEIGHT: usize = 768;

/// A ray that has been turned this often brings back the background.
pub const CAST_DEPTH_MAX: usize = 4;

/// The surfaces of a scene, in the order in which a ray is held against
/// them.
pub type Scene<T> = Seq<Box<dyn Object<T>>>;

/// Which surface a ray meets first, and how far along the ray: the index and
/// the distance that a scan through `objects` ends with. The scan starts from
/// a bound of infinity, and a surface takes over only with a distance
/// strictly below the one held, so of two surfaces at one distance the
/// earlier stays.
pub open spec fn nearest<T: Scalar>(orig: Vec3<T>, dir: Vec3<T>, objects: Scene<T>) -> Option<
    (int, T),
>
    decreases objects.len(),
{
    if objects.len() == 0 {
        None
    } else {
        let earlier = nearest(orig, dir, objects.drop_last());
        let bound = match earlier {
            Some((_, d)) => d,
            None => T::infinity_spec(),
        };
        match objects.last().ray_intersect_spec(orig, dir) {
            Some(d) => if d.is_lt(&bound) {
                Some((objects.len() - 1, d))
            } else {
                earlier
            },
            None => earlier,
        }
    }
}

/// The material, the normal and the point at which a ray first meets the
/// scene.
pub open spec fn scene_intersect_spec<T: Scalar>(
    orig: Vec3<T>,
    dir: Vec3<T>,
    objects: Scene<T>,
) -> Option<(Material<T>, Vec3<T>, Vec3<T>)> {
    match nearest(orig, dir, objects) {
        None => None,
        Some((i, d)) => {
            let hit = point_along(orig, dir, d);
            Some((objects[i].get_material_spec(), objects[i].compute_normal_spec(hit), hit))
        },
    }
}

/// A scan never names a surface that is not there.
pub proof fn lemma_nearest_in_range<T: Scalar>(orig: Vec3<T>, dir: Vec3<T>, objects: Scene<T>)
    ensures
        match nearest(orig, dir, objects) {
            Some((i, d)) => 0 <= i < objects.len() && objects[i].ray_intersect_spec(orig, dir)
                == Some(d),
            None => true,
        },
    decreases objects.len(),
{
    if objects.len() > 0 {
        lemma_nearest_in_range(orig, dir, objects.drop_last());
    }
}

/// Finds what a ray meets first.
pub fn scene_intersect<T: Scalar>(
    orig: Vec3<T>,
    dir: Vec3<T>,
    objects: &[Box<dyn Object<T>>],
) -> (r: Option<(Material<T>, Vec3<T>, Vec3<T>)>)
    requires
        lawful::<T>(),
    ensures
        r == scene_intersect_spec(orig, dir, objects@),
{
    let mut dist = T::infinity();
    let mut found: Option<(Material<T>, Vec3<T>, Vec3<T>)> = None;
    let mut i: usize = 0;
    while i < objects.len()
        invariant
            lawful::<T>(),
            i <= objects@.len(),
            found == scene_intersect_spec(orig, dir, objects@.take(i as int)),
            dist == match nearest(orig, dir, objects@.take(i as int)) {
                Some((_, d)) => d,
                None => T::infinity_spec(),
            },
        decreases objects@.len() - i,
    {
        proof {
            assert(objects@.take(i + 1).drop_last() == objects@.take(i as int));
            lemma_nearest_in_range(orig, dir, objects@.take(i as int));
        }
        let object = &objects[i];
        if let Some(dist_i) = object.ray_intersect(orig, dir) {
            if dist_i < dist {
                dist = dist_i;
                let hit = orig + dir * dist_i;
                let normal = object.compute_normal(hit);
                found = Some((object.get_material(), normal, hit));
            }
        }
        i += 1;
    }
    proof {
        assert(objects@.take(i as int) == objects@);
    }
    found
}

/// The colour where a ray meets nothing: (0.2, 0.7, 0.8).
pub open spec fn background_spec<T: Scalar>() -> Vec3<T> {
    Vec3 { x: T::ratio_spec(2, 10), y: T::ratio_spec(7, 10), z: T::ratio_spec(8, 10) }
}

/// How far a new ray's origin is moved off the surface it leaves: 1/1000.
pub open spec fn bias_spec<T: Scalar>() -> T {
    T::ratio_spec(1, 1000)
}

/// The mirror image of `i` at a surface with normal `n`:
/// `i - n * 2 * (i * n)`.
pub open spec fn reflect_spec<T: Scalar>(i: Vec3<T>, n: Vec3<T>) -> Vec3<T> {
    i.sub_spec(n.mul_spec(T::ratio_spec(2, 1)).mul_spec(i.mul_spec(n)))
}

/// The cosine that [`refract_spec`] starts from: `i * n` held to `-1..=1`,
/// negated.
pub open spec fn incidence_spec<T: Scalar>(i: Vec3<T>, n: Vec3<T>) -> T {
    T::ratio_spec(1, 1).neg_spec().max_spec(T::ratio_spec(1, 1).min_spec(i.mul_spec(n))).neg_spec()
}

/// The term under the square root in Snell's law:
/// `1 - eta * eta * (1 - cosi * cosi)`. Below zero, no ray passes.
pub open spec fn snell_discriminant<T: Scalar>(eta: T, cosi: T) -> T {
    T::ratio_spec(1, 1).sub_spec(
        eta.mul_spec(eta).mul_spec(T::ratio_spec(1, 1).sub_spec(cosi.mul_spec(cosi))),
    )
}

/// The direction of `i` bent at a surface with normal `n`, between an
/// outside of index 1 and an inside of index `refractive_idx`.
///
/// A negative incidence cosine flips cosine and normal and puts
/// `refractive_idx` over 1; else 1 stands over `refractive_idx`. A negative
/// discriminant gives the zero vector.
pub open spec fn refract_spec<T: Scalar>(i: Vec3<T>, n: Vec3<T>, refractive_idx: T) -> Vec3<T> {
    let cosi0 = incidence_spec(i, n);
    let flip = cosi0.is_lt(&T::ratio_spec(0, 1));
    let cosi = if flip {
        cosi0.neg_spec()
    } else {
        cosi0
    };
    let n1 = if flip {
        n.neg_spec()
    } else {
        n
    };
    let eta = if flip {
        refractive_idx.div_spec(T::ratio_spec(1, 1))
    } else {
        T::ratio_spec(1, 1).div_spec(refractive_idx)
    };
    let k = snell_discriminant(eta, cosi);
    if k.is_lt(&T::ratio_spec(0, 1)) {
        Vec3 { x: T::zero(), y: T::zero(), z: T::zero() }
    } else {
        i.mul_spec(eta).add_spec(n1.mul_spec(eta.mul_spec(cosi).sub_spec(k.sqrt_spec())))
    }
}

/// Where a ray that leaves `point` in direction `dir` starts: `point` moved
/// by the bias along the normal, to the side that `dir` points to.
pub open spec fn biased_origin_spec<T: Scalar>(point: Vec3<T>, norm: Vec3<T>, dir: Vec3<T>) -> Vec3<
    T,
> {
    if dir.mul_spec(norm).is_lt(&T::ratio_spec(0, 1)) {
        point.sub_spec(norm.mul_spec(bias_spec::<T>()))
    } else {
        point.add_spec(norm.mul_spec(bias_spec::<T>()))
    }
}

/// The unit direction from a point to a light.
pub open spec fn light_direction<T: Scalar>(light: Light<T>, point: Vec3<T>) -> Vec3<T> {
    let to_light = light.position.sub_spec(point);
    to_light.div_spec(to_light.norm_spec())
}

/// Whether something stands between a point and a light: a ray from the
/// biased point towards the light meets the scene at less than the light's
/// distance.
pub open spec fn in_shadow<T: Scalar>(
    light: Light<T>,
    point: Vec3<T>,
    norm: Vec3<T>,
    objects: Scene<T>,
) -> bool {
    let light_dist = light.position.sub_spec(point).norm_spec();
    let light_dir = light_direction(light, point);
    let shadow_orig = biased_origin_spec(point, norm, light_dir);
    match scene_intersect_spec(shadow_orig, light_dir, objects) {
        Some((_, _, shadow_pt)) => shadow_pt.sub_spec(shadow_orig).norm_spec().is_lt(&light_dist),
        None => false,
    }
}

/// What one unshadowed light adds to the diffuse sum:
/// `intensity * max(0, light_dir * norm)`.
pub open spec fn diffuse_term<T: Scalar>(light: Light<T>, point: Vec3<T>, norm: Vec3<T>) -> T {
    light.intensity.mul_spec(
        T::ratio_spec(0, 1).max_spec(light_direction(light, point).mul_spec(norm)),
    )
}

/// What one unshadowed light adds to the specular sum:
/// `max(0, reflect(light_dir, norm) * dir) ^ specular_exp * intensity`.
pub open spec fn specular_term<T: Scalar>(
    light: Light<T>,
    point: Vec3<T>,
    norm: Vec3<T>,
    dir: Vec3<T>,
    specular_exp: T,
) -> T {
    T::ratio_spec(0, 1).max_spec(
        reflect_spec(light_direction(light, point), norm).mul_spec(dir),
    ).powf_spec(specular_exp).mul_spec(light.intensity)
}

/// The diffuse and the specular sum over the lights, taken in order from
/// zero. A light in shadow adds nothing to either.
pub open spec fn illumination<T: Scalar>(
    lights: Seq<Light<T>>,
    point: Vec3<T>,
    norm: Vec3<T>,
    dir: Vec3<T>,
    specular_exp: T,
    objects: Scene<T>,
) -> (T, T)
    decreases lights.len(),
{
    if lights.len() == 0 {
        (T::ratio_spec(0, 1), T::ratio_spec(0, 1))
    } else {
        let (diffuse, specular) = illumination(
            lights.drop_last(),
            point,
            norm,
            dir,
            specular_exp,
            objects,
        );
        let light = lights.last();
        if in_shadow(light, point, norm, objects) {
            (diffuse, specular)
        } else {
            (
                diffuse.add_spec(diffuse_term(light, point, norm)),
                specular.add_spec(specular_term(light, point, norm, dir, specular_exp)),
            )
        }
    }
}

/// The four parts of a colour, each with its weight from the albedo:
/// `diffuse_color * diffuse * w + specular * x + reflected * y +
/// refracted * z`. The specular part is one number, added to each channel.
pub open spec fn blend_spec<T: Scalar>(
    material: Material<T>,
    diffuse: T,
    specular: T,
    reflected: Vec3<T>,
    refracted: Vec3<T>,
) -> Vec3<T> {
    material.diffuse_color.mul_spec(diffuse).mul_spec(material.albedo.w).add_spec(
        specular.mul_spec(material.albedo.x),
    ).add_spec(reflected.mul_spec(material.albedo.y)).add_spec(
        refracted.mul_spec(material.albedo.z),
    )
}

/// The colour that comes back along a ray.
///
/// Beyond the depth limit, and where the ray meets nothing, it is the
/// background. Where it meets a surface, one ray goes on along the
/// reflection and one along the refraction, each one level deeper and
/// whatever the material's weights are, and their colours are blended with
/// the light that reaches the point.
pub open spec fn cast_ray_spec<T: Scalar>(
    orig: Vec3<T>,
    dir: Vec3<T>,
    objects: Scene<T>,
    lights: Seq<Light<T>>,
    depth: nat,
) -> Vec3<T>
    decreases CAST_DEPTH_MAX + 1 - depth,
{
    if depth > CAST_DEPTH_MAX {
        background_spec()
    } else {
        match scene_intersect_spec(orig, dir, objects) {
            None => background_spec(),
            Some((material, norm, point)) => {
                let reflect_dir = reflect_spec(dir, norm).normalize_spec();
                let refract_dir = refract_spec(dir, norm, material.refractive_idx);
                let reflected = cast_ray_spec(
                    biased_origin_spec(point, norm, reflect_dir),
                    reflect_dir,
                    objects,
                    lights,
                    depth + 1,
                );
                let refracted = cast_ray_spec(
                    biased_origin_spec(point, norm, refract_dir),
                    refract_dir,
                    objects,
                    lights,
                    depth + 1,
                );
                let (diffuse, specular) = illumination(
                    lights,
                    point,
                    norm,
                    dir,
                    material.specular_exp,
                    objects,
                );
                blend_spec(material, diffuse, specular, reflected, refracted)
            },
        }
    }
}

/// The background colour.
pub fn background<T: Scalar>() -> (r: Vec3<T>)
    requires
        lawful::<T>(),
    ensures
        r == background_spec::<T>(),
{
    Vec3 { x: T::ratio(2, 10), y: T::ratio(7, 10), z: T::ratio(8, 10) }
}

/// Mirrors a direction at a surface.
pub fn reflect<T: Scalar>(i: Vec3<T>, n: Vec3<T>) -> (r: Vec3<T>)
    requires
        lawful::<T>(),
    ensures
        r == reflect_spec(i, n),
{
    i - n * T::ratio(2, 1) * (i * n)
}

/// Bends a direction at a surface, by Snell's law.
pub fn refract<T: Scalar>(i: Vec3<T>, n: Vec3<T>, refractive_idx: T) -> (r: Vec3<T>)
    requires
        lawful::<T>(),
    ensures
        r == refract_spec(i, n, refractive_idx),
{
    let mut n = n;
    let mut cosi = T::ratio(1, 1).neg().max(T::ratio(1, 1).min(i * n)).neg();
    let mut etai = T::ratio(1, 1);
    let mut etat = refractive_idx;
    if cosi < T::ratio(0, 1) {
        cosi = cosi.neg();
        n = n.neg();
        let held = etai;
        etai = etat;
        etat = held;
    }
    let eta = etai / etat;
    let k = T::ratio(1, 1) - eta * eta * (T::ratio(1, 1) - cosi * cosi);
    if k < T::ratio(0, 1) {
        Vec3::id()
    } else {
        i * eta + n * (eta * cosi - k.sqrt())
    }
}

/// Moves the origin of a new ray off the surface.
pub fn biased_origin<T: Scalar>(point: Vec3<T>, norm: Vec3<T>, dir: Vec3<T>) -> (r: Vec3<T>)
    requires
        lawful::<T>(),
    ensures
        r == biased_origin_spec(point, norm, dir),
{
    if dir * norm < T::ratio(0, 1) {
        point - norm * T::ratio(1, 1000)
    } else {
        point + norm * T::ratio(1, 1000)
    }
}

/// Casts a ray and returns its colour.
pub fn cast_ray<T: Scalar>(
    orig: Vec3<T>,
    dir: Vec3<T>,
    objects: &[Box<dyn Object<T>>],
    lights: &[Light<T>],
    depth: usize,
) -> (r: Vec3<T>)
    requires
        lawful::<T>(),
    ensures
        r == cast_ray_spec(orig, dir, objects@, lights@, depth as nat),
        depth > CAST_DEPTH_MAX ==> r == background_spec::<T>(),
    decreases CAST_DEPTH_MAX + 1 - depth,
{
    if depth > CAST_DEPTH_MAX {
        return background();
    }
    if let Some((material, norm, point)) = scene_intersect(orig, dir, objects) {
        let mut diffuse_intensity = T::ratio(0, 1);
        let mut specular_intensity = T::ratio(0, 1);
        let reflect_dir = reflect(dir, norm).normalize();
        let refract_dir = refract(dir, norm, material.refractive_idx);
        let reflect_orig = biased_origin(point, norm, reflect_dir);
        let refract_orig = biased_origin(point, norm, refract_dir);

        let reflect_color = cast_ray(reflect_orig, reflect_dir, objects, lights, depth + 1);
        let refract_color = cast_ray(refract_orig, refract_dir, objects, lights, depth + 1);

        let mut l: usize = 0;
        while l < lights.len()
            invariant
                lawful::<T>(),
                l <= lights@.len(),
                (diffuse_intensity, specular_intensity) == illumination(
                    lights@.take(l as int),
                    point,
                    norm,
                    dir,
                    material.specular_exp,
                    objects@,
                ),
            decreases lights@.len() - l,
        {
            proof {
                assert(lights@.take(l + 1).drop_last() == lights@.take(l as int));
            }
            let light = &lights[l];
            l += 1;
            let light_dist = (light.position - point).norm();
            let light_dir = (light.position - point) / light_dist;
            let shadow_orig = biased_origin(point, norm, light_dir);
            if let Some((_, _shadow_norm, shadow_pt)) = scene_intersect(
                shadow_orig,
                light_dir,
                objects,
            ) {
                if (shadow_pt - shadow_orig).norm() < light_dist {
                    continue ;
                }
            }
            diffuse_intensity = diffuse_intensity + light.intensity * T::ratio(0, 1).max(
                light_dir * norm,
            );
            specular_intensity = specular_intensity + T::ratio(0, 1).max(
                reflect(light_dir, norm) * dir,
            ).powf(material.specular_exp) * light.intensity;
        }
        proof {
            assert(lights@.take(l as int) == lights@);
        }
        material.diffuse_color * diffuse_intensity * material.albedo.w + specular_intensity
            * material.albedo.x + reflect_color * material.albedo.y + refract_color
            * material.albedo.z
    } else {
        background()
    }
}

/// The tangent of half the field of view, which is a quarter turn:
/// `tan(pi / 2 / 2)`.
pub open spec fn half_fov_tan_spec<T: Scalar>() -> T {
    T::pi_spec().div_spec(T::ratio_spec(2, 1)).div_spec(T::ratio_spec(2, 1)).tan_spec()
}

/// The direction of the ray through the middle of pixel `(i, j)`, counted
/// from the top left, seen from the origin down the negative z axis:
/// `x = (2 (i + 1/2) / WIDTH - 1) * tan * WIDTH / HEIGHT`,
/// `y = -(2 (j + 1/2) / HEIGHT - 1) * tan`, `z = -1`, at length one.
pub open spec fn primary_direction_spec<T: Scalar>(i: usize, j: usize) -> Vec3<T> {
    let x = T::ratio_spec(2, 1).mul_spec(
        T::ratio_spec(i as u32, 1).add_spec(T::ratio_spec(1, 2)),
    ).div_spec(T::ratio_spec(WIDTH as u32, 1)).sub_spec(T::ratio_spec(1, 1)).mul_spec(
        half_fov_tan_spec::<T>(),
    ).mul_spec(T::ratio_spec(WIDTH as u32, HEIGHT as u32));
    let y = T::ratio_spec(2, 1).mul_spec(
        T::ratio_spec(j as u32, 1).add_spec(T::ratio_spec(1, 2)),
    ).div_spec(T::ratio_spec(HEIGHT as u32, 1)).sub_spec(T::ratio_spec(1, 1)).neg_spec().mul_spec(
        half_fov_tan_spec::<T>(),
    );
    (Vec3 { x, y, z: T::ratio_spec(1, 1).neg_spec() }).normalize_spec()
}

/// A channel as a byte: held to `0..=1`, times 255, cut to its integer
/// part.
pub open spec fn quantize_spec<T: Scalar>(v: T) -> u8 {
    T::ratio_spec(255, 1).mul_spec(
        T::ratio_spec(0, 1).max_spec(T::ratio_spec(1, 1).min_spec(v)),
    ).to_u8_spec()
}

/// The colour of pixel `(i, j)`: what comes back along its ray, cast from
/// the origin at depth 0, channel by channel as bytes.
pub open spec fn pixel_spec<T: Scalar>(
    objects: Scene<T>,
    lights: Seq<Light<T>>,
    i: usize,
    j: usize,
) -> Vec3<u8> {
    let el = cast_ray_spec(
        Vec3 { x: T::zero(), y: T::zero(), z: T::zero() },
        primary_direction_spec::<T>(i, j),
        objects,
        lights,
        0,
    );
    Vec3 { x: quantize_spec(el.x), y: quantize_spec(el.y), z: quantize_spec(el.z) }
}

/// The colour of the pixel at place `k` of a picture stored row by row:
/// column `k % WIDTH` of row `k / WIDTH`.
pub open spec fn pixel_at<T: Scalar>(objects: Scene<T>, lights: Seq<Light<T>>, k: int) -> Vec3<u8> {
    pixel_spec(objects, lights, (k % WIDTH as int) as usize, (k / WIDTH as int) as usize)
}

/// A picture after rendering: its first `WIDTH * HEIGHT` pixels are those of
/// the scene, row by row, and the rest are as they were.
pub open spec fn rendered<T: Scalar>(
    objects: Scene<T>,
    lights: Seq<Light<T>>,
    before: Seq<Vec3<u8>>,
) -> Seq<Vec3<u8>> {
    Seq::new(
        before.len(),
        |k: int|
            if 0 <= k < WIDTH * HEIGHT {
                pixel_at(objects, lights, k)
            } else {
                before[k]
            },
    )
}

/// The direction of the ray through a pixel.
pub fn primary_direction<T: Scalar>(i: usize, j: usize) -> (r: Vec3<T>)
    requires
        lawful::<T>(),
        i < WIDTH,
        j < HEIGHT,
    ensures
        r == primary_direction_spec::<T>(i, j),
{
    let fov = T::pi() / T::ratio(2, 1);
    let x = (T::ratio(2, 1) * (T::ratio(i as u32, 1) + T::ratio(1, 2)) / T::ratio(WIDTH as u32, 1)
        - T::ratio(1, 1)) * (fov / T::ratio(2, 1)).tan() * T::ratio(WIDTH as u32, HEIGHT as u32);
    let y = (T::ratio(2, 1) * (T::ratio(j as u32, 1) + T::ratio(1, 2)) / T::ratio(HEIGHT as u32, 1)
        - T::ratio(1, 1)).neg() * (fov / T::ratio(2, 1)).tan();
    (Vec3 { x, y, z: T::ratio(1, 1).neg() }).normalize()
}

/// Turns a channel into a byte.
pub fn quantize<T: Scalar>(v: T) -> (r: u8)
    requires
        lawful::<T>(),
    ensures
        r == quantize_spec(v),
{
    (T::ratio(255, 1) * T::ratio(0, 1).max(T::ratio(1, 1).min(v))).to_u8()
}

/// Computes one pixel of the picture.
pub fn render_pixel<T: Scalar>(
    objects: &[Box<dyn Object<T>>],
    lights: &[Light<T>],
    i: usize,
    j: usize,
) -> (r: Vec3<u8>)
    requires
        lawful::<T>(),
        i < WIDTH,
        j < HEIGHT,
    ensures
        r == pixel_spec(objects@, lights@, i, j),
{
    let dir = primary_direction::<T>(i, j);
    let el = cast_ray(Vec3::id(), dir, objects, lights, 0);
    Vec3 { x: quantize(el.x), y: quantize(el.y), z: quantize(el.z) }
}

/// Renders the scene into the first `WIDTH * HEIGHT` pixels of a picture,
/// row by row. The picture's size and its further pixels stay.
pub fn render<T: Scalar>(
    objects: &[Box<dyn Object<T>>],
    lights: &[Light<T>],
    framebuffer: &mut FrameBuffer,
)
    requires
        lawful::<T>(),
        old(framebuffer)@.pixels.len() >= WIDTH * HEIGHT,
    ensures
        final(framebuffer)@ == (Picture {
            pixels: rendered(objects@, lights@, old(framebuffer)@.pixels),
            ..old(framebuffer)@
        }),
{
    let ghost before = framebuffer@.pixels;
    let mut j: usize = 0;
    while j < HEIGHT
        invariant
            lawful::<T>(),
            j <= HEIGHT,
            before.len() >= WIDTH * HEIGHT,
            framebuffer@.pixels.len() == before.len(),
            framebuffer@.width == old(framebuffer)@.width,
            framebuffer@.height == old(framebuffer)@.height,
            forall|k: int|
                0 <= k < j * WIDTH ==> #[trigger] framebuffer@.pixels[k] == rendered(
                    objects@,
                    lights@,
                    before,
                )[k],
            forall|k: int|
                j * WIDTH <= k < before.len() ==> #[trigger] framebuffer@.pixels[k] == before[k],
        decreases HEIGHT - j,
    {
        let mut i: usize = 0;
        while i < WIDTH
            invariant
                lawful::<T>(),
                j < HEIGHT,
                i <= WIDTH,
                before.len() >= WIDTH * HEIGHT,
                framebuffer@.pixels.len() == before.len(),
                framebuffer@.width == old(framebuffer)@.width,
                framebuffer@.height == old(framebuffer)@.height,
                forall|k: int|
                    0 <= k < j * WIDTH + i ==> #[trigger] framebuffer@.pixels[k] == rendered(
                        objects@,
                        lights@,
                        before,
                    )[k],
                forall|k: int|
                    j * WIDTH + i <= k < before.len() ==> #[trigger] framebuffer@.pixels[k]
                        == before[k],
            decreases WIDTH - i,
        {
            let pixel = render_pixel(objects, lights, i, j);
            framebuffer.set(i + j * WIDTH, pixel);
            i += 1;
        }
        j += 1;
    }
    assert(framebuffer@.pixels =~= rendered(objects@, lights@, before));
}

/// Where no surface of the scene is met by the ray, the ray meets nothing.
pub proof fn lemma_nothing_met<T: Scalar>(orig: Vec3<T>, dir: Vec3<T>, objects: Scene<T>)
    requires
        forall|i: int|
            0 <= i < objects.len() ==> (#[trigger] objects[i]).ray_intersect_spec(orig, dir)
                .is_none(),
    ensures
        nearest(orig, dir, objects).is_none(),
        scene_intersect_spec(orig, dir, objects).is_none(),
    decreases objects.len(),
{
    if objects.len() > 0 {
        let earlier = objects.drop_last();
        assert forall|i: int| 0 <= i < earlier.len() implies (#[trigger] earlier[i])
            .ray_intersect_spec(orig, dir).is_none() by {
            assert(earlier[i] == objects[i]);
        }
        lemma_nothing_met(orig, dir, earlier);
        assert(objects.last() == objects[objects.len() - 1]);
    }
}

/// The first surface at a distance keeps the ray: no surface that stands
/// later in the scene than the one met is met at a distance below it.
pub proof fn lemma_later_not_nearer<T: Scalar>(
    orig: Vec3<T>,
    dir: Vec3<T>,
    objects: Scene<T>,
    j: int,
)
    requires
        0 <= j < objects.len(),
    ensures
        match (nearest(orig, dir, objects), objects[j].ray_intersect_spec(orig, dir)) {
            (Some((i, d)), Some(dj)) => i < j ==> !dj.is_lt(&d),
            (None, Some(dj)) => !dj.is_lt(&T::infinity_spec()),
            _ => true,
        },
    decreases objects.len(),
{
    lemma_nearest_in_range(orig, dir, objects);
    lemma_nearest_in_range(orig, dir, objects.drop_last());
    if j < objects.len() - 1 {
        lemma_later_not_nearer(orig, dir, objects.drop_last(), j);
        assert(objects.drop_last()[j] == objects[j]);
    } else {
        assert(objects.last() == objects[j]);
    }
}

/// Where `<` is a strict order, the surface that a ray meets first is a
/// nearest one, and the first of the nearest: no surface is met at a
/// distance below its distance, and none that stands before it in the scene
/// at its distance.
pub proof fn lemma_nearest_is_least_and_first<T: Scalar>(
    orig: Vec3<T>,
    dir: Vec3<T>,
    objects: Scene<T>,
    j: int,
)
    requires
        strict_order::<T>(),
        0 <= j < objects.len(),
    ensures
        match (nearest(orig, dir, objects), objects[j].ray_intersect_spec(orig, dir)) {
            (Some((i, d)), Some(dj)) => !below(dj, d) && (j < i ==> dj != d),
            (None, Some(dj)) => !below(dj, T::infinity_spec()),
            _ => true,
        },
    decreases objects.len(),
{
    let earlier = objects.drop_last();
    lemma_nearest_in_range(orig, dir, objects);
    lemma_nearest_in_range(orig, dir, earlier);
    if j < objects.len() - 1 {
        lemma_nearest_is_least_and_first(orig, dir, earlier, j);
        assert(earlier[j] == objects[j]);
        match (nearest(orig, dir, earlier), objects[j].ray_intersect_spec(orig, dir)) {
            (Some((i0, d0)), Some(dj)) => {
                match objects.last().ray_intersect_spec(orig, dir) {
                    Some(d) => {
                        if below(d, d0) {
                            assert(below(dj, d) ==> below(dj, d0));
                        }
                    },
                    None => {},
                }
            },
            (None, Some(dj)) => {
                match objects.last().ray_intersect_spec(orig, dir) {
                    Some(d) => {
                        if below(d, T::infinity_spec()) {
                            assert(below(dj, d) ==> below(dj, T::infinity_spec()));
                        }
                    },
                    None => {},
                }
            },
            _ => {},
        }
    } else {
        assert(objects.last() == objects[j]);
        match objects[j].ray_intersect_spec(orig, dir) {
            Some(dj) => {
                assert(!below(dj, dj));
            },
            None => {},
        }
    }
}

/// Beyond the depth limit a ray brings back the background, whatever the
/// scene holds.
pub proof fn lemma_background_beyond_depth<T: Scalar>(
    orig: Vec3<T>,
    dir: Vec3<T>,
    objects: Scene<T>,
    lights: Seq<Light<T>>,
    depth: nat,
)
    requires
        depth > CAST_DEPTH_MAX,
    ensures
        cast_ray_spec(orig, dir, objects, lights, depth) == background_spec::<T>(),
{
}

/// A ray that meets nothing brings back the background, at every depth.
pub proof fn lemma_background_where_nothing_met<T: Scalar>(
    orig: Vec3<T>,
    dir: Vec3<T>,
    objects: Scene<T>,
    lights: Seq<Light<T>>,
    depth: nat,
)
    requires
        scene_intersect_spec(orig, dir, objects).is_none(),
    ensures
        cast_ray_spec(orig, dir, objects, lights, depth) == background_spec::<T>(),
{
}

/// The background colour as bytes.
pub open spec fn background_pixel<T: Scalar>() -> Vec3<u8> {
    Vec3 {
        x: quantize_spec(background_spec::<T>().x),
        y: quantize_spec(background_spec::<T>().y),
        z: quantize_spec(background_spec::<T>().z),
    }
}

/// The picture of a scene without surfaces is the background in every
/// pixel, whatever the lights.
pub proof fn lemma_empty_scene_renders_background<T: Scalar>(
    objects: Scene<T>,
    lights: Seq<Light<T>>,
    before: Seq<Vec3<u8>>,
)
    requires
        objects.len() == 0,
    ensures
        forall|k: int|
            0 <= k < WIDTH * HEIGHT && k < before.len() ==> #[trigger] rendered(
                objects,
                lights,
                before,
            )[k] == background_pixel::<T>(),
{
    assert forall|k: int| 0 <= k < WIDTH * HEIGHT && k < before.len() implies #[trigger] rendered(
        objects,
        lights,
        before,
    )[k] == background_pixel::<T>() by {
        let i = (k % WIDTH as int) as usize;
        let j = (k / WIDTH as int) as usize;
        lemma_background_where_nothing_met(
            Vec3 { x: T::zero(), y: T::zero(), z: T::zero() },
            primary_direction_spec::<T>(i, j),
            objects,
            lights,
            0,
        );
    }
}

/// A light in shadow adds nothing: the sums over the lights are what they
/// were without it. A light not in shadow adds its two terms.
pub proof fn lemma_light_in_shadow_adds_nothing<T: Scalar>(
    lights: Seq<Light<T>>,
    light: Light<T>,
    point: Vec3<T>,
    norm: Vec3<T>,
    dir: Vec3<T>,
    specular_exp: T,
    objects: Scene<T>,
)
    ensures
        ({
            let before = illumination(lights, point, norm, dir, specular_exp, objects);
            let after = illumination(lights.push(light), point, norm, dir, specular_exp, objects);
            if in_shadow(light, point, norm, objects) {
                after == before
            } else {
                after == (
                    before.0.add_spec(diffuse_term(light, point, norm)),
                    before.1.add_spec(specular_term(light, point, norm, dir, specular_exp)),
                )
            }
        }),
{
    assert(lights.push(light).drop_last() == lights);
    assert(lights.push(light).last() == light);
}

} // verus!
