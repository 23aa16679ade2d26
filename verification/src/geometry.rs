//! The surfaces a ray can meet: a sphere, and a bounded horizontal floor.
use crate::lighting::Material;
use crate::scalar::{lawful, Scalar, ScalarSpec};
use crate::vector::Vec3;
use std::ops::Neg;
use vstd::prelude::*;
use vstd::std_specs::cmp::PartialOrdIs;
use vstd::std_specs::ops::{AddSpec, DivSpec, MulSpec, NegSpec, SubSpec};

verus! {

/// A surface in the scene.
///
/// Each method is a function of the surface and its arguments. The
/// specification functions name what the methods return, and every surface
/// says for itself what that is.
pub trait Object<T: Scalar> {
    /// The distance along the ray to the nearest meeting point ahead of its
    /// origin, if there is one. A distance is above zero.
    spec fn ray_intersect_spec(&self, orig: Vec3<T>, dir: Vec3<T>) -> Option<T>;

    /// The surface's material.
    spec fn get_material_spec(&self) -> Material<T>;

    /// The outward unit normal at a point of the surface.
    spec fn compute_normal_spec(&self, hit: Vec3<T>) -> Vec3<T>;

    /// Where the ray from `orig` along `dir` meets the surface: at a
    /// distance above zero, or nowhere.
    fn ray_intersect(&self, orig: Vec3<T>, dir: Vec3<T>) -> (r: Option<T>)
        requires
            lawful::<T>(),
        ensures
            r == self.ray_intersect_spec(orig, dir),
            match r {
                Some(d) => d.is_gt(&T::ratio_spec(0, 1)),
                None => true,
            },
    ;

    /// The surface's material, by value.
    fn get_material(&self) -> (r: Material<T>)
        ensures
            r == self.get_material_spec(),
    ;

    /// The normal at `hit`.
    fn compute_normal(&self, hit: Vec3<T>) -> (r: Vec3<T>)
        requires
            lawful::<T>(),
        ensures
            r == self.compute_normal_spec(hit),
    ;
}

/// A sphere, by its centre and radius.
#[derive(Debug, Default, Clone, Copy, PartialEq)]
pub struct Sphere<T> {
    pub center: Vec3<T>,
    pub radius: T,
    pub material: Material<T>,
}

/// A horizontal floor tile at height -4, reaching over `|x| < 10` and
/// `-30 < z < -10`. `center` is carried along and read by nothing.
pub struct Plane<T> {
    pub center: Vec3<T>,
    pub material: Material<T>,
}

/// Below this, a direction's vertical part counts as parallel to the floor.
pub open spec fn parallel_threshold<T: Scalar>() -> T {
    T::ratio_spec(1, 1000)
}

/// The distance along the ray at which it reaches the floor's height:
/// `-(orig.y + 4) / dir.y`.
pub open spec fn floor_distance<T: Scalar>(orig: Vec3<T>, dir: Vec3<T>) -> T {
    orig.y.add_spec(T::ratio_spec(4, 1)).neg_spec().div_spec(dir.y)
}

/// The point `orig + dir * d`.
pub open spec fn point_along<T: Scalar>(orig: Vec3<T>, dir: Vec3<T>, d: T) -> Vec3<T> {
    orig.add_spec(dir.mul_spec(d))
}

/// Whether a point lies over the floor tile: `|x| < 10`, `z < -10` and
/// `z > -30`.
pub open spec fn over_floor<T: Scalar>(pt: Vec3<T>) -> bool {
    &&& pt.x.abs_spec().is_lt(&T::ratio_spec(10, 1))
    &&& pt.z.is_lt(&T::ratio_spec(10, 1).neg_spec())
    &&& pt.z.is_gt(&T::ratio_spec(30, 1).neg_spec())
}

impl<T: Scalar> Object<T> for Plane<T> {
    /// A ray meets the floor when it is not parallel to it, reaches its
    /// height ahead of the origin, and does so over the tile.
    open spec fn ray_intersect_spec(&self, orig: Vec3<T>, dir: Vec3<T>) -> Option<T> {
        let d = floor_distance(orig, dir);
        if dir.y.abs_spec().is_gt(&parallel_threshold::<T>()) && d.is_gt(&T::ratio_spec(0, 1))
            && over_floor(point_along(orig, dir, d)) {
            Some(d)
        } else {
            None
        }
    }

    open spec fn get_material_spec(&self) -> Material<T> {
        self.material
    }

    /// Straight up, wherever the point is.
    open spec fn compute_normal_spec(&self, hit: Vec3<T>) -> Vec3<T> {
        Vec3 { x: T::ratio_spec(0, 1), y: T::ratio_spec(1, 1), z: T::ratio_spec(0, 1) }
    }

    fn ray_intersect(&self, orig: Vec3<T>, dir: Vec3<T>) -> (r: Option<T>) {
        if dir.y.abs() > T::ratio(1, 1000) {
            let d = (orig.y + T::ratio(4, 1)).neg() / dir.y;
            let pt = orig + dir * d;
            if d > T::ratio(0, 1) && pt.x.abs() < T::ratio(10, 1) && pt.z < T::ratio(10, 1).neg()
                && pt.z > T::ratio(30, 1).neg() {
                Some(d)
            } else {
                None
            }
        } else {
            None
        }
    }

    fn get_material(&self) -> (r: Material<T>) {
        self.material
    }

    fn compute_normal(&self, _hit: Vec3<T>) -> (r: Vec3<T>) {
        Vec3 { x: T::ratio(0, 1), y: T::ratio(1, 1), z: T::ratio(0, 1) }
    }
}

/// The distance along the ray to the point nearest the sphere's centre:
/// `(center - orig) * dir`.
pub open spec fn closest_approach<T: Scalar>(center: Vec3<T>, orig: Vec3<T>, dir: Vec3<T>) -> T {
    center.sub_spec(orig).mul_spec(dir)
}

/// The squared distance from the sphere's centre to the ray:
/// `l * l - tca * tca`, where `l = center - orig` and `tca` is the closest
/// approach.
pub open spec fn miss_distance_squared<T: Scalar>(
    center: Vec3<T>,
    orig: Vec3<T>,
    dir: Vec3<T>,
) -> T {
    let l = center.sub_spec(orig);
    let tca = closest_approach(center, orig, dir);
    l.mul_spec(l).sub_spec(tca.mul_spec(tca))
}

/// Of the two roots `tca - thc` and `tca + thc`, the near one where it is
/// above zero, else the far one where that is above zero, else none. A root
/// at zero is not ahead of the origin.
pub open spec fn forward_root<T: Scalar>(tca: T, thc: T) -> Option<T> {
    let near = tca.sub_spec(thc);
    let far = tca.add_spec(thc);
    if near.is_gt(&T::ratio_spec(0, 1)) {
        Some(near)
    } else if far.is_gt(&T::ratio_spec(0, 1)) {
        Some(far)
    } else {
        None
    }
}

impl<T: Scalar> Object<T> for Sphere<T> {
    /// A ray misses when it passes the centre at more than the radius. Else
    /// the roots lie at the closest approach, give or take
    /// `sqrt(radius^2 - d2)`.
    open spec fn ray_intersect_spec(&self, orig: Vec3<T>, dir: Vec3<T>) -> Option<T> {
        let d2 = miss_distance_squared(self.center, orig, dir);
        let r2 = self.radius.powi_spec(2);
        if d2.is_gt(&r2) {
            None
        } else {
            forward_root(closest_approach(self.center, orig, dir), r2.sub_spec(d2).sqrt_spec())
        }
    }

    open spec fn get_material_spec(&self) -> Material<T> {
        self.material
    }

    /// From the centre towards the point, at length one.
    open spec fn compute_normal_spec(&self, hit: Vec3<T>) -> Vec3<T> {
        hit.sub_spec(self.center).normalize_spec()
    }

    fn ray_intersect(&self, orig: Vec3<T>, dir: Vec3<T>) -> (r: Option<T>) {
        let l = self.center - orig;
        let tca = l * dir;
        let d2 = l * l - tca * tca;
        let r2 = self.radius.powi(2);
        if d2 > r2 {
            return None;
        }
        let thc = (r2 - d2).sqrt();
        let near = tca - thc;
        if near > T::ratio(0, 1) {
            return Some(near);
        }
        let far = tca + thc;
        if far > T::ratio(0, 1) {
            Some(far)
        } else {
            None
        }
    }

    fn get_material(&self) -> (r: Material<T>) {
        self.material
    }

    fn compute_normal(&self, hit: Vec3<T>) -> (r: Vec3<T>) {
        (hit - self.center).normalize()
    }
}

/// A ray that passes a sphere's centre at more than the radius, both
/// squared, does not meet the sphere, wherever it starts and wherever it
/// points.
pub proof fn lemma_sphere_missed_outside_radius<T: Scalar>(
    sphere: Sphere<T>,
    orig: Vec3<T>,
    dir: Vec3<T>,
)
    requires
        miss_distance_squared(sphere.center, orig, dir).is_gt(&sphere.radius.powi_spec(2)),
    ensures
        sphere.ray_intersect_spec(orig, dir).is_none(),
{
}

/// A sphere is met only at a distance above zero: at the near root where
/// that is above zero, else at the far root.
pub proof fn lemma_sphere_met_ahead<T: Scalar>(sphere: Sphere<T>, orig: Vec3<T>, dir: Vec3<T>)
    ensures
        match sphere.ray_intersect_spec(orig, dir) {
            Some(d) => d.is_gt(&T::ratio_spec(0, 1)),
            None => true,
        },
{
}

/// The floor is met only at a distance above zero.
pub proof fn lemma_floor_met_ahead<T: Scalar>(plane: Plane<T>, orig: Vec3<T>, dir: Vec3<T>)
    ensures
        match plane.ray_intersect_spec(orig, dir) {
            Some(d) => d.is_gt(&T::ratio_spec(0, 1)),
            None => true,
        },
{
}

/// A ray that reaches the floor's height at a point with `|x| >= 10`, or
/// `z <= -30`, or `z >= -10`, does not meet the floor.
pub proof fn lemma_floor_missed_outside_tile<T: Scalar>(
    plane: Plane<T>,
    orig: Vec3<T>,
    dir: Vec3<T>,
)
    requires
        ({
            let pt = point_along(orig, dir, floor_distance(orig, dir));
            ||| pt.x.abs_spec().is_ge(&T::ratio_spec(10, 1))
            ||| pt.z.is_le(&T::ratio_spec(30, 1).neg_spec())
            ||| pt.z.is_ge(&T::ratio_spec(10, 1).neg_spec())
        }),
    ensures
        plane.ray_intersect_spec(orig, dir).is_none(),
{
}

/// A ray that is not parallel to the floor and reaches its height ahead of
/// the origin, over the tile, meets it there: at the distance
/// `-(orig.y + 4) / dir.y`.
pub proof fn lemma_floor_met_over_tile<T: Scalar>(plane: Plane<T>, orig: Vec3<T>, dir: Vec3<T>)
    requires
        dir.y.abs_spec().is_gt(&parallel_threshold::<T>()),
        floor_distance(orig, dir).is_gt(&T::ratio_spec(0, 1)),
        over_floor(point_along(orig, dir, floor_distance(orig, dir))),
    ensures
        plane.ray_intersect_spec(orig, dir) == Some(floor_distance(orig, dir)),
{
}

/// The floor's normal is the same at every point.
pub proof fn lemma_floor_normal_constant<T: Scalar>(plane: Plane<T>, p: Vec3<T>, q: Vec3<T>)
    ensures
        plane.compute_normal_spec(p) == plane.compute_normal_spec(q),
{
}

} // verus!
