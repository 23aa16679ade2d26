//! What a surface looks like and what lights it: plain values, copied freely.
use crate::vector::{Vec3, Vec4};
use vstd::prelude::*;

verus! {

/// How a surface answers light.
///
/// `albedo` weighs the four parts of a shaded colour. Its slots are, in
/// order, `x`: specular, `y`: reflection, `z`: refraction, `w`: diffuse.
#[derive(Debug, Default, Clone, Copy, PartialEq)]
pub struct Material<T> {
    pub diffuse_color: Vec3<T>,
    pub albedo: Vec4<T>,
    pub refractive_idx: T,
    pub specular_exp: T,
}

/// A point light: where it is and how strong.
#[derive(Debug, Default, Clone, Copy, PartialEq)]
pub struct Light<T> {
    pub position: Vec3<T>,
    pub intensity: T,
}

impl<T> Material<T> {
    /// The material with the given parts. The specular exponent comes before
    /// the refractive index.
    pub fn new(diffuse_color: Vec3<T>, albedo: Vec4<T>, specular_exp: T, refractive_idx: T) -> (r:
        Self)
        ensures
            r == (Material { diffuse_color, albedo, refractive_idx, specular_exp }),
    {
        Self { diffuse_color, albedo, specular_exp, refractive_idx }
    }
}

} // verus!
