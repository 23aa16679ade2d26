//! Three- and four-component tuples over any element type, with the
//! arithmetic that the element type brings: componentwise sum, difference
//! and negation, the same element added to, taken from, multiplied onto or
//! divided out of every component, and the dot product.
//!
//! The operators are those of `std::ops`, so their contracts are the ones
//! that vstd gives these traits. An operator may be applied when the element
//! type allows every step of it (`*_req`). Where the element type's operator
//! is a function of its operands (`obeys_*_spec`), the result is the value
//! that `*_spec` names. Whatever the element type, each component of a
//! componentwise result is one that the element type's operator returned
//! for the operands' components.
use crate::scalar::{lawful, Scalar, ScalarSpec};
use std::ops::{Add, Div, Mul, Neg, Sub};
use vstd::prelude::*;
use vstd::std_specs::ops::{AddSpec, DivSpec, MulSpec, NegSpec, SubSpec};

verus! {

/// A point, a direction or a colour: three components of one type.
#[derive(Debug, Default, Clone, Copy, PartialEq)]
pub struct Vec3<T> {
    pub x: T,
    pub y: T,
    pub z: T,
}

impl<T: Default> Vec3<T> {
    /// The vector with the given components.
    pub fn new(x: T, y: T, z: T) -> (r: Self)
        ensures
            r == (Vec3 { x, y, z }),
    {
        Self { x, y, z }
    }

    /// The vector whose components are each a default value of the element
    /// type: for a number type, the zero vector.
    #[allow(dead_code)]
    pub fn id() -> (r: Self)
        ensures
            call_ensures(T::default, (), r.x),
            call_ensures(T::default, (), r.y),
            call_ensures(T::default, (), r.z),
    {
        Self { x: T::default(), y: T::default(), z: T::default() }
    }
}

impl<T: Scalar> Vec3<T> {
    /// The square root of the vector's dot product with itself.
    pub open spec fn norm_spec(self) -> T {
        self.mul_spec(self).sqrt_spec()
    }

    /// Each component divided by the norm.
    pub open spec fn normalize_spec(self) -> Vec3<T> {
        self.div_spec(self.norm_spec())
    }

    /// Euclidean length.
    pub fn norm(&self) -> (r: T)
        requires
            lawful::<T>(),
        ensures
            r == self.norm_spec(),
    {
        (*self * *self).sqrt()
    }

    /// The vector scaled to length one. Of a vector of length zero it is
    /// whatever the number type makes of a division by zero.
    pub fn normalize(&self) -> (r: Self)
        requires
            lawful::<T>(),
        ensures
            r == self.normalize_spec(),
    {
        let norm = self.norm();
        *self / norm
    }
}

impl<T: Add<Output = T>> vstd::std_specs::ops::AddSpecImpl<Vec3<T>> for Vec3<T> {
    open spec fn obeys_add_spec() -> bool {
        T::obeys_add_spec()
    }

    open spec fn add_req(self, rhs: Vec3<T>) -> bool {
        &&& self.x.add_req(rhs.x)
        &&& self.y.add_req(rhs.y)
        &&& self.z.add_req(rhs.z)
    }

    open spec fn add_spec(self, rhs: Vec3<T>) -> Vec3<T> {
        Vec3 {
            x: self.x.add_spec(rhs.x),
            y: self.y.add_spec(rhs.y),
            z: self.z.add_spec(rhs.z),
        }
    }
}

impl<T: Add<Output = T>> Add<Vec3<T>> for Vec3<T> {
    type Output = Vec3<T>;

    /// Componentwise sum.
    fn add(self, rhs: Vec3<T>) -> (r: Vec3<T>)
        ensures
            call_ensures(T::add, (self.x, rhs.x), r.x),
            call_ensures(T::add, (self.y, rhs.y), r.y),
            call_ensures(T::add, (self.z, rhs.z), r.z),
    {
        Vec3 {
            x: self.x + rhs.x,
            y: self.y + rhs.y,
            z: self.z + rhs.z,
        }
    }
}

impl<T: Add<Output = T> + Copy> vstd::std_specs::ops::AddSpecImpl<T> for Vec3<T> {
    open spec fn obeys_add_spec() -> bool {
        T::obeys_add_spec()
    }

    open spec fn add_req(self, rhs: T) -> bool {
        &&& self.x.add_req(rhs)
        &&& self.y.add_req(rhs)
        &&& self.z.add_req(rhs)
    }

    open spec fn add_spec(self, rhs: T) -> Vec3<T> {
        Vec3 {
            x: self.x.add_spec(rhs),
            y: self.y.add_spec(rhs),
            z: self.z.add_spec(rhs),
        }
    }
}

impl<T: Add<Output = T> + Copy> Add<T> for Vec3<T> {
    type Output = Vec3<T>;

    /// The same element added to every component.
    fn add(self, rhs: T) -> (r: Vec3<T>)
        ensures
            call_ensures(T::add, (self.x, rhs), r.x),
            call_ensures(T::add, (self.y, rhs), r.y),
            call_ensures(T::add, (self.z, rhs), r.z),
    {
        Vec3 {
            x: self.x + rhs,
            y: self.y + rhs,
            z: self.z + rhs,
        }
    }
}

impl<T: Neg<Output = T>> vstd::std_specs::ops::NegSpecImpl for Vec3<T> {
    open spec fn obeys_neg_spec() -> bool {
        T::obeys_neg_spec()
    }

    open spec fn neg_req(self) -> bool {
        &&& self.x.neg_req()
        &&& self.y.neg_req()
        &&& self.z.neg_req()
    }

    open spec fn neg_spec(self) -> Vec3<T> {
        Vec3 {
            x: self.x.neg_spec(),
            y: self.y.neg_spec(),
            z: self.z.neg_spec(),
        }
    }
}

impl<T: Neg<Output = T>> Neg for Vec3<T> {
    type Output = Vec3<T>;

    /// Componentwise negation.
    fn neg(self) -> (r: Vec3<T>)
        ensures
            call_ensures(T::neg, (self.x,), r.x),
            call_ensures(T::neg, (self.y,), r.y),
            call_ensures(T::neg, (self.z,), r.z),
    {
        Vec3 {
            x: self.x.neg(),
            y: self.y.neg(),
            z: self.z.neg(),
        }
    }
}

impl<T: Sub<Output = T>> vstd::std_specs::ops::SubSpecImpl<Vec3<T>> for Vec3<T> {
    open spec fn obeys_sub_spec() -> bool {
        T::obeys_sub_spec()
    }

    open spec fn sub_req(self, rhs: Vec3<T>) -> bool {
        &&& self.x.sub_req(rhs.x)
        &&& self.y.sub_req(rhs.y)
        &&& self.z.sub_req(rhs.z)
    }

    open spec fn sub_spec(self, rhs: Vec3<T>) -> Vec3<T> {
        Vec3 {
            x: self.x.sub_spec(rhs.x),
            y: self.y.sub_spec(rhs.y),
            z: self.z.sub_spec(rhs.z),
        }
    }
}

impl<T: Sub<Output = T>> Sub<Vec3<T>> for Vec3<T> {
    type Output = Vec3<T>;

    /// Componentwise difference.
    fn sub(self, rhs: Vec3<T>) -> (r: Vec3<T>)
        ensures
            call_ensures(T::sub, (self.x, rhs.x), r.x),
            call_ensures(T::sub, (self.y, rhs.y), r.y),
            call_ensures(T::sub, (self.z, rhs.z), r.z),
    {
        Vec3 {
            x: self.x - rhs.x,
            y: self.y - rhs.y,
            z: self.z - rhs.z,
        }
    }
}

impl<T: Sub<Output = T> + Copy> vstd::std_specs::ops::SubSpecImpl<T> for Vec3<T> {
    open spec fn obeys_sub_spec() -> bool {
        T::obeys_sub_spec()
    }

    open spec fn sub_req(self, rhs: T) -> bool {
        &&& self.x.sub_req(rhs)
        &&& self.y.sub_req(rhs)
        &&& self.z.sub_req(rhs)
    }

    open spec fn sub_spec(self, rhs: T) -> Vec3<T> {
        Vec3 {
            x: self.x.sub_spec(rhs),
            y: self.y.sub_spec(rhs),
            z: self.z.sub_spec(rhs),
        }
    }
}

impl<T: Sub<Output = T> + Copy> Sub<T> for Vec3<T> {
    type Output = Vec3<T>;

    /// The same element taken from every component.
    fn sub(self, rhs: T) -> (r: Vec3<T>)
        ensures
            call_ensures(T::sub, (self.x, rhs), r.x),
            call_ensures(T::sub, (self.y, rhs), r.y),
            call_ensures(T::sub, (self.z, rhs), r.z),
    {
        Vec3 {
            x: self.x - rhs,
            y: self.y - rhs,
            z: self.z - rhs,
        }
    }
}

impl<T: Mul<Output = T> + Add<Output = T>> vstd::std_specs::ops::MulSpecImpl<Vec3<T>> for Vec3<T> {
    open spec fn obeys_mul_spec() -> bool {
        T::obeys_mul_spec() && T::obeys_add_spec()
    }

    /// The three products and the two sums, taken from the left, must each
    /// be allowed. The sums are sums of products, so the element type's
    /// product and sum have to be functions of their operands.
    open spec fn mul_req(self, rhs: Vec3<T>) -> bool {
        let s_x = self.x.mul_spec(rhs.x);
        let s_y = s_x.add_spec(self.y.mul_spec(rhs.y));
        &&& T::obeys_mul_spec()
        &&& T::obeys_add_spec()
        &&& self.x.mul_req(rhs.x)
        &&& self.y.mul_req(rhs.y)
        &&& self.z.mul_req(rhs.z)
        &&& s_x.add_req(self.y.mul_spec(rhs.y))
        &&& s_y.add_req(self.z.mul_spec(rhs.z))
    }

    /// `x * x' + y * y' + z * z'`, summed from the left.
    open spec fn mul_spec(self, rhs: Vec3<T>) -> T {
        self.x.mul_spec(rhs.x)
            .add_spec(self.y.mul_spec(rhs.y))
            .add_spec(self.z.mul_spec(rhs.z))
    }
}

impl<T: Mul<Output = T> + Add<Output = T>> Mul<Vec3<T>> for Vec3<T> {
    type Output = T;

    /// Dot product: where it may be applied, it is `self.mul_spec(rhs)`.
    fn mul(self, rhs: Vec3<T>) -> (r: T) {
        self.x * rhs.x + self.y * rhs.y + self.z * rhs.z
    }
}

impl<T: Mul<Output = T> + Copy> vstd::std_specs::ops::MulSpecImpl<T> for Vec3<T> {
    open spec fn obeys_mul_spec() -> bool {
        T::obeys_mul_spec()
    }

    open spec fn mul_req(self, rhs: T) -> bool {
        &&& self.x.mul_req(rhs)
        &&& self.y.mul_req(rhs)
        &&& self.z.mul_req(rhs)
    }

    open spec fn mul_spec(self, rhs: T) -> Vec3<T> {
        Vec3 {
            x: self.x.mul_spec(rhs),
            y: self.y.mul_spec(rhs),
            z: self.z.mul_spec(rhs),
        }
    }
}

impl<T: Mul<Output = T> + Copy> Mul<T> for Vec3<T> {
    type Output = Vec3<T>;

    /// Every component times the same element.
    fn mul(self, rhs: T) -> (r: Vec3<T>)
        ensures
            call_ensures(T::mul, (self.x, rhs), r.x),
            call_ensures(T::mul, (self.y, rhs), r.y),
            call_ensures(T::mul, (self.z, rhs), r.z),
    {
        Vec3 {
            x: self.x * rhs,
            y: self.y * rhs,
            z: self.z * rhs,
        }
    }
}

impl<T: Div<Output = T> + Copy> vstd::std_specs::ops::DivSpecImpl<T> for Vec3<T> {
    open spec fn obeys_div_spec() -> bool {
        T::obeys_div_spec()
    }

    open spec fn div_req(self, rhs: T) -> bool {
        &&& self.x.div_req(rhs)
        &&& self.y.div_req(rhs)
        &&& self.z.div_req(rhs)
    }

    open spec fn div_spec(self, rhs: T) -> Vec3<T> {
        Vec3 {
            x: self.x.div_spec(rhs),
            y: self.y.div_spec(rhs),
            z: self.z.div_spec(rhs),
        }
    }
}

impl<T: Div<Output = T> + Copy> Div<T> for Vec3<T> {
    type Output = Vec3<T>;

    /// Every component divided by the same element.
    fn div(self, rhs: T) -> (r: Vec3<T>)
        ensures
            call_ensures(T::div, (self.x, rhs), r.x),
            call_ensures(T::div, (self.y, rhs), r.y),
            call_ensures(T::div, (self.z, rhs), r.z),
    {
        Vec3 {
            x: self.x / rhs,
            y: self.y / rhs,
            z: self.z / rhs,
        }
    }
}

/// Four weights of one type: the tuple `(x, y, z, w)`. [`Vec4::new`] takes
/// them in that order, so the first slot is `x` and the fourth is `w`. Sums
/// over the components, as in the dot product, start with `w`.
#[derive(Debug, Default, Clone, Copy, PartialEq)]
pub struct Vec4<T> {
    pub w: T,
    pub x: T,
    pub y: T,
    pub z: T,
}

impl<T: Default> Vec4<T> {
    /// The vector with the given components: `x` first, `w` last.
    pub fn new(x: T, y: T, z: T, w: T) -> (r: Self)
        ensures
            r == (Vec4 { w, x, y, z }),
    {
        Self { w, x, y, z }
    }

    /// The vector whose components are each a default value of the element
    /// type: for a number type, the zero vector.
    #[allow(dead_code)]
    pub fn id() -> (r: Self)
        ensures
            call_ensures(T::default, (), r.w),
            call_ensures(T::default, (), r.x),
            call_ensures(T::default, (), r.y),
            call_ensures(T::default, (), r.z),
    {
        Self { w: T::default(), x: T::default(), y: T::default(), z: T::default() }
    }
}

impl<T: Scalar> Vec4<T> {
    /// The square root of the vector's dot product with itself.
    pub open spec fn norm_spec(self) -> T {
        self.mul_spec(self).sqrt_spec()
    }

    /// Each component divided by the norm.
    pub open spec fn normalize_spec(self) -> Vec4<T> {
        self.div_spec(self.norm_spec())
    }

    /// Euclidean length.
    pub fn norm(&self) -> (r: T)
        requires
            lawful::<T>(),
        ensures
            r == self.norm_spec(),
    {
        (*self * *self).sqrt()
    }

    /// The vector scaled to length one. Of a vector of length zero it is
    /// whatever the number type makes of a division by zero.
    pub fn normalize(&self) -> (r: Self)
        requires
            lawful::<T>(),
        ensures
            r == self.normalize_spec(),
    {
        let norm = self.norm();
        *self / norm
    }
}

impl<T: Add<Output = T>> vstd::std_specs::ops::AddSpecImpl<Vec4<T>> for Vec4<T> {
    open spec fn obeys_add_spec() -> bool {
        T::obeys_add_spec()
    }

    open spec fn add_req(self, rhs: Vec4<T>) -> bool {
        &&& self.w.add_req(rhs.w)
        &&& self.x.add_req(rhs.x)
        &&& self.y.add_req(rhs.y)
        &&& self.z.add_req(rhs.z)
    }

    open spec fn add_spec(self, rhs: Vec4<T>) -> Vec4<T> {
        Vec4 {
            w: self.w.add_spec(rhs.w),
            x: self.x.add_spec(rhs.x),
            y: self.y.add_spec(rhs.y),
            z: self.z.add_spec(rhs.z),
        }
    }
}

impl<T: Add<Output = T>> Add<Vec4<T>> for Vec4<T> {
    type Output = Vec4<T>;

    /// Componentwise sum.
    fn add(self, rhs: Vec4<T>) -> (r: Vec4<T>)
        ensures
            call_ensures(T::add, (self.w, rhs.w), r.w),
            call_ensures(T::add, (self.x, rhs.x), r.x),
            call_ensures(T::add, (self.y, rhs.y), r.y),
            call_ensures(T::add, (self.z, rhs.z), r.z),
    {
        Vec4 {
            w: self.w + rhs.w,
            x: self.x + rhs.x,
            y: self.y + rhs.y,
            z: self.z + rhs.z,
        }
    }
}

impl<T: Add<Output = T> + Copy> vstd::std_specs::ops::AddSpecImpl<T> for Vec4<T> {
    open spec fn obeys_add_spec() -> bool {
        T::obeys_add_spec()
    }

    open spec fn add_req(self, rhs: T) -> bool {
        &&& self.w.add_req(rhs)
        &&& self.x.add_req(rhs)
        &&& self.y.add_req(rhs)
        &&& self.z.add_req(rhs)
    }

    open spec fn add_spec(self, rhs: T) -> Vec4<T> {
        Vec4 {
            w: self.w.add_spec(rhs),
            x: self.x.add_spec(rhs),
            y: self.y.add_spec(rhs),
            z: self.z.add_spec(rhs),
        }
    }
}

impl<T: Add<Output = T> + Copy> Add<T> for Vec4<T> {
    type Output = Vec4<T>;

    /// The same element added to every component.
    fn add(self, rhs: T) -> (r: Vec4<T>)
        ensures
            call_ensures(T::add, (self.w, rhs), r.w),
            call_ensures(T::add, (self.x, rhs), r.x),
            call_ensures(T::add, (self.y, rhs), r.y),
            call_ensures(T::add, (self.z, rhs), r.z),
    {
        Vec4 {
            w: self.w + rhs,
            x: self.x + rhs,
            y: self.y + rhs,
            z: self.z + rhs,
        }
    }
}

impl<T: Neg<Output = T>> vstd::std_specs::ops::NegSpecImpl for Vec4<T> {
    open spec fn obeys_neg_spec() -> bool {
        T::obeys_neg_spec()
    }

    open spec fn neg_req(self) -> bool {
        &&& self.w.neg_req()
        &&& self.x.neg_req()
        &&& self.y.neg_req()
        &&& self.z.neg_req()
    }

    open spec fn neg_spec(self) -> Vec4<T> {
        Vec4 {
            w: self.w.neg_spec(),
            x: self.x.neg_spec(),
            y: self.y.neg_spec(),
            z: self.z.neg_spec(),
        }
    }
}

impl<T: Neg<Output = T>> Neg for Vec4<T> {
    type Output = Vec4<T>;

    /// Componentwise negation.
    fn neg(self) -> (r: Vec4<T>)
        ensures
            call_ensures(T::neg, (self.w,), r.w),
            call_ensures(T::neg, (self.x,), r.x),
            call_ensures(T::neg, (self.y,), r.y),
            call_ensures(T::neg, (self.z,), r.z),
    {
        Vec4 {
            w: self.w.neg(),
            x: self.x.neg(),
            y: self.y.neg(),
            z: self.z.neg(),
        }
    }
}

impl<T: Sub<Output = T>> vstd::std_specs::ops::SubSpecImpl<Vec4<T>> for Vec4<T> {
    open spec fn obeys_sub_spec() -> bool {
        T::obeys_sub_spec()
    }

    open spec fn sub_req(self, rhs: Vec4<T>) -> bool {
        &&& self.w.sub_req(rhs.w)
        &&& self.x.sub_req(rhs.x)
        &&& self.y.sub_req(rhs.y)
        &&& self.z.sub_req(rhs.z)
    }

    open spec fn sub_spec(self, rhs: Vec4<T>) -> Vec4<T> {
        Vec4 {
            w: self.w.sub_spec(rhs.w),
            x: self.x.sub_spec(rhs.x),
            y: self.y.sub_spec(rhs.y),
            z: self.z.sub_spec(rhs.z),
        }
    }
}

impl<T: Sub<Output = T>> Sub<Vec4<T>> for Vec4<T> {
    type Output = Vec4<T>;

    /// Componentwise difference.
    fn sub(self, rhs: Vec4<T>) -> (r: Vec4<T>)
        ensures
            call_ensures(T::sub, (self.w, rhs.w), r.w),
            call_ensures(T::sub, (self.x, rhs.x), r.x),
            call_ensures(T::sub, (self.y, rhs.y), r.y),
            call_ensures(T::sub, (self.z, rhs.z), r.z),
    {
        Vec4 {
            w: self.w - rhs.w,
            x: self.x - rhs.x,
            y: self.y - rhs.y,
            z: self.z - rhs.z,
        }
    }
}

impl<T: Sub<Output = T> + Copy> vstd::std_specs::ops::SubSpecImpl<T> for Vec4<T> {
    open spec fn obeys_sub_spec() -> bool {
        T::obeys_sub_spec()
    }

    open spec fn sub_req(self, rhs: T) -> bool {
        &&& self.w.sub_req(rhs)
        &&& self.x.sub_req(rhs)
        &&& self.y.sub_req(rhs)
        &&& self.z.sub_req(rhs)
    }

    open spec fn sub_spec(self, rhs: T) -> Vec4<T> {
        Vec4 {
            w: self.w.sub_spec(rhs),
            x: self.x.sub_spec(rhs),
            y: self.y.sub_spec(rhs),
            z: self.z.sub_spec(rhs),
        }
    }
}

impl<T: Sub<Output = T> + Copy> Sub<T> for Vec4<T> {
    type Output = Vec4<T>;

    /// The same element taken from every component.
    fn sub(self, rhs: T) -> (r: Vec4<T>)
        ensures
            call_ensures(T::sub, (self.w, rhs), r.w),
            call_ensures(T::sub, (self.x, rhs), r.x),
            call_ensures(T::sub, (self.y, rhs), r.y),
            call_ensures(T::sub, (self.z, rhs), r.z),
    {
        Vec4 {
            w: self.w - rhs,
            x: self.x - rhs,
            y: self.y - rhs,
            z: self.z - rhs,
        }
    }
}

impl<T: Mul<Output = T> + Add<Output = T>> vstd::std_specs::ops::MulSpecImpl<Vec4<T>> for Vec4<T> {
    open spec fn obeys_mul_spec() -> bool {
        T::obeys_mul_spec() && T::obeys_add_spec()
    }

    /// The four products and the three sums, taken from the left, must each
    /// be allowed. The sums are sums of products, so the element type's
    /// product and sum have to be functions of their operands.
    open spec fn mul_req(self, rhs: Vec4<T>) -> bool {
        let s_w = self.w.mul_spec(rhs.w);
        let s_x = s_w.add_spec(self.x.mul_spec(rhs.x));
        let s_y = s_x.add_spec(self.y.mul_spec(rhs.y));
        &&& T::obeys_mul_spec()
        &&& T::obeys_add_spec()
        &&& self.w.mul_req(rhs.w)
        &&& self.x.mul_req(rhs.x)
        &&& self.y.mul_req(rhs.y)
        &&& self.z.mul_req(rhs.z)
        &&& s_w.add_req(self.x.mul_spec(rhs.x))
        &&& s_x.add_req(self.y.mul_spec(rhs.y))
        &&& s_y.add_req(self.z.mul_spec(rhs.z))
    }

    /// `w * w' + x * x' + y * y' + z * z'`, summed from the left.
    open spec fn mul_spec(self, rhs: Vec4<T>) -> T {
        self.w.mul_spec(rhs.w)
            .add_spec(self.x.mul_spec(rhs.x))
            .add_spec(self.y.mul_spec(rhs.y))
            .add_spec(self.z.mul_spec(rhs.z))
    }
}

impl<T: Mul<Output = T> + Add<Output = T>> Mul<Vec4<T>> for Vec4<T> {
    type Output = T;

    /// Dot product: where it may be applied, it is `self.mul_spec(rhs)`.
    fn mul(self, rhs: Vec4<T>) -> (r: T) {
        self.w * rhs.w + self.x * rhs.x + self.y * rhs.y + self.z * rhs.z
    }
}

impl<T: Mul<Output = T> + Copy> vstd::std_specs::ops::MulSpecImpl<T> for Vec4<T> {
    open spec fn obeys_mul_spec() -> bool {
        T::obeys_mul_spec()
    }

    open spec fn mul_req(self, rhs: T) -> bool {
        &&& self.w.mul_req(rhs)
        &&& self.x.mul_req(rhs)
        &&& self.y.mul_req(rhs)
        &&& self.z.mul_req(rhs)
    }

    open spec fn mul_spec(self, rhs: T) -> Vec4<T> {
        Vec4 {
            w: self.w.mul_spec(rhs),
            x: self.x.mul_spec(rhs),
            y: self.y.mul_spec(rhs),
            z: self.z.mul_spec(rhs),
        }
    }
}

impl<T: Mul<Output = T> + Copy> Mul<T> for Vec4<T> {
    type Output = Vec4<T>;

    /// Every component times the same element.
    fn mul(self, rhs: T) -> (r: Vec4<T>)
        ensures
            call_ensures(T::mul, (self.w, rhs), r.w),
            call_ensures(T::mul, (self.x, rhs), r.x),
            call_ensures(T::mul, (self.y, rhs), r.y),
            call_ensures(T::mul, (self.z, rhs), r.z),
    {
        Vec4 {
            w: self.w * rhs,
            x: self.x * rhs,
            y: self.y * rhs,
            z: self.z * rhs,
        }
    }
}

impl<T: Div<Output = T> + Copy> vstd::std_specs::ops::DivSpecImpl<T> for Vec4<T> {
    open spec fn obeys_div_spec() -> bool {
        T::obeys_div_spec()
    }

    open spec fn div_req(self, rhs: T) -> bool {
        &&& self.w.div_req(rhs)
        &&& self.x.div_req(rhs)
        &&& self.y.div_req(rhs)
        &&& self.z.div_req(rhs)
    }

    open spec fn div_spec(self, rhs: T) -> Vec4<T> {
        Vec4 {
            w: self.w.div_spec(rhs),
            x: self.x.div_spec(rhs),
            y: self.y.div_spec(rhs),
            z: self.z.div_spec(rhs),
        }
    }
}

impl<T: Div<Output = T> + Copy> Div<T> for Vec4<T> {
    type Output = Vec4<T>;

    /// Every component divided by the same element.
    fn div(self, rhs: T) -> (r: Vec4<T>)
        ensures
            call_ensures(T::div, (self.w, rhs), r.w),
            call_ensures(T::div, (self.x, rhs), r.x),
            call_ensures(T::div, (self.y, rhs), r.y),
            call_ensures(T::div, (self.z, rhs), r.z),
    {
        Vec4 {
            w: self.w / rhs,
            x: self.x / rhs,
            y: self.y / rhs,
            z: self.z / rhs,
        }
    }
}

} // verus!
