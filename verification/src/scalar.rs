//! The number type that coordinates, distances and colour channels are made
//! of.
//!
//! The renderer is written once, for every type that brings the operations
//! listed in [`Scalar`]; it is meant for floating point. The trait itself
//! promises nothing about the operations. What the renderer's contracts rest
//! on is said once, in [`lawful`]: every operation may be applied to every
//! operand, and what it returns depends on the operands alone. On that, each
//! contract states its result exactly, as an expression over what the
//! operations return. No law of algebra is asked for, since floating point
//! has few, so a result is never simplified: it is spelled out operation by
//! operation, in the order in which the operations are applied.
use std::ops::{Add, Div, Mul, Neg, Sub};
use vstd::prelude::*;
use vstd::std_specs::cmp::{PartialOrdIs, PartialOrdSpec};
use vstd::std_specs::ops::{AddSpec, DivSpec, MulSpec, NegSpec, SubSpec};

verus! {

/// A number type with the arithmetic, the order and the few elementary
/// functions that casting a ray needs. `Default` gives its zero, and `<` may
/// leave some values unordered.
pub trait Scalar: Copy + Default + PartialOrd + Add<Output = Self> + Sub<Output = Self> + Mul<
    Output = Self,
> + Div<Output = Self> + Neg<Output = Self> {
    /// The number `num / den`, as near as the type can hold it. The
    /// renderer's constants are made by it.
    fn ratio(num: u32, den: u32) -> Self;

    /// A value that no distance is above.
    fn infinity() -> Self;

    /// The circle constant.
    fn pi() -> Self;

    /// Square root.
    fn sqrt(self) -> Self;

    /// `self` to an integer power.
    fn powi(self, n: i32) -> Self;

    /// `self` to the power `n`.
    fn powf(self, n: Self) -> Self;

    /// Absolute value.
    fn abs(self) -> Self;

    /// The larger of the two.
    fn max(self, other: Self) -> Self;

    /// The smaller of the two.
    fn min(self, other: Self) -> Self;

    /// Tangent of an angle in radians.
    fn tan(self) -> Self;

    /// The integer part, held to `0..=255`.
    fn to_u8(self) -> u8;
}

/// What each operation of a [`Scalar`] returns, as a function of its
/// operands: the value that the operation itself gives.
pub trait ScalarSpec: Scalar {
    spec fn zero() -> Self;

    spec fn ratio_spec(num: u32, den: u32) -> Self;

    spec fn infinity_spec() -> Self;

    spec fn pi_spec() -> Self;

    spec fn sqrt_spec(self) -> Self;

    spec fn powi_spec(self, n: i32) -> Self;

    spec fn powf_spec(self, n: Self) -> Self;

    spec fn abs_spec(self) -> Self;

    spec fn max_spec(self, other: Self) -> Self;

    spec fn min_spec(self, other: Self) -> Self;

    spec fn tan_spec(self) -> Self;

    spec fn to_u8_spec(self) -> u8;
}

impl<T: Scalar> ScalarSpec for T {
    open spec fn zero() -> T {
        choose|r: T| call_ensures(T::default, (), r)
    }

    open spec fn ratio_spec(num: u32, den: u32) -> T {
        choose|r: T| call_ensures(T::ratio, (num, den), r)
    }

    open spec fn infinity_spec() -> T {
        choose|r: T| call_ensures(T::infinity, (), r)
    }

    open spec fn pi_spec() -> T {
        choose|r: T| call_ensures(T::pi, (), r)
    }

    open spec fn sqrt_spec(self) -> T {
        choose|r: T| call_ensures(T::sqrt, (self,), r)
    }

    open spec fn powi_spec(self, n: i32) -> T {
        choose|r: T| call_ensures(T::powi, (self, n), r)
    }

    open spec fn powf_spec(self, n: T) -> T {
        choose|r: T| call_ensures(T::powf, (self, n), r)
    }

    open spec fn abs_spec(self) -> T {
        choose|r: T| call_ensures(T::abs, (self,), r)
    }

    open spec fn max_spec(self, other: T) -> T {
        choose|r: T| call_ensures(T::max, (self, other), r)
    }

    open spec fn min_spec(self, other: T) -> T {
        choose|r: T| call_ensures(T::min, (self, other), r)
    }

    open spec fn tan_spec(self) -> T {
        choose|r: T| call_ensures(T::tan, (self,), r)
    }

    open spec fn to_u8_spec(self) -> u8 {
        choose|r: u8| call_ensures(T::to_u8, (self,), r)
    }
}

/// The five operators of `T` may be applied to all operands.
pub open spec fn total_arithmetic<T: Scalar>() -> bool {
    &&& forall|a: T, b: T| #[trigger] a.add_req(b)
    &&& forall|a: T, b: T| #[trigger] a.sub_req(b)
    &&& forall|a: T, b: T| #[trigger] a.mul_req(b)
    &&& forall|a: T, b: T| #[trigger] a.div_req(b)
    &&& forall|a: T| #[trigger] a.neg_req()
}

/// The operators and comparisons of `T` return what their specifications in
/// vstd say: each is a function of its operands.
pub open spec fn pure_arithmetic<T: Scalar>() -> bool {
    &&& T::obeys_add_spec()
    &&& T::obeys_sub_spec()
    &&& T::obeys_mul_spec()
    &&& T::obeys_div_spec()
    &&& T::obeys_neg_spec()
    &&& T::obeys_partial_cmp_spec()
}

/// Each function of [`Scalar`] returns one value for one choice of operands.
pub open spec fn pure_functions<T: Scalar>() -> bool {
    &&& forall|r: T| #[trigger] call_ensures(T::default, (), r) ==> r == T::zero()
    &&& forall|n: u32, d: u32, r: T| #[trigger]
        call_ensures(T::ratio, (n, d), r) ==> r == T::ratio_spec(n, d)
    &&& forall|r: T| #[trigger] call_ensures(T::infinity, (), r) ==> r == T::infinity_spec()
    &&& forall|r: T| #[trigger] call_ensures(T::pi, (), r) ==> r == T::pi_spec()
    &&& forall|a: T, r: T| #[trigger] call_ensures(T::sqrt, (a,), r) ==> r == a.sqrt_spec()
    &&& forall|a: T, n: i32, r: T| #[trigger]
        call_ensures(T::powi, (a, n), r) ==> r == a.powi_spec(n)
    &&& forall|a: T, n: T, r: T| #[trigger]
        call_ensures(T::powf, (a, n), r) ==> r == a.powf_spec(n)
    &&& forall|a: T, r: T| #[trigger] call_ensures(T::abs, (a,), r) ==> r == a.abs_spec()
    &&& forall|a: T, b: T, r: T| #[trigger]
        call_ensures(T::max, (a, b), r) ==> r == a.max_spec(b)
    &&& forall|a: T, b: T, r: T| #[trigger]
        call_ensures(T::min, (a, b), r) ==> r == a.min_spec(b)
    &&& forall|a: T, r: T| #[trigger] call_ensures(T::tan, (a,), r) ==> r == a.tan_spec()
    &&& forall|a: T, r: u8| #[trigger] call_ensures(T::to_u8, (a,), r) ==> r == a.to_u8_spec()
}

/// `a < b`, as `T` orders its values.
pub open spec fn below<T: Scalar>(a: T, b: T) -> bool {
    a.is_lt(&b)
}

/// `<` on `T` is a strict order: no value is below itself, and a value below
/// a second that is below a third is below the third. The renderer does not
/// ask for this. Where it holds, the surface that a ray meets first is a
/// nearest one.
pub open spec fn strict_order<T: Scalar>() -> bool {
    &&& forall|a: T| !#[trigger] below(a, a)
    &&& forall|a: T, b: T, c: T| #[trigger] below(a, b) && #[trigger] below(b, c) ==> below(a, c)
}

/// `T` behaves as a number type: its operations are total, and each is a
/// function of its operands. Nothing more is asked: no law of algebra, and
/// no law of order.
pub open spec fn lawful<T: Scalar>() -> bool {
    total_arithmetic::<T>() && pure_arithmetic::<T>() && pure_functions::<T>()
}

} // verus!
