//! What the surfaces do in exact arithmetic.
//!
//! The renderer asks no law of algebra of its number type, and floating
//! point keeps few. Here the laws of an ordered field are asked for, named
//! one by one in [`exact`], and under them two facts of geometry are proved
//! of the surfaces' formulas: a ray aimed at a sphere's centre from outside
//! meets the sphere at its distance less the radius, and a normal has length
//! one. Square roots are asked to be exact on squares alone, so the laws
//! hold of exact fractions, and both facts speak of lengths that are numbers
//! of the type. Of floating point they hold as far as its rounding goes.
use crate::geometry::{
    closest_approach, forward_root, miss_distance_squared, Object, Plane, Sphere,
};
use crate::scalar::{below, Scalar, ScalarSpec};
use crate::vector::Vec3;
use vstd::prelude::*;
use vstd::std_specs::cmp::PartialOrdIs;
use vstd::std_specs::ops::{AddSpec, DivSpec, MulSpec, SubSpec};

verus! {

/// The number 0, as the renderer writes it.
pub open spec fn nought<T: Scalar>() -> T {
    T::ratio_spec(0, 1)
}

/// The number 1, as the renderer writes it.
pub open spec fn one<T: Scalar>() -> T {
    T::ratio_spec(1, 1)
}

/// `(a * b) * c == a * (b * c)`.
pub open spec fn product_regroups<T: Scalar>(a: T, b: T, c: T) -> bool {
    a.mul_spec(b).mul_spec(c) == a.mul_spec(b.mul_spec(c))
}

/// `a * b == b * a`.
pub open spec fn product_commutes<T: Scalar>(a: T, b: T) -> bool {
    a.mul_spec(b) == b.mul_spec(a)
}

/// `(a + b) * c == a * c + b * c`.
pub open spec fn product_distributes<T: Scalar>(a: T, b: T, c: T) -> bool {
    a.add_spec(b).mul_spec(c) == a.mul_spec(c).add_spec(b.mul_spec(c))
}

/// Division undoes multiplication and multiplication undoes division,
/// unless by zero: `(a / c) * c == a` and `(a * c) / c == a`.
pub open spec fn quotient_inverts<T: Scalar>(a: T, c: T) -> bool {
    c != nought::<T>() ==> a.div_spec(c).mul_spec(c) == a && a.mul_spec(c).div_spec(c) == a
}

/// `a - a == 0`, `a - 0 == a`, `0 + a == a`, `a + 0 == a`, `1 * a == a` and
/// `0 * a == 0`.
pub open spec fn units_are_neutral<T: Scalar>(a: T) -> bool {
    &&& a.sub_spec(a) == nought::<T>()
    &&& a.sub_spec(nought::<T>()) == a
    &&& nought::<T>().add_spec(a) == a
    &&& a.add_spec(nought::<T>()) == a
    &&& one::<T>().mul_spec(a) == a
    &&& nought::<T>().mul_spec(a) == nought::<T>()
}

/// `a > b` is `b < a`; no square is below zero; and `a - b` is above zero
/// where `b` is below `a`.
pub open spec fn order_agrees<T: Scalar>(a: T, b: T) -> bool {
    &&& a.is_gt(&b) == below(b, a)
    &&& !below(a.mul_spec(a), nought::<T>())
    &&& below(b, a) ==> below(nought::<T>(), a.sub_spec(b))
}

/// The square root of the square of a number not below zero is the number,
/// and the second power of a number is its square.
pub open spec fn roots_of_squares<T: Scalar>(a: T) -> bool {
    &&& !below(a, nought::<T>()) ==> a.mul_spec(a).sqrt_spec() == a
    &&& a.powi_spec(2) == a.mul_spec(a)
}

/// The arithmetic of `T` is that of an ordered field, with 1 not below 0
/// and with exact square roots of squares.
pub open spec fn exact<T: Scalar>() -> bool {
    &&& forall|a: T, b: T, c: T| #[trigger] product_regroups(a, b, c)
    &&& forall|a: T, b: T| #[trigger] product_commutes(a, b)
    &&& forall|a: T, b: T, c: T| #[trigger] product_distributes(a, b, c)
    &&& forall|a: T, c: T| #[trigger] quotient_inverts(a, c)
    &&& forall|a: T| #[trigger] units_are_neutral(a)
    &&& forall|a: T, b: T| #[trigger] order_agrees(a, b)
    &&& forall|a: T| #[trigger] roots_of_squares(a)
    &&& !below(one::<T>(), nought::<T>())
}

/// `a * (b / n) == (a * b) / n`.
proof fn lemma_product_with_quotient<T: Scalar>(a: T, b: T, n: T)
    requires
        exact::<T>(),
        n != nought::<T>(),
    ensures
        a.mul_spec(b.div_spec(n)) == a.mul_spec(b).div_spec(n),
{
    let q = b.div_spec(n);
    assert(product_regroups(a, q, n));
    assert(quotient_inverts(b, n));
    assert(quotient_inverts(a.mul_spec(q), n));
}

/// `p / n + q / n == (p + q) / n`.
proof fn lemma_sum_of_quotients<T: Scalar>(p: T, q: T, n: T)
    requires
        exact::<T>(),
        n != nought::<T>(),
    ensures
        p.div_spec(n).add_spec(q.div_spec(n)) == p.add_spec(q).div_spec(n),
{
    let a = p.div_spec(n);
    let b = q.div_spec(n);
    assert(product_distributes(a, b, n));
    assert(quotient_inverts(p, n));
    assert(quotient_inverts(q, n));
    assert(quotient_inverts(a.add_spec(b), n));
}

/// `l * (m / n) == (l * m) / n` for vectors `l` and `m`.
proof fn lemma_dot_with_quotient<T: Scalar>(l: Vec3<T>, m: Vec3<T>, n: T)
    requires
        exact::<T>(),
        n != nought::<T>(),
    ensures
        l.mul_spec(m.div_spec(n)) == l.mul_spec(m).div_spec(n),
{
    lemma_product_with_quotient(l.x, m.x, n);
    lemma_product_with_quotient(l.y, m.y, n);
    lemma_product_with_quotient(l.z, m.z, n);
    let px = l.x.mul_spec(m.x);
    let py = l.y.mul_spec(m.y);
    let pz = l.z.mul_spec(m.z);
    lemma_sum_of_quotients(px, py, n);
    lemma_sum_of_quotients(px.add_spec(py), pz, n);
}

/// A vector whose dot product with itself is the square of a number not
/// below zero has that number as its length.
pub proof fn lemma_norm_of_measured<T: Scalar>(v: Vec3<T>, n: T)
    requires
        exact::<T>(),
        !below(n, nought::<T>()),
        v.mul_spec(v) == n.mul_spec(n),
    ensures
        v.norm_spec() == n,
{
    assert(roots_of_squares(n));
}

/// In exact arithmetic, a ray that starts outside a sphere and points at its
/// centre meets the sphere at its distance from the centre, less the radius.
///
/// `n` is the distance from `orig` to the centre: a number not below zero
/// whose square is the dot product of `center - orig` with itself. Outside
/// means that the radius is below `n`.
pub proof fn lemma_sphere_met_head_on<T: Scalar>(sphere: Sphere<T>, orig: Vec3<T>, n: T)
    requires
        exact::<T>(),
        !below(sphere.radius, nought::<T>()),
        !below(n, nought::<T>()),
        sphere.center.sub_spec(orig).mul_spec(sphere.center.sub_spec(orig)) == n.mul_spec(n),
        below(sphere.radius, n),
    ensures
        sphere.center.sub_spec(orig).norm_spec() == n,
        sphere.ray_intersect_spec(orig, sphere.center.sub_spec(orig).normalize_spec()) == Some(
            n.sub_spec(sphere.radius),
        ),
{
    let l = sphere.center.sub_spec(orig);
    let r = sphere.radius;
    let zero = nought::<T>();
    lemma_norm_of_measured(l, n);
    let dir = l.normalize_spec();
    assert(dir == l.div_spec(n));
    assert(n != zero);
    // The closest approach is the distance itself.
    lemma_dot_with_quotient(l, l, n);
    assert(quotient_inverts(n, n));
    let tca = closest_approach(sphere.center, orig, dir);
    assert(tca == n);
    // The ray passes through the centre.
    assert(units_are_neutral(n.mul_spec(n)));
    let d2 = miss_distance_squared(sphere.center, orig, dir);
    assert(d2 == zero);
    // So it does not pass outside the radius, and the half chord is the radius.
    assert(roots_of_squares(r));
    let r2 = r.powi_spec(2);
    assert(order_agrees(zero, r2));
    assert(order_agrees(r, r));
    assert(!d2.is_gt(&r2));
    assert(units_are_neutral(r2));
    let thc = r2.sub_spec(d2).sqrt_spec();
    assert(thc == r);
    // The near root is ahead.
    assert(order_agrees(n, r));
    assert(order_agrees(n.sub_spec(r), zero));
    assert(forward_root(tca, thc) == Some(n.sub_spec(r)));
}

/// In exact arithmetic, the normal of a sphere at a point other than its
/// centre has length one and points from the centre to the point: scaled by
/// the point's distance from the centre it is `hit - center`.
///
/// `n` is that distance: a number not below zero, and not zero, whose square
/// is the dot product of `hit - center` with itself.
pub proof fn lemma_sphere_normal_is_unit<T: Scalar>(sphere: Sphere<T>, hit: Vec3<T>, n: T)
    requires
        exact::<T>(),
        !below(n, nought::<T>()),
        n != nought::<T>(),
        hit.sub_spec(sphere.center).mul_spec(hit.sub_spec(sphere.center)) == n.mul_spec(n),
    ensures
        sphere.compute_normal_spec(hit).norm_spec() == one::<T>(),
        sphere.compute_normal_spec(hit).mul_spec(n) == hit.sub_spec(sphere.center),
{
    let arm = hit.sub_spec(sphere.center);
    lemma_norm_of_measured(arm, n);
    let u = sphere.compute_normal_spec(hit);
    assert(u == arm.div_spec(n));
    // Scaled back it is the arm.
    assert(quotient_inverts(arm.x, n));
    assert(quotient_inverts(arm.y, n));
    assert(quotient_inverts(arm.z, n));
    // Its dot product with the arm is the arm's length.
    assert(product_commutes(u.x, arm.x));
    assert(product_commutes(u.y, arm.y));
    assert(product_commutes(u.z, arm.z));
    assert(u.mul_spec(arm) == arm.mul_spec(u));
    lemma_dot_with_quotient(arm, arm, n);
    assert(quotient_inverts(n, n));
    assert(u.mul_spec(arm) == n);
    // So its dot product with itself is one.
    lemma_dot_with_quotient(u, arm, n);
    assert(units_are_neutral(n));
    assert(quotient_inverts(one::<T>(), n));
    assert(u.mul_spec(u) == one::<T>());
    assert(units_are_neutral(one::<T>()));
    assert(roots_of_squares(one::<T>()));
}

/// In exact arithmetic, the floor's normal has length one.
pub proof fn lemma_floor_normal_is_unit<T: Scalar>(plane: Plane<T>, hit: Vec3<T>)
    requires
        exact::<T>(),
    ensures
        plane.compute_normal_spec(hit).norm_spec() == one::<T>(),
{
    assert(units_are_neutral(nought::<T>()));
    assert(units_are_neutral(one::<T>()));
    assert(roots_of_squares(one::<T>()));
}

} // verus!
