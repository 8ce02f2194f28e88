//! What a sphere decides about a ray, once the quadratic is solved.

use vstd::prelude::*;
use crate::scalar::Scalar;

verus! {

/// The parameter of the hit: the near root, where the discriminant is
/// positive (the ray crosses the sphere twice) and the near root lies ahead
/// of the origin. The far root is never taken, so a ray that starts inside
/// the sphere misses it.
pub open spec fn root_of(discriminant: Scalar, near: Scalar) -> Option<Scalar> {
    let zero = Scalar { bits: 0 };
    if zero.less(discriminant) && zero.less(near) {
        Some(near)
    } else {
        None
    }
}

/// Where along the ray the sphere is hit, if at all, given the discriminant
/// of the ray's quadratic and its smaller root.
pub fn near_root(discriminant: Scalar, near: Scalar) -> (hit: Option<Scalar>)
    ensures
        hit == root_of(discriminant, near),
        hit matches Some(t) ==> t == near && t.value() > 0 && discriminant.value() > 0,
{
    let zero: Scalar = Scalar::zero();
    if discriminant.gt(zero) && near.gt(zero) {
        Some(near)
    } else {
        None
    }
}

} // verus!
