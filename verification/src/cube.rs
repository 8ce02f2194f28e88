//! What an axis-aligned box decides about a ray, once the arithmetic is done.
//!
//! A ray crosses the two planes that bound the box on an axis at two ray
//! parameters; between them it is inside that slab. It is inside the box
//! where it is inside all three slabs. The face that a hit lies on is found
//! by how far the hit point is from each bounding plane.

use vstd::prelude::*;
use crate::scalar::{
    key_orders_value, Scalar, INFINITY_BITS, MINUS_ONE_BITS, NEG_INFINITY_BITS, ONE_BITS,
};
use crate::vector::Vec3;

verus! {

/// The pattern of `0.001`, the distance within which a point counts as lying
/// on a bounding plane.
pub const TOLERANCE_BITS: u32 = 0x3a83_126f;

/// The parameter at which the ray enters the slab of an axis.
pub open spec fn near_side(t_min: Vec3, t_max: Vec3, axis: int) -> Scalar {
    t_min.component(axis).min_of(t_max.component(axis))
}

/// The parameter at which the ray leaves the slab of an axis.
pub open spec fn far_side(t_min: Vec3, t_max: Vec3, axis: int) -> Scalar {
    t_min.component(axis).max_of(t_max.component(axis))
}

/// The parameter at which the ray has entered all three slabs.
pub open spec fn entry_of(t_min: Vec3, t_max: Vec3) -> Scalar {
    near_side(t_min, t_max, 0).max_of(near_side(t_min, t_max, 1)).max_of(
        near_side(t_min, t_max, 2),
    )
}

/// The parameter at which the ray leaves the first of the three slabs.
pub open spec fn exit_of(t_min: Vec3, t_max: Vec3) -> Scalar {
    far_side(t_min, t_max, 0).min_of(far_side(t_min, t_max, 1)).min_of(far_side(t_min, t_max, 2))
}

/// The parameter of the hit: none where the ray leaves a slab before it has
/// entered all of them, or leaves the box behind its origin; else the entry,
/// or, for an origin inside the box, the exit.
pub open spec fn hit_of(t_min: Vec3, t_max: Vec3) -> Option<Scalar> {
    let entry = entry_of(t_min, t_max);
    let exit = exit_of(t_min, t_max);
    let zero = Scalar { bits: 0 };
    if exit.less(entry) || exit.less(zero) {
        None
    } else if entry.less(zero) {
        Some(exit)
    } else {
        Some(entry)
    }
}

/// None of the three coordinates is a NaN.
pub open spec fn numbers(v: Vec3) -> bool {
    !v.x.nan() && !v.y.nan() && !v.z.nan()
}

/// At parameter `t` (in units of 2^-149) the ray is inside all three slabs.
pub open spec fn within_slabs(t_min: Vec3, t_max: Vec3, t: int) -> bool {
    &&& near_side(t_min, t_max, 0).value() <= t <= far_side(t_min, t_max, 0).value()
    &&& near_side(t_min, t_max, 1).value() <= t <= far_side(t_min, t_max, 1).value()
    &&& near_side(t_min, t_max, 2).value() <= t <= far_side(t_min, t_max, 2).value()
}

/// The ray is inside the box exactly from the entry to the exit.
pub proof fn box_is_entry_to_exit(t_min: Vec3, t_max: Vec3, t: int)
    requires
        numbers(t_min),
        numbers(t_max),
    ensures
        !entry_of(t_min, t_max).nan(),
        !exit_of(t_min, t_max).nan(),
        within_slabs(t_min, t_max, t) <==> entry_of(t_min, t_max).value() <= t <= exit_of(
            t_min,
            t_max,
        ).value(),
{
}

/// A ray hits the box exactly when some parameter at or after its origin
/// lies inside all three slabs.
pub proof fn hit_iff_box_ahead(t_min: Vec3, t_max: Vec3)
    requires
        numbers(t_min),
        numbers(t_max),
    ensures
        hit_of(t_min, t_max) is Some <==> exists|t: int| t >= 0 && within_slabs(t_min, t_max, t),
{
    let entry = entry_of(t_min, t_max);
    let exit = exit_of(t_min, t_max);
    box_is_entry_to_exit(t_min, t_max, exit.value());
    if hit_of(t_min, t_max) is Some {
        assert(exit.value() >= 0 && within_slabs(t_min, t_max, exit.value()));
    }
    if exists|t: int| t >= 0 && within_slabs(t_min, t_max, t) {
        let t = choose|t: int| t >= 0 && within_slabs(t_min, t_max, t);
        box_is_entry_to_exit(t_min, t_max, t);
    }
}

/// The hit lies on the box, at or after the ray's origin. From outside it is
/// the first parameter inside the box; from inside, the last.
pub proof fn hit_is_boundary(t_min: Vec3, t_max: Vec3, t: int)
    requires
        numbers(t_min),
        numbers(t_max),
        hit_of(t_min, t_max) is Some,
        within_slabs(t_min, t_max, t),
    ensures
        hit_of(t_min, t_max)->0.value() >= 0,
        within_slabs(t_min, t_max, hit_of(t_min, t_max)->0.value()),
        entry_of(t_min, t_max).value() >= 0 ==> hit_of(t_min, t_max)->0.value() <= t,
        entry_of(t_min, t_max).value() < 0 ==> t <= hit_of(t_min, t_max)->0.value(),
{
    box_is_entry_to_exit(t_min, t_max, t);
    box_is_entry_to_exit(t_min, t_max, hit_of(t_min, t_max)->0.value());
}

/// The ray never leaves the slab of an axis along which it does not move,
/// once its origin lies between the two planes: the crossings are at minus
/// and plus infinity.
pub open spec fn always_within(t_min: Vec3, t_max: Vec3, axis: int) -> bool {
    t_min.component(axis).bits == NEG_INFINITY_BITS && t_max.component(axis).bits
        == INFINITY_BITS
}

/// The ray never enters the slab of an axis along which it does not move,
/// once its origin lies beside the two planes: both crossings are at the same
/// infinity.
pub open spec fn never_within(t_min: Vec3, t_max: Vec3, axis: int) -> bool {
    t_min.component(axis).bits == t_max.component(axis).bits && (t_min.component(axis).bits
        == NEG_INFINITY_BITS || t_min.component(axis).bits == INFINITY_BITS)
}

/// A ray along `x` that starts before the box, between its planes on `y` and
/// `z`, hits it where it crosses the plane of `x` that it meets first.
pub proof fn ray_along_x_hits_first_plane(t_min: Vec3, t_max: Vec3)
    requires
        !t_min.x.nan(),
        !t_max.x.nan(),
        0 <= t_min.x.value() <= t_max.x.value(),
        always_within(t_min, t_max, 1),
        always_within(t_min, t_max, 2),
    ensures
        hit_of(t_min, t_max) == Some(t_min.x),
{
    let low = Scalar { bits: NEG_INFINITY_BITS };
    let high = Scalar { bits: INFINITY_BITS };
    let zero = Scalar { bits: 0 };
    key_orders_value(low, zero);
    key_orders_value(zero, high);
    key_orders_value(high, low);
    key_orders_value(t_min.x, high);
    key_orders_value(t_max.x, high);
    key_orders_value(high, t_min.x);
    key_orders_value(high, t_max.x);
}

/// A ray along `x` that passes beside the box on `y` or on `z` misses it.
pub proof fn ray_beside_the_box_misses(t_min: Vec3, t_max: Vec3)
    requires
        !t_min.x.nan(),
        !t_max.x.nan(),
        t_min.x.magnitude() < INFINITY_BITS,
        t_max.x.magnitude() < INFINITY_BITS,
        never_within(t_min, t_max, 1) && !t_min.z.nan() && !t_max.z.nan() || never_within(
            t_min,
            t_max,
            2,
        ) && !t_min.y.nan() && !t_max.y.nan(),
    ensures
        hit_of(t_min, t_max) is None,
{
    let low = Scalar { bits: NEG_INFINITY_BITS };
    let high = Scalar { bits: INFINITY_BITS };
    let zero = Scalar { bits: 0 };
    key_orders_value(low, zero);
    key_orders_value(zero, high);
    key_orders_value(low, high);
    key_orders_value(t_min.x, high);
    key_orders_value(t_max.x, high);
    key_orders_value(high, t_min.x);
    key_orders_value(high, t_max.x);
    key_orders_value(low, t_min.x);
    key_orders_value(low, t_max.x);
    key_orders_value(t_min.x, low);
    key_orders_value(t_max.x, low);
    key_orders_value(t_min.y, high);
    key_orders_value(t_max.y, high);
    key_orders_value(t_min.z, high);
    key_orders_value(t_max.z, high);
    key_orders_value(t_min.y, low);
    key_orders_value(t_max.y, low);
    key_orders_value(t_min.z, low);
    key_orders_value(t_max.z, low);
}

/// The parameter at which the ray has entered all three slabs.
pub fn slab_entry(t_min: &Vec3, t_max: &Vec3) -> (entry: Scalar)
    ensures
        entry == entry_of(*t_min, *t_max),
{
    t_min.x.min(t_max.x).max(t_min.y.min(t_max.y)).max(t_min.z.min(t_max.z))
}

/// The parameter at which the ray leaves the first of the three slabs.
pub fn slab_exit(t_min: &Vec3, t_max: &Vec3) -> (exit: Scalar)
    ensures
        exit == exit_of(*t_min, *t_max),
{
    t_min.x.max(t_max.x).min(t_min.y.max(t_max.y)).min(t_min.z.max(t_max.z))
}

/// Where along the ray the box is hit, if at all, given the parameters at
/// which the ray crosses the lower (`t_min`) and upper (`t_max`) bounding
/// plane of each axis.
pub fn slab_hit(t_min: &Vec3, t_max: &Vec3) -> (hit: Option<Scalar>)
    ensures
        hit == hit_of(*t_min, *t_max),
{
    let entry: Scalar = slab_entry(t_min, t_max);
    let exit: Scalar = slab_exit(t_min, t_max);
    let zero: Scalar = Scalar::zero();
    if entry.gt(exit) || exit.lt(zero) {
        None
    } else if entry.lt(zero) {
        Some(exit)
    } else {
        Some(entry)
    }
}

/// An offset from a bounding plane that is small enough to count as none.
pub open spec fn on_plane(offset: Scalar) -> bool {
    offset.abs_of().less(Scalar { bits: TOLERANCE_BITS })
}

/// One coordinate of the normal: `-1.0` on the lower plane, `1.0` on the
/// upper one, `0.0` on neither. The lower plane is looked at first.
pub open spec fn normal_component(to_min: Scalar, to_max: Scalar) -> Scalar {
    if on_plane(to_min) {
        Scalar { bits: MINUS_ONE_BITS }
    } else if on_plane(to_max) {
        Scalar { bits: ONE_BITS }
    } else {
        Scalar { bits: 0 }
    }
}

/// The normal at a point whose offsets from the lower planes are `to_min`
/// and from the upper planes `to_max`.
pub open spec fn normal_of(to_min: Vec3, to_max: Vec3) -> Vec3 {
    Vec3 {
        x: normal_component(to_min.x, to_max.x),
        y: normal_component(to_min.y, to_max.y),
        z: normal_component(to_min.z, to_max.z),
    }
}

/// The point lies on a bounding plane of the axis.
pub open spec fn on_face(to_min: Vec3, to_max: Vec3, axis: int) -> bool {
    on_plane(to_min.component(axis)) || on_plane(to_max.component(axis))
}

/// The axes along which the surface coordinates `u` and `v` are measured:
/// `z` and `y` on a face across `x`, `x` and `z` on a face across `y`, `x`
/// and `y` on a face across `z`; the first axis whose face the point lies on
/// decides. None where the point lies on no face.
pub open spec fn axes_of(to_min: Vec3, to_max: Vec3) -> Option<(usize, usize)> {
    if on_face(to_min, to_max, 0) {
        Some((2usize, 1usize))
    } else if on_face(to_min, to_max, 1) {
        Some((0usize, 2usize))
    } else if on_face(to_min, to_max, 2) {
        Some((0usize, 1usize))
    } else {
        None
    }
}

/// Where the point lies on the face of one axis only, the normal points
/// along that axis and nowhere else, down the axis on the lower plane and up
/// it on the upper one, and the surface coordinates are measured along the
/// two other axes.
pub proof fn single_face_is_consistent(to_min: Vec3, to_max: Vec3, axis: int)
    requires
        0 <= axis < 3,
        on_face(to_min, to_max, axis),
        forall|other: int| 0 <= other < 3 && other != axis ==> !on_face(to_min, to_max, other),
    ensures
        on_plane(to_min.component(axis)) ==> normal_of(to_min, to_max).component(axis).bits
            == MINUS_ONE_BITS,
        !on_plane(to_min.component(axis)) ==> normal_of(to_min, to_max).component(axis).bits
            == ONE_BITS,
        forall|other: int|
            0 <= other < 3 && other != axis ==> normal_of(to_min, to_max).component(other).bits
                == 0,
        axes_of(to_min, to_max) matches Some(axes) && axes.0 != axis && axes.1 != axis && axes.0
            != axes.1,
{
    assert(axis != 0 ==> !on_face(to_min, to_max, 0));
    assert(axis != 1 ==> !on_face(to_min, to_max, 1));
    assert(axis != 2 ==> !on_face(to_min, to_max, 2));
}

/// The point lies on no face exactly when the normal is zero, and exactly
/// then it has no surface coordinates.
pub proof fn no_face_no_normal(to_min: Vec3, to_max: Vec3)
    ensures
        axes_of(to_min, to_max) is None <==> normal_of(to_min, to_max) == (Vec3 {
            x: Scalar { bits: 0 },
            y: Scalar { bits: 0 },
            z: Scalar { bits: 0 },
        }),
{
}

/// A surface coordinate held to the unit interval; a NaN stays what it is.
pub open spec fn coordinate_of(raw: Scalar) -> Scalar {
    raw.clamp_of(Scalar { bits: 0 }, Scalar { bits: ONE_BITS })
}

/// Holds a surface coordinate to the unit interval: whatever number the
/// linear map gave, what is used lies between 0 and 1.
pub fn clamp_coordinate(raw: Scalar) -> (coordinate: Scalar)
    ensures
        coordinate == coordinate_of(raw),
        raw.nan() ==> coordinate == raw,
        !raw.nan() ==> !coordinate.nan() && 0 <= coordinate.value() <= (Scalar {
            bits: ONE_BITS,
        }).value(),
{
    let zero: Scalar = Scalar::zero();
    let one: Scalar = Scalar::from_bits(ONE_BITS);
    proof {
        key_orders_value(one, zero);
    }
    raw.clamp(zero, one)
}

/// Whether an offset from a bounding plane is within the tolerance.
fn near_plane(offset: Scalar) -> (near: bool)
    ensures
        near == on_plane(offset),
{
    offset.abs().lt(Scalar::from_bits(TOLERANCE_BITS))
}

/// One coordinate of the normal.
fn normal_along(to_min: Scalar, to_max: Scalar) -> (n: Scalar)
    ensures
        n == normal_component(to_min, to_max),
{
    if near_plane(to_min) {
        Scalar::from_bits(MINUS_ONE_BITS)
    } else if near_plane(to_max) {
        Scalar::from_bits(ONE_BITS)
    } else {
        Scalar::from_bits(0)
    }
}

/// The normal of the box at a hit point, given the point's offsets from the
/// box's lower corner (`to_min`) and from its upper corner (`to_max`). On an
/// edge or a corner more than one coordinate is set.
pub fn face_normal(to_min: &Vec3, to_max: &Vec3) -> (normal: Vec3)
    ensures
        normal == normal_of(*to_min, *to_max),
{
    Vec3 {
        x: normal_along(to_min.x, to_max.x),
        y: normal_along(to_min.y, to_max.y),
        z: normal_along(to_min.z, to_max.z),
    }
}

/// The axes (0 for `x`, 1 for `y`, 2 for `z`) along which `u` and `v` are
/// measured at a point with these offsets from the box's corners; `None`
/// where the point lies on no face, and both coordinates are zero.
pub fn face_axes(to_min: &Vec3, to_max: &Vec3) -> (axes: Option<(usize, usize)>)
    ensures
        axes == axes_of(*to_min, *to_max),
        axes matches Some(pair) ==> pair.0 < 3 && pair.1 < 3,
{
    if near_plane(to_min.x) || near_plane(to_max.x) {
        Some((2, 1))
    } else if near_plane(to_min.y) || near_plane(to_max.y) {
        Some((0, 2))
    } else if near_plane(to_min.z) || near_plane(to_max.z) {
        Some((0, 1))
    } else {
        None
    }
}

} // verus!
