//! Points and directions in space, as three scalars.

use vstd::prelude::*;
use crate::scalar::Scalar;

verus! {

/// A point or a direction: its `x`, `y` and `z` coordinates.
#[derive(Debug, Clone, Copy, PartialEq, Eq, Structural)]
pub struct Vec3 {
    pub x: Scalar,
    pub y: Scalar,
    pub z: Scalar,
}

impl Vec3 {
    /// The coordinate on an axis: 0 is `x`, 1 is `y`, anything else is `z`.
    pub open spec fn component(self, axis: int) -> Scalar {
        if axis == 0 {
            self.x
        } else if axis == 1 {
            self.y
        } else {
            self.z
        }
    }

    /// The vector of three `+0.0`.
    pub open spec fn zeros() -> Vec3 {
        Vec3 { x: Scalar { bits: 0 }, y: Scalar { bits: 0 }, z: Scalar { bits: 0 } }
    }

    pub fn new(x: Scalar, y: Scalar, z: Scalar) -> (v: Vec3)
        ensures
            v == (Vec3 { x, y, z }),
    {
        Vec3 { x, y, z }
    }

    /// The vector whose three coordinates have the given bit patterns.
    pub fn from_bits(x: u32, y: u32, z: u32) -> (v: Vec3)
        ensures
            v.x.bits == x,
            v.y.bits == y,
            v.z.bits == z,
    {
        Vec3 { x: Scalar::from_bits(x), y: Scalar::from_bits(y), z: Scalar::from_bits(z) }
    }

    /// The coordinate on `axis` (0, 1 or 2).
    pub fn get(&self, axis: usize) -> (s: Scalar)
        requires
            axis < 3,
        ensures
            s == self.component(axis as int),
    {
        if axis == 0 {
            self.x
        } else if axis == 1 {
            self.y
        } else {
            self.z
        }
    }
}

} // verus!
