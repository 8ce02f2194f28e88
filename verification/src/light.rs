//! The scene's light.

use vstd::prelude::*;
use crate::color::Color;
use crate::scalar::Scalar;
use crate::vector::Vec3;

verus! {

/// A point light: where it stands, its colour and its strength.
#[derive(Debug, Clone, Copy)]
pub struct Light {
    pub position: Vec3,
    pub color: Color,
    pub intensity: Scalar,
}

impl Light {
    pub fn new(position: Vec3, color: Color, intensity: Scalar) -> (light: Light)
        ensures
            light.position == position,
            light.color == color,
            light.intensity == intensity,
    {
        Light { position, color, intensity }
    }
}

} // verus!
