//! The point light and the record that the shaders read it from.

use crate::scalar::{Scalar, Vector3};
use vstd::prelude::*;

verus! {

/// The light as the shaders read it. Each vector of three is followed by a
/// word of padding, so that both start on a multiple of sixteen bytes.
#[derive(Clone, Copy, Debug)]
pub struct Raw {
    pub position: [Scalar; 3],
    pub _padding: u32,
    pub color: [Scalar; 3],
    pub _padding2: u32,
}

/// A point light: where it is and what colour it has.
#[derive(Clone, Copy, Debug)]
pub struct Light {
    pub position: Vector3,
    /// The colour, as red, green and blue.
    pub color: [Scalar; 3],
}

impl Raw {
    fn new(position: Vector3, color: [Scalar; 3]) -> (raw: Raw)
        ensures
            raw.position@ == seq![position.x, position.y, position.z],
            raw._padding == 0,
            raw.color == color,
            raw._padding2 == 0,
    {
        Raw { position: [position.x, position.y, position.z], _padding: 0, color, _padding2: 0 }
    }
}

impl Light {
    /// A light at `position` with the colour `color`. No channel is limited.
    pub fn new(position: Vector3, color: [Scalar; 3]) -> (light: Light)
        ensures
            light.position == position,
            light.color == color,
    {
        Light { position, color }
    }

    /// The record for the shaders: position and colour as they are, and
    /// both words of padding zero.
    pub fn to_raw(&self) -> (raw: Raw)
        ensures
            raw.position@ == seq![self.position.x, self.position.y, self.position.z],
            raw._padding == 0,
            raw.color == self.color,
            raw._padding2 == 0,
    {
        Raw::new(self.position, self.color)
    }
}

} // verus!
