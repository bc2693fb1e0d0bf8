//! Plain integer vector types for pixel extents and texel coordinates, and
//! the bit-pattern carrier for clear colors.

use vstd::prelude::*;

verus! {

/// Two-component unsigned vector (window and image extents).
#[derive(Clone, Copy, PartialEq, Eq, Structural, Debug)]
pub struct UVec2 {
    pub x: u32,
    pub y: u32,
}

impl UVec2 {
    /// Builds the vector from its components.
    pub fn new(x: u32, y: u32) -> (r: UVec2)
        ensures
            r == (UVec2 { x, y }),
    {
        UVec2 { x, y }
    }
}

/// Three-component unsigned vector (texture sizes including layer count).
#[derive(Clone, Copy, PartialEq, Eq, Structural, Debug)]
pub struct UVec3 {
    pub x: u32,
    pub y: u32,
    pub z: u32,
}

impl UVec3 {
    /// Builds the vector from its components.
    pub fn new(x: u32, y: u32, z: u32) -> (r: UVec3)
        ensures
            r == (UVec3 { x, y, z }),
    {
        UVec3 { x, y, z }
    }

    /// Number of texels: the product of all three extents.
    pub open spec fn spec_volume(&self) -> nat {
        (self.x * self.y * self.z) as nat
    }
}

/// A four-component color carried as the bit patterns of its channels; the
/// unverified layer reinterprets them as floating-point intensities.
#[derive(Clone, Copy, PartialEq, Eq, Structural, Debug)]
pub struct ColorBits {
    pub r: u32,
    pub g: u32,
    pub b: u32,
    pub a: u32,
}

impl ColorBits {
    /// Builds the color from the four channel bit patterns.
    pub fn new(r: u32, g: u32, b: u32, a: u32) -> (c: ColorBits)
        ensures
            c == (ColorBits { r, g, b, a }),
    {
        ColorBits { r, g, b, a }
    }
}

} // verus!
