//! Plain value types for vectors, quaternions and scale factors.
//!
//! The GPU consumes all numeric data as raw 32-bit words, so every component
//! here is carried as the IEEE-754 single-precision bit pattern of the number
//! it denotes.  The packing and buffer logic of this crate only moves these
//! words around; the few places that really compute with them go through the
//! trusted arithmetic in `mathops`.

use vstd::prelude::*;

verus! {

/// Bit pattern of 0.0f32.
pub const F32_ZERO_BITS: u32 = 0;

/// Bit pattern of 1.0f32.
pub const F32_ONE_BITS: u32 = 0x3F80_0000;

/// Bit pattern of -1.0f32.
pub const F32_NEG_ONE_BITS: u32 = 0xBF80_0000;

/// Bit pattern of 0.5f32.
pub const F32_HALF_BITS: u32 = 0x3F00_0000;

/// Bit pattern of 70.0f32, the default vertical field of view in degrees.
pub const F32_SEVENTY_BITS: u32 = 0x428C_0000;

/// Bit pattern of 1000.0f32, the default far plane distance.
pub const F32_THOUSAND_BITS: u32 = 0x447A_0000;

/// Bit pattern of 0.1f32, the default near plane distance.
pub const F32_TENTH_BITS: u32 = 0x3DCC_CCCD;

/// A two-component vector of single-precision bit patterns.
#[derive(Debug, PartialEq, Eq, Structural, Clone, Copy)]
pub struct Vec2 {
    pub x: u32,
    pub y: u32,
}

/// A three-component vector of single-precision bit patterns.
#[derive(Debug, PartialEq, Eq, Structural, Clone, Copy)]
pub struct Vec3 {
    pub x: u32,
    pub y: u32,
    pub z: u32,
}

/// A four-component vector of single-precision bit patterns.
#[derive(Debug, PartialEq, Eq, Structural, Clone, Copy)]
pub struct Vec4 {
    pub x: u32,
    pub y: u32,
    pub z: u32,
    pub w: u32,
}

/// A quaternion of single-precision bit patterns, `x*i + y*j + z*k + w`.
#[derive(Debug, PartialEq, Eq, Structural, Clone, Copy)]
pub struct Quat {
    pub x: u32,
    pub y: u32,
    pub z: u32,
    pub w: u32,
}

/// Per-axis scale factors of a scene node.
#[derive(Debug, PartialEq, Eq, Structural, Clone, Copy)]
pub struct Scale {
    pub width: u32,
    pub height: u32,
    pub depth: u32,
}

impl Vec2 {
    pub open spec fn words(self) -> Seq<u32> {
        seq![self.x, self.y]
    }

    pub fn new(x: u32, y: u32) -> (r: Vec2)
        ensures
            r == (Vec2 { x, y }),
    {
        Vec2 { x, y }
    }

    pub open spec fn zero_spec() -> Vec2 {
        Vec2 { x: F32_ZERO_BITS, y: F32_ZERO_BITS }
    }

    pub fn zero() -> (r: Vec2)
        ensures
            r == Vec2::zero_spec(),
    {
        Vec2 { x: F32_ZERO_BITS, y: F32_ZERO_BITS }
    }
}

impl Vec3 {
    pub open spec fn words(self) -> Seq<u32> {
        seq![self.x, self.y, self.z]
    }

    pub fn new(x: u32, y: u32, z: u32) -> (r: Vec3)
        ensures
            r == (Vec3 { x, y, z }),
    {
        Vec3 { x, y, z }
    }

    pub open spec fn zero_spec() -> Vec3 {
        Vec3 { x: F32_ZERO_BITS, y: F32_ZERO_BITS, z: F32_ZERO_BITS }
    }

    pub fn zero() -> (r: Vec3)
        ensures
            r == Vec3::zero_spec(),
    {
        Vec3 { x: F32_ZERO_BITS, y: F32_ZERO_BITS, z: F32_ZERO_BITS }
    }

    /// The vector (1, 1, 1), the default color of a light.
    pub open spec fn one_spec() -> Vec3 {
        Vec3 { x: F32_ONE_BITS, y: F32_ONE_BITS, z: F32_ONE_BITS }
    }

    pub fn one() -> (r: Vec3)
        ensures
            r == Vec3::one_spec(),
    {
        Vec3 { x: F32_ONE_BITS, y: F32_ONE_BITS, z: F32_ONE_BITS }
    }
}

impl Vec4 {
    pub open spec fn words(self) -> Seq<u32> {
        seq![self.x, self.y, self.z, self.w]
    }

    pub fn new(x: u32, y: u32, z: u32, w: u32) -> (r: Vec4)
        ensures
            r == (Vec4 { x, y, z, w }),
    {
        Vec4 { x, y, z, w }
    }

    pub open spec fn zero_spec() -> Vec4 {
        Vec4 { x: F32_ZERO_BITS, y: F32_ZERO_BITS, z: F32_ZERO_BITS, w: F32_ZERO_BITS }
    }

    pub fn zero() -> (r: Vec4)
        ensures
            r == Vec4::zero_spec(),
    {
        Vec4 { x: F32_ZERO_BITS, y: F32_ZERO_BITS, z: F32_ZERO_BITS, w: F32_ZERO_BITS }
    }

    /// The color (0, 0, 0, 1): opaque black, the default background.
    pub open spec fn opaque_black_spec() -> Vec4 {
        Vec4 { x: F32_ZERO_BITS, y: F32_ZERO_BITS, z: F32_ZERO_BITS, w: F32_ONE_BITS }
    }

    pub fn opaque_black() -> (r: Vec4)
        ensures
            r == Vec4::opaque_black_spec(),
    {
        Vec4 { x: F32_ZERO_BITS, y: F32_ZERO_BITS, z: F32_ZERO_BITS, w: F32_ONE_BITS }
    }

    /// The color (1, 1, 1, 1): opaque white.
    pub open spec fn opaque_white_spec() -> Vec4 {
        Vec4 { x: F32_ONE_BITS, y: F32_ONE_BITS, z: F32_ONE_BITS, w: F32_ONE_BITS }
    }

    pub fn opaque_white() -> (r: Vec4)
        ensures
            r == Vec4::opaque_white_spec(),
    {
        Vec4 { x: F32_ONE_BITS, y: F32_ONE_BITS, z: F32_ONE_BITS, w: F32_ONE_BITS }
    }
}

impl Quat {
    pub open spec fn words(self) -> Seq<u32> {
        seq![self.x, self.y, self.z, self.w]
    }

    pub fn new(x: u32, y: u32, z: u32, w: u32) -> (r: Quat)
        ensures
            r == (Quat { x, y, z, w }),
    {
        Quat { x, y, z, w }
    }

    /// The identity rotation (0, 0, 0, 1).
    pub open spec fn identity_spec() -> Quat {
        Quat { x: F32_ZERO_BITS, y: F32_ZERO_BITS, z: F32_ZERO_BITS, w: F32_ONE_BITS }
    }

    pub fn identity() -> (r: Quat)
        ensures
            r == Quat::identity_spec(),
    {
        Quat { x: F32_ZERO_BITS, y: F32_ZERO_BITS, z: F32_ZERO_BITS, w: F32_ONE_BITS }
    }
}

impl Scale {
    /// The unit scale (1, 1, 1).
    pub open spec fn unit_spec() -> Scale {
        Scale { width: F32_ONE_BITS, height: F32_ONE_BITS, depth: F32_ONE_BITS }
    }
}

impl Default for Vec2 {
    fn default() -> (r: Vec2)
        ensures
            r == Vec2::zero_spec(),
    {
        Vec2::zero()
    }
}

impl Default for Vec3 {
    fn default() -> (r: Vec3)
        ensures
            r == Vec3::zero_spec(),
    {
        Vec3::zero()
    }
}

impl Default for Vec4 {
    fn default() -> (r: Vec4)
        ensures
            r == Vec4::zero_spec(),
    {
        Vec4::zero()
    }
}

impl Default for Quat {
    fn default() -> (r: Quat)
        ensures
            r == Quat::identity_spec(),
    {
        Quat::identity()
    }
}

impl Default for Scale {
    /// A node is unscaled by default.
    fn default() -> (r: Scale)
        ensures
            r == Scale::unit_spec(),
    {
        Scale { width: F32_ONE_BITS, height: F32_ONE_BITS, depth: F32_ONE_BITS }
    }
}

} // verus!
