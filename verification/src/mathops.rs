//! Trusted single-precision arithmetic, carried out by `glam` on IEEE-754
//! bit patterns.
//!
//! The engine never interprets these words itself: each operation below
//! hands the bit patterns to `glam`, and its result is named by an
//! uninterpreted spec function of the operand bits.  The compositional
//! operations here (products, sums, cross products, square roots) are
//! IEEE-754-determined, so the same operand bits give the same result bits
//! everywhere.  Matrix constructions that involve trigonometry
//! (perspective, orthographic projection, `sin_cos`) promise nothing of
//! their result bits.

use vstd::prelude::*;

use crate::units::{Quat, Vec3};

verus! {

/// The translation matrix of a position, column major, as 16 words.
pub uninterp spec fn mat4_from_translation_spec(pos: Seq<u32>) -> Seq<u32>;

/// The rotation matrix of a quaternion, column major, as 16 words.
pub uninterp spec fn mat4_from_quat_spec(rot: Seq<u32>) -> Seq<u32>;

/// The product of two column-major matrices.
pub uninterp spec fn mat4_mul_spec(a: Seq<u32>, b: Seq<u32>) -> Seq<u32>;

/// The difference of two vectors.
pub uninterp spec fn vec3_sub_spec(a: Seq<u32>, b: Seq<u32>) -> Seq<u32>;

/// The sum of two vectors.
pub uninterp spec fn vec3_add_spec(a: Seq<u32>, b: Seq<u32>) -> Seq<u32>;

/// The cross product of two vectors.
pub uninterp spec fn vec3_cross_spec(a: Seq<u32>, b: Seq<u32>) -> Seq<u32>;

/// The normalization of a vector.
pub uninterp spec fn vec3_normalize_spec(a: Seq<u32>) -> Seq<u32>;

/// Whether a vector's length compares strictly greater than zero.
pub uninterp spec fn vec3_length_positive_spec(a: Seq<u32>) -> bool;

/// The right-handed look-to view matrix of an eye position, a view
/// direction and an up vector.
pub uninterp spec fn mat4_look_to_rh_spec(eye: Seq<u32>, dir: Seq<u32>, up: Seq<u32>) -> Seq<u32>;

/// Relies on `glam::Mat4::from_translation`: the translation matrix of the
/// given position, a function of the operand bits alone.
#[verifier::external_body]
pub fn mat4_from_translation(pos: Vec3) -> (r: [u32; 16])
    ensures
        r@ == mat4_from_translation_spec(pos.words()),
{
    let p = bytemuck::cast::<[u32; 3], glam::Vec3>([pos.x, pos.y, pos.z]);
    bytemuck::cast::<glam::Mat4, [u32; 16]>(glam::Mat4::from_translation(p))
}

/// Relies on `glam::Mat4::from_quat`: the rotation matrix of the given
/// quaternion, a function of the operand bits alone.
#[verifier::external_body]
pub fn mat4_from_quat(rot: Quat) -> (r: [u32; 16])
    ensures
        r@ == mat4_from_quat_spec(rot.words()),
{
    let q = bytemuck::cast::<[u32; 4], glam::Quat>([rot.x, rot.y, rot.z, rot.w]);
    bytemuck::cast::<glam::Mat4, [u32; 16]>(glam::Mat4::from_quat(q))
}

/// Relies on `glam::Mat4`'s `Mul`: the matrix product, a function of the
/// operand bits alone.
#[verifier::external_body]
pub fn mat4_mul(a: &[u32; 16], b: &[u32; 16]) -> (r: [u32; 16])
    ensures
        r@ == mat4_mul_spec(a@, b@),
{
    let ma = bytemuck::cast::<[u32; 16], glam::Mat4>(*a);
    let mb = bytemuck::cast::<[u32; 16], glam::Mat4>(*b);
    bytemuck::cast::<glam::Mat4, [u32; 16]>(ma * mb)
}

/// Relies on `glam::Vec3`'s `Sub`: the vector difference, a function of the
/// operand bits alone.
#[verifier::external_body]
pub fn vec3_sub(a: Vec3, b: Vec3) -> (r: Vec3)
    ensures
        r.words() == vec3_sub_spec(a.words(), b.words()),
{
    let ga = bytemuck::cast::<[u32; 3], glam::Vec3>([a.x, a.y, a.z]);
    let gb = bytemuck::cast::<[u32; 3], glam::Vec3>([b.x, b.y, b.z]);
    let [x, y, z] = bytemuck::cast::<glam::Vec3, [u32; 3]>(ga - gb);
    Vec3 { x, y, z }
}

/// Relies on `glam::Vec3`'s `Add`: the vector sum, a function of the
/// operand bits alone.
#[verifier::external_body]
pub fn vec3_add(a: Vec3, b: Vec3) -> (r: Vec3)
    ensures
        r.words() == vec3_add_spec(a.words(), b.words()),
{
    let ga = bytemuck::cast::<[u32; 3], glam::Vec3>([a.x, a.y, a.z]);
    let gb = bytemuck::cast::<[u32; 3], glam::Vec3>([b.x, b.y, b.z]);
    let [x, y, z] = bytemuck::cast::<glam::Vec3, [u32; 3]>(ga + gb);
    Vec3 { x, y, z }
}

/// Relies on `glam::Vec3::cross`: the cross product, a function of the
/// operand bits alone.
#[verifier::external_body]
pub fn vec3_cross(a: Vec3, b: Vec3) -> (r: Vec3)
    ensures
        r.words() == vec3_cross_spec(a.words(), b.words()),
{
    let ga = bytemuck::cast::<[u32; 3], glam::Vec3>([a.x, a.y, a.z]);
    let gb = bytemuck::cast::<[u32; 3], glam::Vec3>([b.x, b.y, b.z]);
    let [x, y, z] = bytemuck::cast::<glam::Vec3, [u32; 3]>(ga.cross(gb));
    Vec3 { x, y, z }
}

/// Relies on `glam::Vec3::normalize`: the normalized vector, a function of
/// the operand bits alone.  On a zero or non-finite operand the result is
/// non-finite; the call does not panic.
#[verifier::external_body]
pub fn vec3_normalize(a: Vec3) -> (r: Vec3)
    ensures
        r.words() == vec3_normalize_spec(a.words()),
{
    let ga = bytemuck::cast::<[u32; 3], glam::Vec3>([a.x, a.y, a.z]);
    let [x, y, z] = bytemuck::cast::<glam::Vec3, [u32; 3]>(ga.normalize());
    Vec3 { x, y, z }
}

/// Relies on `glam::Vec3::length` and the `f32` comparison: whether the
/// length is strictly positive, a function of the operand bits alone.
#[verifier::external_body]
pub fn vec3_length_positive(a: Vec3) -> (r: bool)
    ensures
        r == vec3_length_positive_spec(a.words()),
{
    let ga = bytemuck::cast::<[u32; 3], glam::Vec3>([a.x, a.y, a.z]);
    ga.length() > glam::Vec3::ZERO.x
}

/// Relies on `glam::Mat4::look_to_rh`: the view matrix, a function of the
/// operand bits alone.
#[verifier::external_body]
pub fn mat4_look_to_rh(eye: Vec3, dir: Vec3, up: Vec3) -> (r: [u32; 16])
    ensures
        r@ == mat4_look_to_rh_spec(eye.words(), dir.words(), up.words()),
{
    let ge = bytemuck::cast::<[u32; 3], glam::Vec3>([eye.x, eye.y, eye.z]);
    let gd = bytemuck::cast::<[u32; 3], glam::Vec3>([dir.x, dir.y, dir.z]);
    let gu = bytemuck::cast::<[u32; 3], glam::Vec3>([up.x, up.y, up.z]);
    bytemuck::cast::<glam::Mat4, [u32; 16]>(glam::Mat4::look_to_rh(ge, gd, gu))
}

/// Relies on `glam::Mat4::perspective_rh`.  The projection involves
/// trigonometry, whose rounding the platform's math library chooses, so
/// nothing is promised of the result bits.
#[verifier::external_body]
pub fn mat4_perspective_rh(fov_y: u32, aspect: u32, near: u32, far: u32) -> [u32; 16] {
    let v = bytemuck::cast::<[u32; 4], glam::Vec4>([fov_y, aspect, near, far]);
    bytemuck::cast::<glam::Mat4, [u32; 16]>(glam::Mat4::perspective_rh(v.x, v.y, v.z, v.w))
}

/// Relies on `glam::Mat4::orthographic_lh`.  Nothing is promised of the
/// result bits.
#[verifier::external_body]
pub fn mat4_orthographic_lh(
    left: u32,
    right: u32,
    bottom: u32,
    top: u32,
    near: u32,
    far: u32,
) -> [u32; 16] {
    let a = bytemuck::cast::<[u32; 4], glam::Vec4>([left, right, bottom, top]);
    let b = bytemuck::cast::<[u32; 2], glam::Vec2>([near, far]);
    bytemuck::cast::<glam::Mat4, [u32; 16]>(
        glam::Mat4::orthographic_lh(a.x, a.y, a.z, a.w, b.x, b.y),
    )
}

/// The single-precision product of two scalars.
pub uninterp spec fn f32_mul_spec(a: u32, b: u32) -> u32;

/// Relies on `glam::Vec2`'s `Mul` (component-wise single-precision
/// multiplication): the product, a function of the operand bits alone.
#[verifier::external_body]
pub fn mul_bits(a: u32, b: u32) -> (r: u32)
    ensures
        r == f32_mul_spec(a, b),
{
    let va = bytemuck::cast::<[u32; 2], glam::Vec2>([a, a]);
    let vb = bytemuck::cast::<[u32; 2], glam::Vec2>([b, b]);
    bytemuck::cast::<glam::Vec2, [u32; 2]>(va * vb)[0]
}

/// Relies on `f32::sin_cos`.  The platform's math library chooses the
/// rounding, so nothing is promised of the result bits.
#[verifier::external_body]
pub fn sin_cos(x: u32) -> (u32, u32) {
    let v = bytemuck::cast::<[u32; 2], glam::Vec2>([x, x]);
    let (s, c) = v.x.sin_cos();
    let [sb, cb] = bytemuck::cast::<glam::Vec2, [u32; 2]>(glam::Vec2::new(s, c));
    (sb, cb)
}

} // verus!
