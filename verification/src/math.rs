//! The `glam` types and operations the library relies on.
//!
//! Nothing in this file is proved. The types are declared so that values of
//! them can be stored and passed on, and each operation gets a name for its
//! result, so that the contracts of the verified code can say which value
//! ends up where.

use glam::{Mat4, Quat, Vec2, Vec3};
use vstd::prelude::*;

verus! {

/// `glam::Vec2`, a pair of single-precision coordinates. Opaque to the prover.
#[verifier::external_type_specification]
#[verifier::external_body]
pub struct ExVec2(Vec2);

/// `glam::Vec3`, a triple of single-precision coordinates. Opaque to the prover.
#[verifier::external_type_specification]
#[verifier::external_body]
pub struct ExVec3(Vec3);

/// `glam::Quat`, a quaternion. Opaque to the prover.
#[verifier::external_type_specification]
#[verifier::external_body]
pub struct ExQuat(Quat);

/// `glam::Mat4`, a 4x4 column-major matrix. Opaque to the prover.
#[verifier::external_type_specification]
#[verifier::external_body]
pub struct ExMat4(Mat4);

/// The matrix that `glam::Mat4::from_scale_rotation_translation` builds:
/// scale first, then rotate, then translate.
pub uninterp spec fn affine_of(scale: Vec3, rotation: Quat, translation: Vec3) -> Mat4;

/// The point that `glam::Mat4::transform_point3` returns: `point` extended by
/// a fourth coordinate of one and multiplied by `matrix`.
pub uninterp spec fn transformed(matrix: Mat4, point: Vec3) -> Vec3;

/// The vector that `glam::Quat::mul_vec3` returns: `vector` rotated by
/// `rotation`.
pub uninterp spec fn rotated(rotation: Quat, vector: Vec3) -> Vec3;

/// The bit pattern of the single-precision number that
/// `glam::Vec3::distance` returns for the two points.
pub uninterp spec fn distance_bits(a: Vec3, b: Vec3) -> u32;

/// `glam::Mat4::from_scale_rotation_translation`. Trusted: the result depends
/// on the three arguments alone. With glam's assertion features switched off,
/// as they are by default, the call returns for every argument.
pub assume_specification[ Mat4::from_scale_rotation_translation ](
    scale: Vec3,
    rotation: Quat,
    translation: Vec3,
) -> (matrix: Mat4)
    ensures
        matrix == affine_of(scale, rotation, translation),
;

/// `glam::Mat4::transform_point3`. Trusted: the result depends on the matrix
/// and the point alone. With glam's assertion features switched off, as they
/// are by default, the call returns for every argument.
pub assume_specification[ Mat4::transform_point3 ](matrix: &Mat4, other: Vec3) -> (point: Vec3)
    ensures
        point == transformed(*matrix, other),
;

/// `glam::Quat::mul_vec3`. Trusted: the result depends on the quaternion and
/// the vector alone. With glam's assertion features switched off, as they are
/// by default, the call returns for every argument.
pub assume_specification[ Quat::mul_vec3 ](rotation: Quat, other: Vec3) -> (vector: Vec3)
    ensures
        vector == rotated(rotation, other),
;

/// `glam::Vec3::distance`, with the number it returns handed over as its bit
/// pattern. Trusted: the pattern depends on the two points alone.
#[verifier::external_body]
pub(crate) fn distance_between(a: Vec3, b: Vec3) -> (bits: u32)
    ensures
        bits == distance_bits(a, b),
{
    a.distance(b).to_bits()
}

} // verus!
