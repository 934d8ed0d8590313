//! Pose transform: pure conversions from a device's raw 3x4 tracking
//! matrix to the per-frame camera data the renderer consumes.
//!
//! A tracking matrix is row-major with three rows and four columns: the
//! left 3x3 block is a rotation, possibly scaled per axis, and column 3
//! is the translation.  Every entry is the bit pattern of a binary32
//! scalar.  The transform extracts the translation as a position vector
//! and re-lays the rotation block into a homogeneous 4x4 matrix whose
//! first two rows are the first two columns of the block, each divided
//! by its own Euclidean norm; a degenerate norm (zero or non-finite)
//! clamps that row to the corresponding identity axis instead of
//! dividing.

use vstd::prelude::*;
use crate::arith::{prod_bits, quot_bits, scalar_add, scalar_div, scalar_mul, scalar_sqrt,
    sqrt_bits, sum_bits};
use crate::scalar::{is_finite_bits, is_zero_bits, ONE_BITS, ZERO_BITS};

verus! {

/// A 3x4 tracking matrix as supplied by the VR runtime, row-major.
/// Field `mRC` holds row `R`, column `C`; column 3 is the translation.
#[derive(Clone, Copy, PartialEq, Eq, Structural, Debug)]
pub struct TrackingMatrix {
    pub m00: u32,
    pub m01: u32,
    pub m02: u32,
    pub m03: u32,
    pub m10: u32,
    pub m11: u32,
    pub m12: u32,
    pub m13: u32,
    pub m20: u32,
    pub m21: u32,
    pub m22: u32,
    pub m23: u32,
}

/// A three-component vector of binary32 bit patterns.
#[derive(Clone, Copy, PartialEq, Eq, Structural, Debug)]
pub struct Vec3 {
    pub x: u32,
    pub y: u32,
    pub z: u32,
}

/// A homogeneous 4x4 matrix of binary32 bit patterns, row-major.
/// Field `mRC` holds row `R`, column `C`.
#[derive(Clone, Copy, PartialEq, Eq, Structural, Debug)]
pub struct Mat4 {
    pub m00: u32,
    pub m01: u32,
    pub m02: u32,
    pub m03: u32,
    pub m10: u32,
    pub m11: u32,
    pub m12: u32,
    pub m13: u32,
    pub m20: u32,
    pub m21: u32,
    pub m22: u32,
    pub m23: u32,
    pub m30: u32,
    pub m31: u32,
    pub m32: u32,
    pub m33: u32,
}

/// The Euclidean norm of a three-component vector, computed left to
/// right over the binary32 operations: sqrt((a*a + b*b) + c*c).
pub open spec fn column_norm_bits(a: u32, b: u32, c: u32) -> u32 {
    sqrt_bits(sum_bits(sum_bits(prod_bits(a, a), prod_bits(b, b)), prod_bits(c, c)))
}

/// A norm is usable as a divisor when it is finite and non-zero;
/// dividing by a zero or non-finite norm would spread non-finite values
/// into the rotation matrix.
pub open spec fn axis_usable(n: u32) -> bool {
    is_finite_bits(n) && !is_zero_bits(n)
}

/// The scale factor of rotation column `0`: the norm of the column's
/// three entries.
pub open spec fn scale_x(m: TrackingMatrix) -> u32 {
    column_norm_bits(m.m00, m.m10, m.m20)
}

/// The scale factor of rotation column `1`.
pub open spec fn scale_y(m: TrackingMatrix) -> u32 {
    column_norm_bits(m.m01, m.m11, m.m21)
}

/// The orthonormalized rotation matrix.  Row `r` (for `r` in 0..2) holds
/// rotation column `r` of the input; rows 0 and 1 are divided entry-wise
/// by their column's norm, row 2 is deliberately carried over
/// unnormalized.  A degenerate norm clamps its row to the
/// identity axis.  The translation column is zeroed and the last row and
/// column are (0, 0, 0, 1).
pub open spec fn orthonormalized_rotation_spec(m: TrackingMatrix) -> Mat4 {
    let sx = scale_x(m);
    let sy = scale_y(m);
    let (r00, r01, r02) = if axis_usable(sx) {
        (quot_bits(m.m00, sx), quot_bits(m.m10, sx), quot_bits(m.m20, sx))
    } else {
        (ONE_BITS, ZERO_BITS, ZERO_BITS)
    };
    let (r10, r11, r12) = if axis_usable(sy) {
        (quot_bits(m.m01, sy), quot_bits(m.m11, sy), quot_bits(m.m21, sy))
    } else {
        (ZERO_BITS, ONE_BITS, ZERO_BITS)
    };
    Mat4 {
        m00: r00,
        m01: r01,
        m02: r02,
        m03: ZERO_BITS,
        m10: r10,
        m11: r11,
        m12: r12,
        m13: ZERO_BITS,
        m20: m.m02,
        m21: m.m12,
        m22: m.m22,
        m23: ZERO_BITS,
        m30: ZERO_BITS,
        m31: ZERO_BITS,
        m32: ZERO_BITS,
        m33: ONE_BITS,
    }
}

/// The 3x4 matrix embedded as-is into a homogeneous 4x4 matrix: the
/// three rows are carried over unchanged, translation included, and the
/// appended last row is (0, 0, 0, 1).
pub open spec fn embed_affine_spec(m: TrackingMatrix) -> Mat4 {
    Mat4 {
        m00: m.m00,
        m01: m.m01,
        m02: m.m02,
        m03: m.m03,
        m10: m.m10,
        m11: m.m11,
        m12: m.m12,
        m13: m.m13,
        m20: m.m20,
        m21: m.m21,
        m22: m.m22,
        m23: m.m23,
        m30: ZERO_BITS,
        m31: ZERO_BITS,
        m32: ZERO_BITS,
        m33: ONE_BITS,
    }
}

impl TrackingMatrix {
    /// The device's world position: exactly the translation column
    /// (row 0, row 1, row 2 of column 3), bit for bit.
    pub fn position(&self) -> (p: Vec3)
        ensures
            p.x == self.m03,
            p.y == self.m13,
            p.z == self.m23,
    {
        Vec3 { x: self.m03, y: self.m13, z: self.m23 }
    }

    /// The rotation block re-laid as a scale-corrected homogeneous
    /// rotation matrix; see `orthonormalized_rotation_spec`.
    pub fn orthonormalized_rotation(&self) -> (r: Mat4)
        ensures
            r == orthonormalized_rotation_spec(*self),
    {
        let sx = column_norm(self.m00, self.m10, self.m20);
        let sy = column_norm(self.m01, self.m11, self.m21);
        let (r00, r01, r02) = if axis_divisor_usable(sx) {
            (scalar_div(self.m00, sx), scalar_div(self.m10, sx), scalar_div(self.m20, sx))
        } else {
            (ONE_BITS, ZERO_BITS, ZERO_BITS)
        };
        let (r10, r11, r12) = if axis_divisor_usable(sy) {
            (scalar_div(self.m01, sy), scalar_div(self.m11, sy), scalar_div(self.m21, sy))
        } else {
            (ZERO_BITS, ONE_BITS, ZERO_BITS)
        };
        Mat4 {
            m00: r00,
            m01: r01,
            m02: r02,
            m03: ZERO_BITS,
            m10: r10,
            m11: r11,
            m12: r12,
            m13: ZERO_BITS,
            m20: self.m02,
            m21: self.m12,
            m22: self.m22,
            m23: ZERO_BITS,
            m30: ZERO_BITS,
            m31: ZERO_BITS,
            m32: ZERO_BITS,
            m33: ONE_BITS,
        }
    }

    /// The matrix embedded into a homogeneous 4x4 matrix without scale
    /// correction; see `embed_affine_spec`.
    pub fn embed_affine(&self) -> (r: Mat4)
        ensures
            r == embed_affine_spec(*self),
    {
        Mat4 {
            m00: self.m00,
            m01: self.m01,
            m02: self.m02,
            m03: self.m03,
            m10: self.m10,
            m11: self.m11,
            m12: self.m12,
            m13: self.m13,
            m20: self.m20,
            m21: self.m21,
            m22: self.m22,
            m23: self.m23,
            m30: ZERO_BITS,
            m31: ZERO_BITS,
            m32: ZERO_BITS,
            m33: ONE_BITS,
        }
    }
}

/// The shape of every orthonormalized rotation matrix, whatever the
/// input: the last row is exactly (0, 0, 0, 1) and the last column
/// above it is exactly (0, 0, 0) — the translation is zeroed out.
pub proof fn lemma_rotation_shape(m: TrackingMatrix)
    ensures
        orthonormalized_rotation_spec(m).m03 == ZERO_BITS,
        orthonormalized_rotation_spec(m).m13 == ZERO_BITS,
        orthonormalized_rotation_spec(m).m23 == ZERO_BITS,
        orthonormalized_rotation_spec(m).m30 == ZERO_BITS,
        orthonormalized_rotation_spec(m).m31 == ZERO_BITS,
        orthonormalized_rotation_spec(m).m32 == ZERO_BITS,
        orthonormalized_rotation_spec(m).m33 == ONE_BITS,
{
}

/// A degenerate scale factor — zero or non-finite, as a division by a
/// zero-norm rotation column would produce — never reaches a division:
/// the affected row is clamped to its identity axis, whose entries are
/// finite.  Row 2 is never divided, so no degenerate norm reaches it
/// either.
pub proof fn lemma_degenerate_axis_clamps_to_identity(m: TrackingMatrix)
    ensures
        !axis_usable(scale_x(m)) ==> orthonormalized_rotation_spec(m).m00 == ONE_BITS
            && orthonormalized_rotation_spec(m).m01 == ZERO_BITS
            && orthonormalized_rotation_spec(m).m02 == ZERO_BITS,
        !axis_usable(scale_y(m)) ==> orthonormalized_rotation_spec(m).m10 == ZERO_BITS
            && orthonormalized_rotation_spec(m).m11 == ONE_BITS
            && orthonormalized_rotation_spec(m).m12 == ZERO_BITS,
        !axis_usable(scale_x(m)) ==> is_finite_bits(orthonormalized_rotation_spec(m).m00)
            && is_finite_bits(orthonormalized_rotation_spec(m).m01) && is_finite_bits(
            orthonormalized_rotation_spec(m).m02,
        ),
        !axis_usable(scale_y(m)) ==> is_finite_bits(orthonormalized_rotation_spec(m).m10)
            && is_finite_bits(orthonormalized_rotation_spec(m).m11) && is_finite_bits(
            orthonormalized_rotation_spec(m).m12,
        ),
{
    crate::scalar::lemma_constants_are_finite();
}

/// The Euclidean norm of three scalars, as `column_norm_bits` names it.
pub fn column_norm(a: u32, b: u32, c: u32) -> (r: u32)
    ensures
        r == column_norm_bits(a, b, c),
{
    scalar_sqrt(
        scalar_add(scalar_add(scalar_mul(a, a), scalar_mul(b, b)), scalar_mul(c, c)),
    )
}

/// Executable test for `axis_usable`.
pub fn axis_divisor_usable(n: u32) -> (r: bool)
    ensures
        r == axis_usable(n),
{
    crate::scalar::is_finite(n) && !crate::scalar::is_zero(n)
}

} // verus!
