//! Fixed-point 4x4 matrices.
//!
//! The view transform is uploaded to the GPU as two 4x4 matrices. Here they
//! are built and composed in fixed-point arithmetic, each entry pinned by an
//! exact formula; the unverified shell converts entries to floating point
//! just before upload. Entries are row-major: `mRC` is row `R`, column `C`.
//! The fixed-point value of 1.0 is [`crate::fixed::SCALE`], which is also the
//! homogeneous `m33` entry of every affine matrix built here.

use vstd::prelude::*;

use crate::fixed::{div_trunc, div_trunc_i128, fp, mul_i128, SCALE};

verus! {

/// Magnitude bound on matrix entries: 2^62. Keeping entries within this
/// bound keeps every product of two entries, and every four-term entry sum
/// of a matrix product, within `i128`.
pub const ENTRY_MAX: i64 = 0x4000000000000000;

/// A 4x4 matrix of fixed-point numbers, row-major.
#[derive(Clone, Copy, Debug, PartialEq, Eq, Structural)]
pub struct Mat4 {
    pub m00: i64, pub m01: i64, pub m02: i64, pub m03: i64,
    pub m10: i64, pub m11: i64, pub m12: i64, pub m13: i64,
    pub m20: i64, pub m21: i64, pub m22: i64, pub m23: i64,
    pub m30: i64, pub m31: i64, pub m32: i64, pub m33: i64,
}

/// An entry magnitude small enough for composition.
pub open spec fn entry_ok(x: int) -> bool {
    -(ENTRY_MAX as int) <= x <= ENTRY_MAX as int
}

/// All sixteen entries within [`entry_ok`].
pub open spec fn mat4_wf(m: Mat4) -> bool {
    &&& entry_ok(m.m00 as int) && entry_ok(m.m01 as int) && entry_ok(m.m02 as int)
        && entry_ok(m.m03 as int)
    &&& entry_ok(m.m10 as int) && entry_ok(m.m11 as int) && entry_ok(m.m12 as int)
        && entry_ok(m.m13 as int)
    &&& entry_ok(m.m20 as int) && entry_ok(m.m21 as int) && entry_ok(m.m22 as int)
        && entry_ok(m.m23 as int)
    &&& entry_ok(m.m30 as int) && entry_ok(m.m31 as int) && entry_ok(m.m32 as int)
        && entry_ok(m.m33 as int)
}

/// One entry of a fixed-point matrix product: the four-term dot product of a
/// row and a column, rescaled by [`crate::fixed::SCALE`].
pub open spec fn mul_entry(
    a0: int, b0: int, a1: int, b1: int, a2: int, b2: int, a3: int, b3: int,
) -> int {
    fp(a0 * b0 + a1 * b1 + a2 * b2 + a3 * b3)
}

/// The fixed-point matrix product `a * b`, entry by entry. Entries outside
/// the `i64` range are truncated; [`mat4_mul_in_range`] says when none is.
pub open spec fn mat4_mul_spec(a: Mat4, b: Mat4) -> Mat4 {
    Mat4 {
        m00: mul_entry(a.m00 as int, b.m00 as int, a.m01 as int, b.m10 as int, a.m02 as int, b.m20 as int, a.m03 as int, b.m30 as int) as i64,
        m01: mul_entry(a.m00 as int, b.m01 as int, a.m01 as int, b.m11 as int, a.m02 as int, b.m21 as int, a.m03 as int, b.m31 as int) as i64,
        m02: mul_entry(a.m00 as int, b.m02 as int, a.m01 as int, b.m12 as int, a.m02 as int, b.m22 as int, a.m03 as int, b.m32 as int) as i64,
        m03: mul_entry(a.m00 as int, b.m03 as int, a.m01 as int, b.m13 as int, a.m02 as int, b.m23 as int, a.m03 as int, b.m33 as int) as i64,
        m10: mul_entry(a.m10 as int, b.m00 as int, a.m11 as int, b.m10 as int, a.m12 as int, b.m20 as int, a.m13 as int, b.m30 as int) as i64,
        m11: mul_entry(a.m10 as int, b.m01 as int, a.m11 as int, b.m11 as int, a.m12 as int, b.m21 as int, a.m13 as int, b.m31 as int) as i64,
        m12: mul_entry(a.m10 as int, b.m02 as int, a.m11 as int, b.m12 as int, a.m12 as int, b.m22 as int, a.m13 as int, b.m32 as int) as i64,
        m13: mul_entry(a.m10 as int, b.m03 as int, a.m11 as int, b.m13 as int, a.m12 as int, b.m23 as int, a.m13 as int, b.m33 as int) as i64,
        m20: mul_entry(a.m20 as int, b.m00 as int, a.m21 as int, b.m10 as int, a.m22 as int, b.m20 as int, a.m23 as int, b.m30 as int) as i64,
        m21: mul_entry(a.m20 as int, b.m01 as int, a.m21 as int, b.m11 as int, a.m22 as int, b.m21 as int, a.m23 as int, b.m31 as int) as i64,
        m22: mul_entry(a.m20 as int, b.m02 as int, a.m21 as int, b.m12 as int, a.m22 as int, b.m22 as int, a.m23 as int, b.m32 as int) as i64,
        m23: mul_entry(a.m20 as int, b.m03 as int, a.m21 as int, b.m13 as int, a.m22 as int, b.m23 as int, a.m23 as int, b.m33 as int) as i64,
        m30: mul_entry(a.m30 as int, b.m00 as int, a.m31 as int, b.m10 as int, a.m32 as int, b.m20 as int, a.m33 as int, b.m30 as int) as i64,
        m31: mul_entry(a.m30 as int, b.m01 as int, a.m31 as int, b.m11 as int, a.m32 as int, b.m21 as int, a.m33 as int, b.m31 as int) as i64,
        m32: mul_entry(a.m30 as int, b.m02 as int, a.m31 as int, b.m12 as int, a.m32 as int, b.m22 as int, a.m33 as int, b.m32 as int) as i64,
        m33: mul_entry(a.m30 as int, b.m03 as int, a.m31 as int, b.m13 as int, a.m32 as int, b.m23 as int, a.m33 as int, b.m33 as int) as i64,
    }
}

/// Whether every entry of the product `a * b` lies within [`entry_ok`], so
/// that [`mat4_mul_spec`] loses nothing to truncation.
pub open spec fn mat4_mul_in_range(a: Mat4, b: Mat4) -> bool {
    &&& entry_ok(mul_entry(a.m00 as int, b.m00 as int, a.m01 as int, b.m10 as int, a.m02 as int, b.m20 as int, a.m03 as int, b.m30 as int))
    &&& entry_ok(mul_entry(a.m00 as int, b.m01 as int, a.m01 as int, b.m11 as int, a.m02 as int, b.m21 as int, a.m03 as int, b.m31 as int))
    &&& entry_ok(mul_entry(a.m00 as int, b.m02 as int, a.m01 as int, b.m12 as int, a.m02 as int, b.m22 as int, a.m03 as int, b.m32 as int))
    &&& entry_ok(mul_entry(a.m00 as int, b.m03 as int, a.m01 as int, b.m13 as int, a.m02 as int, b.m23 as int, a.m03 as int, b.m33 as int))
    &&& entry_ok(mul_entry(a.m10 as int, b.m00 as int, a.m11 as int, b.m10 as int, a.m12 as int, b.m20 as int, a.m13 as int, b.m30 as int))
    &&& entry_ok(mul_entry(a.m10 as int, b.m01 as int, a.m11 as int, b.m11 as int, a.m12 as int, b.m21 as int, a.m13 as int, b.m31 as int))
    &&& entry_ok(mul_entry(a.m10 as int, b.m02 as int, a.m11 as int, b.m12 as int, a.m12 as int, b.m22 as int, a.m13 as int, b.m32 as int))
    &&& entry_ok(mul_entry(a.m10 as int, b.m03 as int, a.m11 as int, b.m13 as int, a.m12 as int, b.m23 as int, a.m13 as int, b.m33 as int))
    &&& entry_ok(mul_entry(a.m20 as int, b.m00 as int, a.m21 as int, b.m10 as int, a.m22 as int, b.m20 as int, a.m23 as int, b.m30 as int))
    &&& entry_ok(mul_entry(a.m20 as int, b.m01 as int, a.m21 as int, b.m11 as int, a.m22 as int, b.m21 as int, a.m23 as int, b.m31 as int))
    &&& entry_ok(mul_entry(a.m20 as int, b.m02 as int, a.m21 as int, b.m12 as int, a.m22 as int, b.m22 as int, a.m23 as int, b.m32 as int))
    &&& entry_ok(mul_entry(a.m20 as int, b.m03 as int, a.m21 as int, b.m13 as int, a.m22 as int, b.m23 as int, a.m23 as int, b.m33 as int))
    &&& entry_ok(mul_entry(a.m30 as int, b.m00 as int, a.m31 as int, b.m10 as int, a.m32 as int, b.m20 as int, a.m33 as int, b.m30 as int))
    &&& entry_ok(mul_entry(a.m30 as int, b.m01 as int, a.m31 as int, b.m11 as int, a.m32 as int, b.m21 as int, a.m33 as int, b.m31 as int))
    &&& entry_ok(mul_entry(a.m30 as int, b.m02 as int, a.m31 as int, b.m12 as int, a.m32 as int, b.m22 as int, a.m33 as int, b.m32 as int))
    &&& entry_ok(mul_entry(a.m30 as int, b.m03 as int, a.m31 as int, b.m13 as int, a.m32 as int, b.m23 as int, a.m33 as int, b.m33 as int))
}

/// The product of two entries within [`entry_ok`] stays within 2^124.
proof fn lemma_product_bound(a: int, b: int) by (nonlinear_arith)
    requires
        -0x4000000000000000 <= a <= 0x4000000000000000,
        -0x4000000000000000 <= b <= 0x4000000000000000,
    ensures
        -0x10000000000000000000000000000000 <= a * b <= 0x10000000000000000000000000000000,
{
}

/// Computes one entry of a fixed-point matrix product exactly.
fn mul_entry_exec(a0: i64, b0: i64, a1: i64, b1: i64, a2: i64, b2: i64, a3: i64, b3: i64) -> (e: i128)
    requires
        entry_ok(a0 as int) && entry_ok(a1 as int) && entry_ok(a2 as int) && entry_ok(a3 as int),
        entry_ok(b0 as int) && entry_ok(b1 as int) && entry_ok(b2 as int) && entry_ok(b3 as int),
    ensures
        e == mul_entry(a0 as int, b0 as int, a1 as int, b1 as int, a2 as int, b2 as int, a3 as int, b3 as int),
{
    let p0 = mul_i128(a0 as i128, b0 as i128);
    let p1 = mul_i128(a1 as i128, b1 as i128);
    let p2 = mul_i128(a2 as i128, b2 as i128);
    let p3 = mul_i128(a3 as i128, b3 as i128);
    proof {
        lemma_product_bound(a0 as int, b0 as int);
        lemma_product_bound(a1 as int, b1 as int);
        lemma_product_bound(a2 as int, b2 as int);
        lemma_product_bound(a3 as int, b3 as int);
    }
    let s = p0 + p1 + p2 + p3;
    div_trunc_i128(s, SCALE as i128)
}

impl Mat4 {
    /// The identity transform.
    pub open spec fn identity_spec() -> Mat4 {
        Mat4 {
            m00: SCALE, m01: 0, m02: 0, m03: 0,
            m10: 0, m11: SCALE, m12: 0, m13: 0,
            m20: 0, m21: 0, m22: SCALE, m23: 0,
            m30: 0, m31: 0, m32: 0, m33: SCALE,
        }
    }

    /// Translation by `(tx, ty, tz)`.
    pub open spec fn translation_spec(tx: i64, ty: i64, tz: i64) -> Mat4 {
        Mat4 {
            m00: SCALE, m01: 0, m02: 0, m03: tx,
            m10: 0, m11: SCALE, m12: 0, m13: ty,
            m20: 0, m21: 0, m22: SCALE, m23: tz,
            m30: 0, m31: 0, m32: 0, m33: SCALE,
        }
    }

    /// Uniform scaling of x, y and z by the fixed-point factor `k`.
    pub open spec fn scaling_spec(k: i64) -> Mat4 {
        Mat4 {
            m00: k, m01: 0, m02: 0, m03: 0,
            m10: 0, m11: k, m12: 0, m13: 0,
            m20: 0, m21: 0, m22: k, m23: 0,
            m30: 0, m31: 0, m32: 0, m33: SCALE,
        }
    }

    /// Rotation about the x axis whose angle has fixed-point cosine `c` and
    /// sine `s`: `(y, z)` goes to `(y*c - z*s, y*s + z*c)`.
    pub open spec fn rotation_x_spec(c: i64, s: i64) -> Mat4 {
        Mat4 {
            m00: SCALE, m01: 0, m02: 0, m03: 0,
            m10: 0, m11: c, m12: (-(s as int)) as i64, m13: 0,
            m20: 0, m21: s, m22: c, m23: 0,
            m30: 0, m31: 0, m32: 0, m33: SCALE,
        }
    }

    /// Rotation about the z axis by the *negated* angle whose fixed-point
    /// cosine is `c` and sine is `s`: `(x, y)` goes to `(x*c + y*s, -x*s + y*c)`.
    pub open spec fn rotation_z_neg_spec(c: i64, s: i64) -> Mat4 {
        Mat4 {
            m00: c, m01: s, m02: 0, m03: 0,
            m10: (-(s as int)) as i64, m11: c, m12: 0, m13: 0,
            m20: 0, m21: 0, m22: SCALE, m23: 0,
            m30: 0, m31: 0, m32: 0, m33: SCALE,
        }
    }

    /// Orthographic projection scaling x by `ox` and y by `oy` (each the
    /// fixed-point reciprocal of the viewport half-extent in pixels);
    /// z is passed through.
    pub open spec fn orthographic_spec(ox: i64, oy: i64) -> Mat4 {
        Mat4 {
            m00: ox, m01: 0, m02: 0, m03: 0,
            m10: 0, m11: oy, m12: 0, m13: 0,
            m20: 0, m21: 0, m22: SCALE, m23: 0,
            m30: 0, m31: 0, m32: 0, m33: SCALE,
        }
    }

    /// Builds the identity matrix.
    pub fn identity() -> (m: Mat4)
        ensures
            m == Mat4::identity_spec(),
            mat4_wf(m),
    {
        Mat4 {
            m00: SCALE, m01: 0, m02: 0, m03: 0,
            m10: 0, m11: SCALE, m12: 0, m13: 0,
            m20: 0, m21: 0, m22: SCALE, m23: 0,
            m30: 0, m31: 0, m32: 0, m33: SCALE,
        }
    }

    /// Builds a translation matrix.
    pub fn translation(tx: i64, ty: i64, tz: i64) -> (m: Mat4)
        requires
            entry_ok(tx as int),
            entry_ok(ty as int),
            entry_ok(tz as int),
        ensures
            m == Mat4::translation_spec(tx, ty, tz),
            mat4_wf(m),
    {
        Mat4 {
            m00: SCALE, m01: 0, m02: 0, m03: tx,
            m10: 0, m11: SCALE, m12: 0, m13: ty,
            m20: 0, m21: 0, m22: SCALE, m23: tz,
            m30: 0, m31: 0, m32: 0, m33: SCALE,
        }
    }

    /// Builds a uniform scaling matrix.
    pub fn scaling(k: i64) -> (m: Mat4)
        requires
            entry_ok(k as int),
        ensures
            m == Mat4::scaling_spec(k),
            mat4_wf(m),
    {
        Mat4 {
            m00: k, m01: 0, m02: 0, m03: 0,
            m10: 0, m11: k, m12: 0, m13: 0,
            m20: 0, m21: 0, m22: k, m23: 0,
            m30: 0, m31: 0, m32: 0, m33: SCALE,
        }
    }

    /// Builds the rotation about the x axis from a fixed-point cosine/sine pair.
    pub fn rotation_x(c: i64, s: i64) -> (m: Mat4)
        requires
            -SCALE <= c <= SCALE,
            -SCALE <= s <= SCALE,
        ensures
            m == Mat4::rotation_x_spec(c, s),
            mat4_wf(m),
    {
        Mat4 {
            m00: SCALE, m01: 0, m02: 0, m03: 0,
            m10: 0, m11: c, m12: -s, m13: 0,
            m20: 0, m21: s, m22: c, m23: 0,
            m30: 0, m31: 0, m32: 0, m33: SCALE,
        }
    }

    /// Builds the rotation about the z axis by the negated angle from a
    /// fixed-point cosine/sine pair.
    pub fn rotation_z_neg(c: i64, s: i64) -> (m: Mat4)
        requires
            -SCALE <= c <= SCALE,
            -SCALE <= s <= SCALE,
        ensures
            m == Mat4::rotation_z_neg_spec(c, s),
            mat4_wf(m),
    {
        Mat4 {
            m00: c, m01: s, m02: 0, m03: 0,
            m10: -s, m11: c, m12: 0, m13: 0,
            m20: 0, m21: 0, m22: SCALE, m23: 0,
            m30: 0, m31: 0, m32: 0, m33: SCALE,
        }
    }

    /// Builds the orthographic projection matrix.
    pub fn orthographic(ox: i64, oy: i64) -> (m: Mat4)
        requires
            entry_ok(ox as int),
            entry_ok(oy as int),
        ensures
            m == Mat4::orthographic_spec(ox, oy),
            mat4_wf(m),
    {
        Mat4 {
            m00: ox, m01: 0, m02: 0, m03: 0,
            m10: 0, m11: oy, m12: 0, m13: 0,
            m20: 0, m21: 0, m22: SCALE, m23: 0,
            m30: 0, m31: 0, m32: 0, m33: SCALE,
        }
    }

    /// Fixed-point matrix product. Returns `None` exactly when some entry of
    /// the product falls outside the composable entry range.
    pub fn mul(&self, other: &Mat4) -> (r: Option<Mat4>)
        requires
            mat4_wf(*self),
            mat4_wf(*other),
        ensures
            r matches Some(m) ==> m == mat4_mul_spec(*self, *other) && mat4_wf(m),
            r is Some <==> mat4_mul_in_range(*self, *other),
    {
        let a = self;
        let b = other;
        let e00 = mul_entry_exec(a.m00, b.m00, a.m01, b.m10, a.m02, b.m20, a.m03, b.m30);
        let e01 = mul_entry_exec(a.m00, b.m01, a.m01, b.m11, a.m02, b.m21, a.m03, b.m31);
        let e02 = mul_entry_exec(a.m00, b.m02, a.m01, b.m12, a.m02, b.m22, a.m03, b.m32);
        let e03 = mul_entry_exec(a.m00, b.m03, a.m01, b.m13, a.m02, b.m23, a.m03, b.m33);
        let e10 = mul_entry_exec(a.m10, b.m00, a.m11, b.m10, a.m12, b.m20, a.m13, b.m30);
        let e11 = mul_entry_exec(a.m10, b.m01, a.m11, b.m11, a.m12, b.m21, a.m13, b.m31);
        let e12 = mul_entry_exec(a.m10, b.m02, a.m11, b.m12, a.m12, b.m22, a.m13, b.m32);
        let e13 = mul_entry_exec(a.m10, b.m03, a.m11, b.m13, a.m12, b.m23, a.m13, b.m33);
        let e20 = mul_entry_exec(a.m20, b.m00, a.m21, b.m10, a.m22, b.m20, a.m23, b.m30);
        let e21 = mul_entry_exec(a.m20, b.m01, a.m21, b.m11, a.m22, b.m21, a.m23, b.m31);
        let e22 = mul_entry_exec(a.m20, b.m02, a.m21, b.m12, a.m22, b.m22, a.m23, b.m32);
        let e23 = mul_entry_exec(a.m20, b.m03, a.m21, b.m13, a.m22, b.m23, a.m23, b.m33);
        let e30 = mul_entry_exec(a.m30, b.m00, a.m31, b.m10, a.m32, b.m20, a.m33, b.m30);
        let e31 = mul_entry_exec(a.m30, b.m01, a.m31, b.m11, a.m32, b.m21, a.m33, b.m31);
        let e32 = mul_entry_exec(a.m30, b.m02, a.m31, b.m12, a.m32, b.m22, a.m33, b.m32);
        let e33 = mul_entry_exec(a.m30, b.m03, a.m31, b.m13, a.m32, b.m23, a.m33, b.m33);
        let lo = -(ENTRY_MAX as i128);
        let hi = ENTRY_MAX as i128;
        if e00 < lo || e00 > hi || e01 < lo || e01 > hi || e02 < lo || e02 > hi || e03 < lo
            || e03 > hi || e10 < lo || e10 > hi || e11 < lo || e11 > hi || e12 < lo || e12 > hi
            || e13 < lo || e13 > hi || e20 < lo || e20 > hi || e21 < lo || e21 > hi || e22 < lo
            || e22 > hi || e23 < lo || e23 > hi || e30 < lo || e30 > hi || e31 < lo || e31 > hi
            || e32 < lo || e32 > hi || e33 < lo || e33 > hi {
            None
        } else {
            Some(
                Mat4 {
                    m00: e00 as i64, m01: e01 as i64, m02: e02 as i64, m03: e03 as i64,
                    m10: e10 as i64, m11: e11 as i64, m12: e12 as i64, m13: e13 as i64,
                    m20: e20 as i64, m21: e21 as i64, m22: e22 as i64, m23: e23 as i64,
                    m30: e30 as i64, m31: e31 as i64, m32: e32 as i64, m33: e33 as i64,
                },
            )
        }
    }
}

} // verus!
