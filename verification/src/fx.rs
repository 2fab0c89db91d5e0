//! Fixed-point scalars.
//!
//! Every quantity the renderer computes with (positions, sizes, angles,
//! color channels, vertex data) is a binary fixed-point number: an `i64`
//! numerator over the fixed denominator [`FX_SCALE`]. All arithmetic on
//! them is exact integer arithmetic, so every contract in this crate can
//! state results to the last bit.

use vstd::prelude::*;

verus! {

/// Denominator of every [`Fx`] value: a raw of `FX_SCALE` is the number one.
pub const FX_SCALE: i64 = 65536;

/// A fixed-point scalar; its mathematical value is `raw / FX_SCALE`.
#[derive(Clone, Copy, Debug, PartialEq, Eq, Structural)]
pub struct Fx {
    pub raw: i64,
}

impl Fx {
    /// The scalar holding exactly the integer `units`.
    pub fn from_int(units: i32) -> (r: Fx)
        ensures
            r.raw == units * FX_SCALE,
    {
        Fx { raw: (units as i64) * FX_SCALE }
    }

    /// The scalar zero.
    pub fn zero() -> (r: Fx)
        ensures
            r.raw == 0,
    {
        Fx { raw: 0 }
    }

    /// The scalar one.
    pub fn one() -> (r: Fx)
        ensures
            r.raw == FX_SCALE,
    {
        Fx { raw: FX_SCALE }
    }
}

/// A two-component fixed-point vector (a point or an extent in the plane).
#[derive(Clone, Copy, Debug, PartialEq, Eq, Structural)]
pub struct Vec2 {
    pub x: Fx,
    pub y: Fx,
}

/// A three-component fixed-point vector (an RGB tint).
#[derive(Clone, Copy, Debug, PartialEq, Eq, Structural)]
pub struct Vec3 {
    pub x: Fx,
    pub y: Fx,
    pub z: Fx,
}

/// Denominator of every [`Mat4`] entry: an entry of `MAT_SCALE` is the number one.
///
/// The model transform multiplies two `Fx` factors and halves an extent, so
/// its entries need the finer denominator `2 * FX_SCALE * FX_SCALE` to stay
/// exact integers.
pub const MAT_SCALE: i64 = 2 * FX_SCALE * FX_SCALE;

/// A 4x4 fixed-point matrix in row-major order; entry `mRC` sits in row `R`,
/// column `C`, and its mathematical value is `mRC / MAT_SCALE`. Row 0 maps to
/// world x, row 1 to world y; the translation lives in `m03` and `m13`.
#[derive(Clone, Copy, Debug, PartialEq, Eq, Structural)]
pub struct Mat4 {
    pub m00: i64,
    pub m01: i64,
    pub m02: i64,
    pub m03: i64,
    pub m10: i64,
    pub m11: i64,
    pub m12: i64,
    pub m13: i64,
    pub m20: i64,
    pub m21: i64,
    pub m22: i64,
    pub m23: i64,
    pub m30: i64,
    pub m31: i64,
    pub m32: i64,
    pub m33: i64,
}

/// An angle in degrees, carried together with its cosine and sine.
///
/// The library computes with exact fixed-point numbers and so cannot evaluate
/// the trigonometric functions itself; the caller supplies `cos` and `sin`
/// for `degrees` (the right-angle multiples below are exact). The transform
/// contracts speak only of `cos` and `sin`.
#[derive(Clone, Copy, Debug, PartialEq, Eq, Structural)]
pub struct Angle {
    pub degrees: Fx,
    pub cos: Fx,
    pub sin: Fx,
}

impl Angle {
    /// The zero angle: cos 1, sin 0.
    pub fn zero() -> (r: Angle)
        ensures
            r.degrees.raw == 0,
            r.cos.raw == FX_SCALE,
            r.sin.raw == 0,
    {
        Angle { degrees: Fx { raw: 0 }, cos: Fx { raw: FX_SCALE }, sin: Fx { raw: 0 } }
    }

    /// A half turn, 180 degrees: cos -1, sin 0.
    pub fn half_turn() -> (r: Angle)
        ensures
            r.degrees.raw == 180 * FX_SCALE,
            r.cos.raw == -FX_SCALE,
            r.sin.raw == 0,
    {
        Angle {
            degrees: Fx { raw: 180 * FX_SCALE },
            cos: Fx { raw: -FX_SCALE },
            sin: Fx { raw: 0 },
        }
    }
}

} // verus!
