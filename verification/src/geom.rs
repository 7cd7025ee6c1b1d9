//! Plain-value models of the geometric data the control flow carries.
//!
//! The demo's geometry is single-precision; this crate never computes with
//! such numbers. A scalar travels as its IEEE-754 bit pattern inside a
//! `Scalar`, so equality, negation and zero tests are exact, while arithmetic
//! on scalars is left to the unverified edge that owns the numerics.

use vstd::prelude::*;

verus! {

/// A single-precision value carried as its raw bit pattern.
#[derive(Clone, Copy, PartialEq, Eq, Structural, Debug)]
pub struct Scalar {
    pub bits: u32,
}

/// Bit pattern of positive zero.
pub const ZERO_BITS: u32 = 0;

/// Bit that holds the sign; also the bit pattern of negative zero.
pub const SIGN_BIT: u32 = 0x8000_0000;

impl Scalar {
    /// Positive zero.
    pub fn zero() -> (r: Scalar)
        ensures
            r.bits == ZERO_BITS,
    {
        Scalar { bits: ZERO_BITS }
    }

    /// Whether the value is zero; both zero bit patterns count, as the
    /// numeric comparison against zero would.
    pub fn is_zero(&self) -> (r: bool)
        ensures
            r == self.spec_is_zero(),
    {
        self.bits == ZERO_BITS || self.bits == SIGN_BIT
    }

    pub open spec fn spec_is_zero(&self) -> bool {
        self.bits == ZERO_BITS || self.bits == SIGN_BIT
    }

    pub open spec fn spec_neg(&self) -> Scalar {
        if self.bits >= SIGN_BIT {
            Scalar { bits: (self.bits - SIGN_BIT) as u32 }
        } else {
            Scalar { bits: (self.bits + SIGN_BIT) as u32 }
        }
    }

    /// The negated value: the sign bit flipped, which is exact negation.
    pub fn neg(&self) -> (r: Scalar)
        ensures
            r == self.spec_neg(),
            r.spec_is_zero() == self.spec_is_zero(),
    {
        if self.bits >= SIGN_BIT {
            Scalar { bits: self.bits - SIGN_BIT }
        } else {
            Scalar { bits: self.bits + SIGN_BIT }
        }
    }
}

/// A point or size with integer device coordinates.
#[derive(Clone, Copy, PartialEq, Eq, Structural, Debug)]
pub struct Vector2I {
    pub x: i32,
    pub y: i32,
}

impl Vector2I {
    pub fn new(x: i32, y: i32) -> (r: Vector2I)
        ensures
            r.x == x && r.y == y,
    {
        Vector2I { x, y }
    }

    pub fn zero() -> (r: Vector2I)
        ensures
            r.x == 0 && r.y == 0,
    {
        Vector2I { x: 0, y: 0 }
    }

    /// Componentwise difference.
    pub fn sub(&self, other: &Vector2I) -> (r: Vector2I)
        requires
            i32::MIN <= self.x - other.x <= i32::MAX,
            i32::MIN <= self.y - other.y <= i32::MAX,
        ensures
            r.x == self.x - other.x,
            r.y == self.y - other.y,
    {
        Vector2I { x: self.x - other.x, y: self.y - other.y }
    }

    /// Componentwise product with an integer factor.
    pub fn scale(&self, factor: i32) -> (r: Vector2I)
        requires
            i32::MIN <= self.x * factor <= i32::MAX,
            i32::MIN <= self.y * factor <= i32::MAX,
        ensures
            r.x == self.x * factor,
            r.y == self.y * factor,
    {
        Vector2I { x: self.x * factor, y: self.y * factor }
    }
}

/// A velocity or position in world coordinates, one scalar per axis.
#[derive(Clone, Copy, PartialEq, Eq, Structural, Debug)]
pub struct Vector3S {
    pub x: Scalar,
    pub y: Scalar,
    pub z: Scalar,
}

impl Vector3S {
    pub fn zero() -> (r: Vector3S)
        ensures
            r.x.bits == ZERO_BITS && r.y.bits == ZERO_BITS && r.z.bits == ZERO_BITS,
    {
        Vector3S { x: Scalar::zero(), y: Scalar::zero(), z: Scalar::zero() }
    }

    /// Whether every component is zero, the test the velocity integration
    /// makes before it moves the camera.
    pub fn is_zero(&self) -> (r: bool)
        ensures
            r == self.spec_is_zero(),
    {
        self.x.is_zero() && self.y.is_zero() && self.z.is_zero()
    }

    pub open spec fn spec_is_zero(&self) -> bool {
        self.x.spec_is_zero() && self.y.spec_is_zero() && self.z.spec_is_zero()
    }
}

/// The scene's logical bounding rectangle, as four scalar coordinates.
#[derive(Clone, Copy, PartialEq, Eq, Structural, Debug)]
pub struct ViewBox {
    pub origin_x: Scalar,
    pub origin_y: Scalar,
    pub size_x: Scalar,
    pub size_y: Scalar,
}

} // verus!
