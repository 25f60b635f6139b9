use vstd::prelude::*;

verus! {

/// Bits of the single-precision value `1.0`.
pub const ONE_BITS: u32 = 0x3f80_0000;

/// Bits of the largest finite single-precision value.
pub const MAX_BITS: u32 = 0x7f7f_ffff;

/// Bits of the most negative finite single-precision value.
pub const NEG_MAX_BITS: u32 = 0xff7f_ffff;

/// A single-precision scalar, held as its IEEE-754 bit pattern.
#[derive(Clone, Copy, Debug, PartialEq, Eq, Structural)]
pub struct Real {
    pub bits: u32,
}

impl Real {
    pub fn zero() -> (r: Real)
        ensures
            r.bits == 0,
    {
        Real { bits: 0 }
    }

    pub fn one() -> (r: Real)
        ensures
            r.bits == ONE_BITS,
    {
        Real { bits: ONE_BITS }
    }

    /// The largest finite value: the upper bound of an unbounded range.
    pub fn max_value() -> (r: Real)
        ensures
            r.bits == MAX_BITS,
    {
        Real { bits: MAX_BITS }
    }

    /// The most negative finite value: the lower bound of an unbounded range.
    pub fn neg_max_value() -> (r: Real)
        ensures
            r.bits == NEG_MAX_BITS,
    {
        Real { bits: NEG_MAX_BITS }
    }
}

/// A 3D point or vector.
#[derive(Clone, Copy, Debug, PartialEq, Eq, Structural)]
pub struct RawVector {
    pub x: Real,
    pub y: Real,
    pub z: Real,
}

impl RawVector {
    pub fn new(x: Real, y: Real, z: Real) -> (r: RawVector)
        ensures
            r.x == x && r.y == y && r.z == z,
    {
        RawVector { x, y, z }
    }

    pub fn zeros() -> (r: RawVector)
        ensures
            r.x.bits == 0 && r.y.bits == 0 && r.z.bits == 0,
    {
        RawVector { x: Real::zero(), y: Real::zero(), z: Real::zero() }
    }
}

/// A 3D rotation as a unit quaternion `w + i·x + j·y + k·z`.
#[derive(Clone, Copy, Debug, PartialEq, Eq, Structural)]
pub struct RawRotation {
    pub w: Real,
    pub x: Real,
    pub y: Real,
    pub z: Real,
}

impl RawRotation {
    pub open spec fn spec_identity() -> RawRotation {
        RawRotation {
            w: Real { bits: ONE_BITS },
            x: Real { bits: 0 },
            y: Real { bits: 0 },
            z: Real { bits: 0 },
        }
    }

    pub fn identity() -> (r: RawRotation)
        ensures
            r == RawRotation::spec_identity(),
    {
        RawRotation { w: Real::one(), x: Real::zero(), y: Real::zero(), z: Real::zero() }
    }
}

/// A rigid frame: a rotation followed by a translation.
#[derive(Clone, Copy, Debug, PartialEq, Eq, Structural)]
pub struct Isometry {
    pub translation: RawVector,
    pub rotation: RawRotation,
}

} // verus!
