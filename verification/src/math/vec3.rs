//! Triples of numbers: directions, points and colours.

use crate::math::scalar::Scalar;
use vstd::prelude::*;

verus! {

/// Bits of 1e-8, the magnitude under which a component counts as zero.
pub const NEAR_ZERO_BITS: u64 = 0x3E45_798E_E230_8C3A;

/// Three numbers.  By convention a direction, a point or, with the channels
/// red, green and blue in this order, a colour.
#[derive(Clone, Copy, Debug)]
pub struct Vec3 {
    pub x: Scalar,
    pub y: Scalar,
    pub z: Scalar,
}

pub type ColorRGB = Vec3;

pub type Point3 = Vec3;

impl Vec3 {
    /// Every component is a number of magnitude below 1e-8.
    pub open spec fn near_zero_spec(self) -> bool {
        &&& self.x.magnitude() < NEAR_ZERO_BITS
        &&& self.y.magnitude() < NEAR_ZERO_BITS
        &&& self.z.magnitude() < NEAR_ZERO_BITS
    }

    /// The vector that points the other way.
    pub open spec fn neg_spec(self) -> Vec3 {
        Vec3 { x: self.x.neg_spec(), y: self.y.neg_spec(), z: self.z.neg_spec() }
    }

    /// Every component is a number between zero and one.
    pub open spec fn unit_range(self) -> bool {
        &&& 0 <= self.x.rank() <= crate::math::scalar::ONE_BITS
        &&& 0 <= self.y.rank() <= crate::math::scalar::ONE_BITS
        &&& 0 <= self.z.rank() <= crate::math::scalar::ONE_BITS
    }

    pub fn x(&self) -> (r: Scalar)
        ensures
            r == self.x,
    {
        self.x
    }

    pub fn y(&self) -> (r: Scalar)
        ensures
            r == self.y,
    {
        self.y
    }

    pub fn z(&self) -> (r: Scalar)
        ensures
            r == self.z,
    {
        self.z
    }

    /// Whether the vector is too short to give a direction.
    pub fn near_zero(self) -> (r: bool)
        ensures
            r == self.near_zero_spec(),
    {
        let s = Scalar::from_bits(NEAR_ZERO_BITS);
        self.x.abs().lt(s) && self.y.abs().lt(s) && self.z.abs().lt(s)
    }

    /// The vector that points the other way.
    pub fn neg(self) -> (r: Vec3)
        ensures
            r == self.neg_spec(),
    {
        Vec3 { x: self.x.neg(), y: self.y.neg(), z: self.z.neg() }
    }
}

pub fn color(x: Scalar, y: Scalar, z: Scalar) -> (r: ColorRGB)
    ensures
        r == (Vec3 { x, y, z }),
{
    Vec3 { x, y, z }
}

pub fn point(x: Scalar, y: Scalar, z: Scalar) -> (r: Point3)
    ensures
        r == (Vec3 { x, y, z }),
{
    Vec3 { x, y, z }
}

pub fn vec3(x: Scalar, y: Scalar, z: Scalar) -> (r: Vec3)
    ensures
        r == (Vec3 { x, y, z }),
{
    Vec3 { x, y, z }
}

} // verus!
