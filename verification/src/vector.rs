//! Small vectors of scalars.

use vstd::prelude::*;
use crate::scalar::Scalar;

verus! {

/// Three scalars: a point, a direction or a colour.
#[derive(Clone, Copy, Debug, PartialEq, Eq, Structural)]
pub struct Vec3 {
    pub x: Scalar,
    pub y: Scalar,
    pub z: Scalar,
}

impl Vec3 {
    /// The vector with the given bit patterns as its components.
    pub open spec fn of_bits(x: u32, y: u32, z: u32) -> Vec3 {
        Vec3 { x: Scalar { bits: x }, y: Scalar { bits: y }, z: Scalar { bits: z } }
    }

    pub fn new(x: Scalar, y: Scalar, z: Scalar) -> (v: Vec3)
        ensures
            v == (Vec3 { x, y, z }),
    {
        Vec3 { x, y, z }
    }

    pub fn from_bits(x: u32, y: u32, z: u32) -> (v: Vec3)
        ensures
            v == Vec3::of_bits(x, y, z),
    {
        Vec3 { x: Scalar { bits: x }, y: Scalar { bits: y }, z: Scalar { bits: z } }
    }
}

/// An orientation: scalar part and vector part. The crate carries it and
/// never computes with it.
#[derive(Clone, Copy, Debug, PartialEq, Eq, Structural)]
pub struct Quaternion {
    pub s: Scalar,
    pub v: Vec3,
}

} // verus!
