//! A world-space vector in fixed point: milli-units per component.

use vstd::prelude::*;

verus! {

/// A position or offset, each component in thousandths of a world unit.
#[derive(Clone, Copy, Debug, PartialEq, Eq, Structural)]
pub struct Vec3Milli {
    pub x: i64,
    pub y: i64,
    pub z: i64,
}

/// The componentwise sums of `a` and `b` stay representable.
pub open spec fn plus_in_range(a: Vec3Milli, b: Vec3Milli) -> bool {
    &&& i64::MIN <= a.x + b.x <= i64::MAX
    &&& i64::MIN <= a.y + b.y <= i64::MAX
    &&& i64::MIN <= a.z + b.z <= i64::MAX
}

/// `r` is the componentwise sum of `a` and `b`.
pub open spec fn is_sum(r: Vec3Milli, a: Vec3Milli, b: Vec3Milli) -> bool {
    &&& r.x == a.x + b.x
    &&& r.y == a.y + b.y
    &&& r.z == a.z + b.z
}

impl Vec3Milli {
    /// Componentwise sum.
    pub fn plus(&self, other: &Vec3Milli) -> (r: Vec3Milli)
        requires
            plus_in_range(*self, *other),
        ensures
            is_sum(r, *self, *other),
    {
        Vec3Milli { x: self.x + other.x, y: self.y + other.y, z: self.z + other.z }
    }
}

} // verus!
