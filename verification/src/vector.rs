//! Points and directions of three-dimensional space.
//!
//! Both hold three coordinates. In homogeneous terms a point carries the
//! fourth component one and a direction the fourth component zero; here the
//! type is that tag, so nothing that changes coordinates can touch it and
//! converting between the two resets it.

use vstd::prelude::*;
use crate::scalar::Scalar;
use crate::scalar::ONE_BITS;
use crate::scalar::ZERO_BITS;

verus! {

/// A position: homogeneous tag one.
#[derive(Clone, Copy, Debug)]
pub struct Point3 {
    pub x: Scalar,
    pub y: Scalar,
    pub z: Scalar,
}

/// A direction: homogeneous tag zero.
#[derive(Clone, Copy, Debug)]
pub struct Vec3 {
    pub x: Scalar,
    pub y: Scalar,
    pub z: Scalar,
}

impl Point3 {
    /// The homogeneous component at index `i`: a coordinate for 0, 1 and 2,
    /// the tag for 3.
    pub open spec fn component(self, i: int) -> Scalar {
        if i == 0 {
            self.x
        } else if i == 1 {
            self.y
        } else if i == 2 {
            self.z
        } else {
            Scalar { bits: ONE_BITS }
        }
    }

    /// The point whose every coordinate is the lesser of the two points'.
    pub open spec fn lower(self, b: Point3) -> Point3 {
        Point3 {
            x: self.x.lesser_of(b.x),
            y: self.y.lesser_of(b.y),
            z: self.z.lesser_of(b.z),
        }
    }

    /// The point whose every coordinate is the greater of the two points'.
    pub open spec fn upper(self, b: Point3) -> Point3 {
        Point3 {
            x: self.x.greater_of(b.x),
            y: self.y.greater_of(b.y),
            z: self.z.greater_of(b.z),
        }
    }

    /// Whether every coordinate is a number.
    pub open spec fn numeric(self) -> bool {
        !self.x.nan() && !self.y.nan() && !self.z.nan()
    }

    /// Whether every coordinate of `self` is at most the same coordinate of `b`.
    pub open spec fn below(self, b: Point3) -> bool {
        self.x.at_most(b.x) && self.y.at_most(b.y) && self.z.at_most(b.z)
    }

    /// The point with the given coordinates.
    pub fn new(x: Scalar, y: Scalar, z: Scalar) -> (r: Point3)
        ensures
            r == (Point3 { x, y, z }),
    {
        Point3 { x, y, z }
    }

    /// The tag of every point: one.
    pub fn tag() -> (r: Scalar)
        ensures
            r.bits == ONE_BITS,
    {
        Scalar::one()
    }

    /// The homogeneous component at index `i`.
    pub fn uget(&self, i: u8) -> (r: Scalar)
        requires
            i < 4,
        ensures
            r == self.component(i as int),
    {
        if i == 0 {
            self.x
        } else if i == 1 {
            self.y
        } else if i == 2 {
            self.z
        } else {
            Scalar::one()
        }
    }

    /// The three coordinates.
    pub fn unpack(&self) -> (r: (Scalar, Scalar, Scalar))
        ensures
            r == (self.x, self.y, self.z),
    {
        (self.x, self.y, self.z)
    }

    /// What `f` makes of each of the three coordinates.
    pub fn unpack_map<F: Fn(Scalar) -> Scalar>(&self, f: F) -> (r: (Scalar, Scalar, Scalar))
        requires
            f.requires((self.x,)),
            f.requires((self.y,)),
            f.requires((self.z,)),
        ensures
            f.ensures((self.x,), r.0),
            f.ensures((self.y,), r.1),
            f.ensures((self.z,), r.2),
    {
        (f(self.x), f(self.y), f(self.z))
    }

    /// The coordinate-wise minimum of `self` and `b`.
    pub fn lower_bound(&self, b: Point3) -> (r: Point3)
        ensures
            r == self.lower(b),
    {
        Point3 { x: self.x.min(b.x), y: self.y.min(b.y), z: self.z.min(b.z) }
    }

    /// The coordinate-wise maximum of `self` and `b`.
    pub fn upper_bound(&self, b: Point3) -> (r: Point3)
        ensures
            r == self.upper(b),
    {
        Point3 { x: self.x.max(b.x), y: self.y.max(b.y), z: self.z.max(b.z) }
    }
}

impl Vec3 {
    /// The homogeneous component at index `i`: a coordinate for 0, 1 and 2,
    /// the tag for 3.
    pub open spec fn component(self, i: int) -> Scalar {
        if i == 0 {
            self.x
        } else if i == 1 {
            self.y
        } else if i == 2 {
            self.z
        } else {
            Scalar { bits: ZERO_BITS }
        }
    }

    /// The direction of the same length that points the other way.
    pub open spec fn negated(self) -> Vec3 {
        Vec3 { x: self.x.negated(), y: self.y.negated(), z: self.z.negated() }
    }

    /// The direction with the given coordinates.
    pub fn new(x: Scalar, y: Scalar, z: Scalar) -> (r: Vec3)
        ensures
            r == (Vec3 { x, y, z }),
    {
        Vec3 { x, y, z }
    }

    /// The tag of every direction: zero.
    pub fn tag() -> (r: Scalar)
        ensures
            r.bits == ZERO_BITS,
    {
        Scalar::zero()
    }

    /// The homogeneous component at index `i`.
    pub fn uget(&self, i: u8) -> (r: Scalar)
        requires
            i < 4,
        ensures
            r == self.component(i as int),
    {
        if i == 0 {
            self.x
        } else if i == 1 {
            self.y
        } else if i == 2 {
            self.z
        } else {
            Scalar::zero()
        }
    }

    /// The three coordinates.
    pub fn unpack(&self) -> (r: (Scalar, Scalar, Scalar))
        ensures
            r == (self.x, self.y, self.z),
    {
        (self.x, self.y, self.z)
    }

    /// What `f` makes of each of the three coordinates.
    pub fn unpack_map<F: Fn(Scalar) -> Scalar>(&self, f: F) -> (r: (Scalar, Scalar, Scalar))
        requires
            f.requires((self.x,)),
            f.requires((self.y,)),
            f.requires((self.z,)),
        ensures
            f.ensures((self.x,), r.0),
            f.ensures((self.y,), r.1),
            f.ensures((self.z,), r.2),
    {
        (f(self.x), f(self.y), f(self.z))
    }
}

impl Vec3 {
    /// The direction of the same length that points the other way.
    pub fn neg(&self) -> (r: Vec3)
        ensures
            r == self.negated(),
    {
        Vec3 { x: self.x.neg(), y: self.y.neg(), z: self.z.neg() }
    }
}

impl From<Point3> for Vec3 {
    /// The direction from the origin to the point: same coordinates, tag zero.
    fn from(a: Point3) -> (r: Vec3) {
        Vec3 { x: a.x, y: a.y, z: a.z }
    }
}

impl vstd::std_specs::convert::FromSpecImpl<Point3> for Vec3 {
    open spec fn obeys_from_spec() -> bool {
        true
    }

    open spec fn from_spec(a: Point3) -> Vec3 {
        Vec3 { x: a.x, y: a.y, z: a.z }
    }
}

impl From<Vec3> for Point3 {
    /// The point that the direction leads to from the origin: same
    /// coordinates, tag one.
    fn from(a: Vec3) -> (r: Point3) {
        Point3 { x: a.x, y: a.y, z: a.z }
    }
}

impl vstd::std_specs::convert::FromSpecImpl<Vec3> for Point3 {
    open spec fn obeys_from_spec() -> bool {
        true
    }

    open spec fn from_spec(a: Vec3) -> Point3 {
        Point3 { x: a.x, y: a.y, z: a.z }
    }
}

/// Among points whose coordinates are numbers, the lower bound of two lies
/// below both and the upper bound above both.
pub proof fn lemma_bounds_enclose(a: Point3, b: Point3)
    requires
        a.numeric(),
        b.numeric(),
    ensures
        a.lower(b).below(a),
        a.lower(b).below(b),
        a.below(a.upper(b)),
        b.below(a.upper(b)),
        a.lower(b).numeric(),
        a.upper(b).numeric(),
{
}

/// Lying below, coordinate by coordinate, carries over from point to point.
pub proof fn lemma_below_carries(a: Point3, b: Point3, c: Point3)
    requires
        a.below(b),
        b.below(c),
    ensures
        a.below(c),
{
}

} // verus!
