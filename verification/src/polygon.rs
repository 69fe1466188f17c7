//! Polygons: their bounding boxes and the test that decides whether a ray
//! crosses one.

use vstd::prelude::*;
use crate::scalar::Scalar;
use crate::scalar::EPSILON_BITS;
use crate::scalar::NEG_EPSILON_BITS;
use crate::scalar::ONE_BITS;
use crate::scalar::ZERO_BITS;
use crate::vector::Point3;
use crate::vector::lemma_below_carries;
use crate::vector::lemma_bounds_enclose;

verus! {

/// A flat piece of surface.
#[derive(Clone, Copy, Debug)]
pub enum Polygon {
    /// The triangle with the three given corners.
    Triangle(Point3, Point3, Point3),
}

/// What the Möller–Trumbore method derives from one ray and one triangle
/// with corners `p0`, `p1`, `p2`. With `edge1 = p1 - p0`, `edge2 = p2 - p0`
/// and `h` the cross product of `edge2` and the ray's direction:
/// `det` is the dot product of `edge1` and `h`; `u` and `v` are the
/// barycentric coordinates of the crossing, `uv` their sum; `t` is the ray
/// parameter of the crossing.
#[derive(Clone, Copy, Debug)]
pub struct Crossing {
    pub det: Scalar,
    pub u: Scalar,
    pub v: Scalar,
    pub uv: Scalar,
    pub t: Scalar,
}

impl Crossing {
    /// Whether the ray runs parallel to the triangle's plane: the
    /// determinant lies strictly between minus and plus 1e-7.
    pub open spec fn parallel(self) -> bool {
        self.det.greater(Scalar { bits: NEG_EPSILON_BITS }) && self.det.less(
            Scalar { bits: EPSILON_BITS },
        )
    }

    /// Whether the crossing lies outside the triangle: `u` below zero or
    /// above one, `v` below zero, or `u + v` above one.
    pub open spec fn outside(self) -> bool {
        ||| self.u.less(Scalar { bits: ZERO_BITS })
        ||| self.u.greater(Scalar { bits: ONE_BITS })
        ||| self.v.less(Scalar { bits: ZERO_BITS })
        ||| self.uv.greater(Scalar { bits: ONE_BITS })
    }

    /// Whether the crossing lies ahead of the ray's origin by more than 1e-7.
    pub open spec fn ahead(self) -> bool {
        self.t.greater(Scalar { bits: EPSILON_BITS })
    }

    /// Whether the ray hits the triangle.
    pub open spec fn accepted(self) -> bool {
        !self.parallel() && !self.outside() && self.ahead()
    }

    /// Whether all five quantities are numbers.
    pub open spec fn numeric(self) -> bool {
        !self.det.nan() && !self.u.nan() && !self.v.nan() && !self.uv.nan() && !self.t.nan()
    }

    /// Whether the ray hits the triangle: it is not parallel to the plane,
    /// the crossing lies inside the triangle, and it lies ahead of the origin.
    pub fn hits(&self) -> (r: bool)
        ensures
            r == self.accepted(),
    {
        let eps = Scalar::epsilon();
        let zero = Scalar::zero();
        let one = Scalar::one();
        if self.det.gt(Scalar::neg_epsilon()) && self.det.lt(eps) {
            return false;
        }
        if self.u.lt(zero) || self.u.gt(one) {
            return false;
        }
        if self.v.lt(zero) || self.uv.gt(one) {
            return false;
        }
        self.t.gt(eps)
    }
}

/// What the arithmetic yields for one ray and one triangle: the quantities
/// of the method, the point at which the ray crosses the triangle's plane,
/// and the distance of that point from the ray's origin, which is the
/// length of the way between the two whatever the length of the ray's
/// direction.
#[derive(Clone, Copy, Debug)]
pub struct Probe {
    pub crossing: Crossing,
    pub point: Point3,
    pub dist: Scalar,
}

impl Probe {
    /// The hit of the ray on the triangle: the point and its distance
    /// where the ray hits, nothing where it does not.
    pub open spec fn hit(self) -> Option<(Point3, Scalar)> {
        if self.crossing.accepted() {
            Some((self.point, self.dist))
        } else {
            None
        }
    }
}

impl Polygon {
    /// The coordinate-wise minimum and maximum of the corners.
    pub open spec fn extent(self) -> (Point3, Point3) {
        match self {
            Polygon::Triangle(p0, p1, p2) => (p0.lower(p1.lower(p2)), p0.upper(p1.upper(p2))),
        }
    }

    /// Whether every coordinate of every corner is a number.
    pub open spec fn numeric(self) -> bool {
        match self {
            Polygon::Triangle(p0, p1, p2) => p0.numeric() && p1.numeric() && p2.numeric(),
        }
    }

    /// Whether every corner lies between `lo` and `hi`, coordinate by
    /// coordinate.
    pub open spec fn within(self, lo: Point3, hi: Point3) -> bool {
        match self {
            Polygon::Triangle(p0, p1, p2) => {
                &&& lo.below(p0) && p0.below(hi)
                &&& lo.below(p1) && p1.below(hi)
                &&& lo.below(p2) && p2.below(hi)
            },
        }
    }

    /// The axis-aligned bounding box: its minimum corner, then its maximum
    /// corner.
    pub fn bounds(&self) -> (r: [Point3; 2])
        ensures
            r[0] == self.extent().0,
            r[1] == self.extent().1,
    {
        match self {
            Polygon::Triangle(p0, p1, p2) => {
                [p0.lower_bound(p1.lower_bound(*p2)), p0.upper_bound(p1.upper_bound(*p2))]
            },
        }
    }

    /// The hit of a ray on the polygon, from what the arithmetic yields
    /// for the two: the point and the distance where the ray hits, nothing
    /// where it does not.
    pub fn intersect(&self, probe: &Probe) -> (r: Option<(Point3, Scalar)>)
        ensures
            r == probe.hit(),
    {
        match self {
            Polygon::Triangle(_, _, _) => {
                if probe.crossing.hits() {
                    Some((probe.point, probe.dist))
                } else {
                    None
                }
            },
        }
    }
}

/// Where all five quantities are numbers, the ray hits exactly when the
/// determinant is at least 1e-7 in magnitude, both barycentric coordinates
/// are at least zero, `u` and `u + v` are at most one, and the ray parameter
/// exceeds 1e-7.
pub proof fn lemma_accepted_among_numbers(c: Crossing)
    requires
        c.numeric(),
    ensures
        c.accepted() <==> {
            &&& (c.det.at_most(Scalar { bits: NEG_EPSILON_BITS }) || c.det.at_least(
                Scalar { bits: EPSILON_BITS },
            ))
            &&& c.u.at_least(Scalar { bits: ZERO_BITS })
            &&& c.u.at_most(Scalar { bits: ONE_BITS })
            &&& c.v.at_least(Scalar { bits: ZERO_BITS })
            &&& c.uv.at_most(Scalar { bits: ONE_BITS })
            &&& c.t.greater(Scalar { bits: EPSILON_BITS })
        },
{
}

/// A ray whose parameter at the crossing is no number, or whose determinant
/// is zero, hits nothing.
pub proof fn lemma_degenerate_misses(c: Crossing)
    requires
        c.t.nan() || c.det.rank() == 0,
    ensures
        !c.accepted(),
{
}

/// A polygon whose corners have numbers for coordinates lies within its own
/// bounding box.
pub proof fn lemma_extent_encloses(p: Polygon)
    requires
        p.numeric(),
    ensures
        p.within(p.extent().0, p.extent().1),
        p.extent().0.numeric(),
        p.extent().1.numeric(),
{
    match p {
        Polygon::Triangle(p0, p1, p2) => {
            lemma_bounds_enclose(p1, p2);
            lemma_bounds_enclose(p0, p1.lower(p2));
            lemma_bounds_enclose(p0, p1.upper(p2));
        },
    }
}

/// A polygon that lies within a box lies within every box around that box.
pub proof fn lemma_within_wider(p: Polygon, lo: Point3, hi: Point3, wider_lo: Point3, wider_hi: Point3)
    requires
        p.within(lo, hi),
        wider_lo.below(lo),
        hi.below(wider_hi),
    ensures
        p.within(wider_lo, wider_hi),
{
    match p {
        Polygon::Triangle(p0, p1, p2) => {
            lemma_below_carries(wider_lo, lo, p0);
            lemma_below_carries(wider_lo, lo, p1);
            lemma_below_carries(wider_lo, lo, p2);
            lemma_below_carries(p0, hi, wider_hi);
            lemma_below_carries(p1, hi, wider_hi);
            lemma_below_carries(p2, hi, wider_hi);
        },
    }
}

} // verus!
