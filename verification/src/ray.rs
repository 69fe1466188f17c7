//! Rays, and the slab test of a ray against an axis-aligned box.

use vstd::prelude::*;
use crate::scalar::Scalar;
use crate::scalar::ZERO_BITS;
use crate::vector::Point3;
use crate::vector::Vec3;

verus! {

/// What a ray holds.
pub struct RayModel {
    /// Where the ray starts.
    pub origin: Point3,
    /// Where it heads; of any length.
    pub vec: Vec3,
    /// The reciprocal of each coordinate of the direction.
    pub inv_vec: (Scalar, Scalar, Scalar),
    /// Per axis, one where the reciprocal is below zero and zero elsewhere.
    pub inv_vec_sign: (u8, u8, u8),
}

/// A ray with what the slab test needs of it worked out once. The sign bits
/// always agree with the reciprocals.
#[derive(Clone, Copy, Debug)]
pub struct Ray3 {
    origin: Point3,
    vec: Vec3,
    inv_vec: (Scalar, Scalar, Scalar),
    inv_vec_sign: (u8, u8, u8),
}

/// One where `s` is below zero, zero elsewhere: also for both zeros and for
/// a pattern that is no number.
pub open spec fn sign_bit_of(s: Scalar) -> u8 {
    if s.less(Scalar { bits: ZERO_BITS }) {
        1
    } else {
        0
    }
}

/// The coordinate of `bounds[side]` along `axis`.
pub open spec fn plane_of(bounds: [Point3; 2], side: int, axis: int) -> Scalar {
    bounds[side].component(axis)
}

/// Whether the three slabs share a parameter: the entry parameters `near`
/// and exit parameters `far`, one per axis, pass the two early rejections
/// and the least exit is at least the greatest entry.
pub open spec fn slabs_overlap(
    near: (Scalar, Scalar, Scalar),
    far: (Scalar, Scalar, Scalar),
) -> bool {
    &&& !(near.0.greater(far.1) || near.1.greater(far.0))
    &&& !(near.0.greater(far.2) || near.2.greater(far.0))
    &&& far.0.lesser_of(far.1).lesser_of(far.2).at_least(
        near.0.greater_of(near.1).greater_of(near.2),
    )
}

/// Whether all six parameters are numbers.
pub open spec fn slabs_numeric(
    near: (Scalar, Scalar, Scalar),
    far: (Scalar, Scalar, Scalar),
) -> bool {
    &&& !near.0.nan() && !near.1.nan() && !near.2.nan()
    &&& !far.0.nan() && !far.1.nan() && !far.2.nan()
}

impl View for Ray3 {
    type V = RayModel;

    closed spec fn view(&self) -> RayModel {
        RayModel {
            origin: self.origin,
            vec: self.vec,
            inv_vec: self.inv_vec,
            inv_vec_sign: self.inv_vec_sign,
        }
    }
}

impl RayModel {
    /// Whether the sign bits agree with the reciprocals.
    pub open spec fn consistent(self) -> bool {
        &&& self.inv_vec_sign.0 == sign_bit_of(self.inv_vec.0)
        &&& self.inv_vec_sign.1 == sign_bit_of(self.inv_vec.1)
        &&& self.inv_vec_sign.2 == sign_bit_of(self.inv_vec.2)
    }

    /// Per axis, the plane of the box that the ray enters through.
    pub open spec fn near_planes(self, bounds: [Point3; 2]) -> (Scalar, Scalar, Scalar) {
        (
            plane_of(bounds, self.inv_vec_sign.0 as int, 0),
            plane_of(bounds, self.inv_vec_sign.1 as int, 1),
            plane_of(bounds, self.inv_vec_sign.2 as int, 2),
        )
    }

    /// Per axis, the plane of the box that the ray leaves through.
    pub open spec fn far_planes(self, bounds: [Point3; 2]) -> (Scalar, Scalar, Scalar) {
        (
            plane_of(bounds, 1 - self.inv_vec_sign.0, 0),
            plane_of(bounds, 1 - self.inv_vec_sign.1, 1),
            plane_of(bounds, 1 - self.inv_vec_sign.2, 2),
        )
    }
}

impl Ray3 {
    #[verifier::type_invariant]
    spec fn consistent(self) -> bool {
        self@.consistent()
    }

    /// The ray from `origin` along `vec`, where `inv_vec` holds the
    /// reciprocal of each coordinate of `vec`. A coordinate of zero has an
    /// infinite reciprocal, which is in order.
    pub fn new(origin: Point3, vec: Vec3, inv_vec: (Scalar, Scalar, Scalar)) -> (r: Ray3)
        ensures
            r@.origin == origin,
            r@.vec == vec,
            r@.inv_vec == inv_vec,
            r@.consistent(),
    {
        let zero = Scalar::zero();
        let sx: u8 = if inv_vec.0.lt(zero) { 1 } else { 0 };
        let sy: u8 = if inv_vec.1.lt(zero) { 1 } else { 0 };
        let sz: u8 = if inv_vec.2.lt(zero) { 1 } else { 0 };
        Ray3 { origin, vec, inv_vec, inv_vec_sign: (sx, sy, sz) }
    }

    /// Where the ray starts.
    pub fn origin(&self) -> (r: Point3)
        ensures
            r == self@.origin,
    {
        self.origin
    }

    /// Where the ray heads.
    pub fn vec(&self) -> (r: Vec3)
        ensures
            r == self@.vec,
    {
        self.vec
    }

    /// The reciprocals of the direction's coordinates.
    pub fn inv_vec(&self) -> (r: (Scalar, Scalar, Scalar))
        ensures
            r == self@.inv_vec,
    {
        self.inv_vec
    }

    /// The sign bits of the reciprocals.
    pub fn inv_vec_sign(&self) -> (r: (u8, u8, u8))
        ensures
            r == self@.inv_vec_sign,
            self@.consistent(),
    {
        proof {
            use_type_invariant(self);
        }
        self.inv_vec_sign
    }

    /// What `f` makes of each axis, given the axis' index and, along that
    /// axis, the origin, the direction, its reciprocal and its sign bit.
    pub fn map<R, F: Fn(u8, Scalar, Scalar, Scalar, u8) -> R>(&self, f: F) -> (r: (R, R, R))
        requires
            f.requires(
                (0u8, self@.origin.x, self@.vec.x, self@.inv_vec.0, self@.inv_vec_sign.0),
            ),
            f.requires(
                (1u8, self@.origin.y, self@.vec.y, self@.inv_vec.1, self@.inv_vec_sign.1),
            ),
            f.requires(
                (2u8, self@.origin.z, self@.vec.z, self@.inv_vec.2, self@.inv_vec_sign.2),
            ),
        ensures
            f.ensures(
                (0u8, self@.origin.x, self@.vec.x, self@.inv_vec.0, self@.inv_vec_sign.0),
                r.0,
            ),
            f.ensures(
                (1u8, self@.origin.y, self@.vec.y, self@.inv_vec.1, self@.inv_vec_sign.1),
                r.1,
            ),
            f.ensures(
                (2u8, self@.origin.z, self@.vec.z, self@.inv_vec.2, self@.inv_vec_sign.2),
                r.2,
            ),
    {
        (
            f(0, self.origin.x, self.vec.x, self.inv_vec.0, self.inv_vec_sign.0),
            f(1, self.origin.y, self.vec.y, self.inv_vec.1, self.inv_vec_sign.1),
            f(2, self.origin.z, self.vec.z, self.inv_vec.2, self.inv_vec_sign.2),
        )
    }

    /// Per axis, the plane of the box `bounds` (minimum corner, then maximum
    /// corner) through which the ray enters, and the plane through which it
    /// leaves: along an axis on which the ray runs backwards the two swap.
    pub fn slab_planes(&self, bounds: &[Point3; 2]) -> (r: (
        (Scalar, Scalar, Scalar),
        (Scalar, Scalar, Scalar),
    ))
        ensures
            r.0 == self@.near_planes(*bounds),
            r.1 == self@.far_planes(*bounds),
    {
        proof {
            use_type_invariant(self);
        }
        let lo: usize = 0;
        let hi: usize = 1;
        let (sx, sy, sz) = self.inv_vec_sign;
        let near = (
            if sx == 1 { bounds[hi].x } else { bounds[lo].x },
            if sy == 1 { bounds[hi].y } else { bounds[lo].y },
            if sz == 1 { bounds[hi].z } else { bounds[lo].z },
        );
        let far = (
            if sx == 1 { bounds[lo].x } else { bounds[hi].x },
            if sy == 1 { bounds[lo].y } else { bounds[hi].y },
            if sz == 1 { bounds[lo].z } else { bounds[hi].z },
        );
        (near, far)
    }

    /// Whether a ray meets a box, given per axis the ray parameter `tmin` at
    /// which it passes the entry plane and the parameter `tmax` at which it
    /// passes the exit plane.
    pub fn collides_box(tmin: (Scalar, Scalar, Scalar), tmax: (Scalar, Scalar, Scalar)) -> (r:
        bool)
        ensures
            r == slabs_overlap(tmin, tmax),
    {
        if tmin.0.gt(tmax.1) || tmin.1.gt(tmax.0) {
            return false;
        }
        if tmin.0.gt(tmax.2) || tmin.2.gt(tmax.0) {
            return false;
        }
        let entry = tmin.0.max(tmin.1).max(tmin.2);
        let exit = tmax.0.min(tmax.1).min(tmax.2);
        exit.ge(entry)
    }
}

/// Where all six parameters are numbers, the slabs overlap exactly when no
/// entry parameter exceeds any exit parameter: the two early rejections
/// change nothing.
pub proof fn lemma_slabs_overlap_among_numbers(
    near: (Scalar, Scalar, Scalar),
    far: (Scalar, Scalar, Scalar),
)
    requires
        slabs_numeric(near, far),
    ensures
        slabs_overlap(near, far) <==> {
            &&& near.0.at_most(far.0) && near.0.at_most(far.1) && near.0.at_most(far.2)
            &&& near.1.at_most(far.0) && near.1.at_most(far.1) && near.1.at_most(far.2)
            &&& near.2.at_most(far.0) && near.2.at_most(far.1) && near.2.at_most(far.2)
        },
{
}

} // verus!
