//! Affine transforms as four-by-four matrices.
//!
//! Multiplying two matrices is arithmetic and left to the caller. Where
//! transforms are to be combined the library says in which order
//! ([`Composition`], [`Pivot`]).

use vstd::prelude::*;
use crate::scalar::Scalar;
use crate::scalar::ONE_BITS;
use crate::scalar::ZERO_BITS;
use crate::vector::Point3;
use crate::vector::Vec3;

verus! {

/// A four-by-four matrix, row by row. Applied to a point or a direction it
/// multiplies the homogeneous column vector from the left.
#[derive(Clone, Copy, Debug)]
pub struct Transform {
    pub m: [[Scalar; 4]; 4],
}

/// The product `outer` times `inner`, still to be worked out: the transform
/// that applies `inner` first and `outer` to its result.
#[derive(Clone, Copy, Debug)]
pub struct Composition {
    pub outer: Transform,
    pub inner: Transform,
}

/// A rotation about a centre other than the origin, as the three
/// transforms that make it up in the order in which they take effect:
/// `to_origin` moves the centre to the origin, `rotation` turns about the
/// origin, `back` moves the origin to the centre again. The rotation about
/// the centre is the product `back` times `rotation` times `to_origin`.
#[derive(Clone, Copy, Debug)]
pub struct Pivot {
    pub to_origin: Transform,
    pub rotation: Transform,
    pub back: Transform,
}

impl Transform {
    /// The entry in row `i`, column `j`.
    pub open spec fn entry(self, i: int, j: int) -> Scalar {
        self.m[i][j]
    }

    /// Whether the bottom row is zero, zero, zero, one: the matrix maps
    /// points to points and directions to directions.
    pub open spec fn affine(self) -> bool {
        &&& self.entry(3, 0).bits == ZERO_BITS
        &&& self.entry(3, 1).bits == ZERO_BITS
        &&& self.entry(3, 2).bits == ZERO_BITS
        &&& self.entry(3, 3).bits == ONE_BITS
    }

    /// Whether the upper left three-by-three block is the identity.
    pub open spec fn unrotated(self) -> bool {
        forall|i: int, j: int|
            0 <= i < 3 && 0 <= j < 3 ==> (#[trigger] self.entry(i, j)).bits == if i == j {
                ONE_BITS
            } else {
                ZERO_BITS
            }
    }

    /// The first three entries of the last column: where the origin goes.
    pub open spec fn offset(self) -> Vec3 {
        Vec3 { x: self.entry(0, 3), y: self.entry(1, 3), z: self.entry(2, 3) }
    }

    /// Whether the last column holds no offset.
    pub open spec fn unmoved(self) -> bool {
        &&& self.offset().x.bits == ZERO_BITS
        &&& self.offset().y.bits == ZERO_BITS
        &&& self.offset().z.bits == ZERO_BITS
    }

    /// Whether the matrix is the identity.
    pub open spec fn identity(self) -> bool {
        &&& self.affine()
        &&& self.unrotated()
        &&& self.unmoved()
    }

    /// The transform that leaves everything where it is.
    pub fn id() -> (r: Transform)
        ensures
            r.identity(),
    {
        let o = Scalar::zero();
        let l = Scalar::one();
        Transform { m: [[l, o, o, o], [o, l, o, o], [o, o, l, o], [o, o, o, l]] }
    }

    /// The transform that moves every point by `ofs` and leaves directions
    /// as they are.
    pub fn translate(ofs: Vec3) -> (r: Transform)
        ensures
            r.affine(),
            r.unrotated(),
            r.offset() == ofs,
    {
        let o = Scalar::zero();
        let l = Scalar::one();
        Transform { m: [[l, o, o, ofs.x], [o, l, o, ofs.y], [o, o, l, ofs.z], [o, o, o, l]] }
    }

    /// The transform that maps the origin to itself and acts on everything
    /// else as the three-by-three matrix `block` does: the way in which a
    /// rotation about an axis through the origin is held.
    pub fn rotate(block: [[Scalar; 3]; 3]) -> (r: Transform)
        ensures
            r.affine(),
            r.unmoved(),
            forall|i: int, j: int| 0 <= i < 3 && 0 <= j < 3 ==> #[trigger] r.entry(i, j) == block[i][j],
    {
        let o = Scalar::zero();
        let l = Scalar::one();
        Transform {
            m: [
                [block[0][0], block[0][1], block[0][2], o],
                [block[1][0], block[1][1], block[1][2], o],
                [block[2][0], block[2][1], block[2][2], o],
                [o, o, o, l],
            ],
        }
    }

    /// The rotation about `center` that turns as `rotation` turns about
    /// the origin: first the translation by minus `center`, then
    /// `rotation`, then the translation by `center`.
    pub fn pivot(rotation: Transform, center: Point3) -> (r: Pivot)
        ensures
            r.rotation == rotation,
            r.to_origin.affine(),
            r.to_origin.unrotated(),
            r.to_origin.offset() == (Vec3 { x: center.x, y: center.y, z: center.z }).negated(),
            r.back.affine(),
            r.back.unrotated(),
            r.back.offset() == (Vec3 { x: center.x, y: center.y, z: center.z }),
    {
        let center = Vec3::new(center.x, center.y, center.z);
        Pivot {
            to_origin: Transform::translate(center.neg()),
            rotation,
            back: Transform::translate(center),
        }
    }

    /// What applying `t` to this transform asks for: `t` after it.
    pub fn apply(&self, t: &Transform) -> (r: Composition)
        ensures
            r.outer == *t,
            r.inner == *self,
    {
        Composition { outer: *t, inner: *self }
    }

    /// The entry in row `i`, column `j`.
    pub fn get(&self, i: usize, j: usize) -> (r: Scalar)
        requires
            i < 4,
            j < 4,
        ensures
            r == self.entry(i as int, j as int),
    {
        self.m[i][j]
    }
}

} // verus!
