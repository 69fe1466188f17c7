//! Objects: groups of polygons with a bounding box and a colour.

use vstd::prelude::*;
use termion::color::Rgb;
use crate::hit::nearest;
use crate::hit::nearest_of;
use crate::polygon::lemma_extent_encloses;
use crate::polygon::lemma_within_wider;
use crate::polygon::Polygon;
use crate::polygon::Probe;
use crate::ray::slabs_overlap;
use crate::ray::Ray3;
use crate::scalar::Scalar;
use crate::scalar::ZERO_BITS;
use crate::vector::lemma_bounds_enclose;
use crate::vector::Point3;

verus! {

/// The bounding box of the first `n` polygons, `n` at least one: the first
/// polygon's box widened by each later polygon's in turn.
pub open spec fn extent_among(polygons: Seq<Polygon>, n: nat) -> (Point3, Point3)
    decreases n,
{
    if n <= 1 {
        polygons[0].extent()
    } else {
        let before = extent_among(polygons, (n - 1) as nat);
        let next = polygons[n - 1].extent();
        (before.0.lower(next.0), before.1.upper(next.1))
    }
}

/// The bounding box of all the polygons; of none, the box of no size at the
/// origin.
pub open spec fn extent_of(polygons: Seq<Polygon>) -> (Point3, Point3) {
    if polygons.len() == 0 {
        let origin = Point3 {
            x: Scalar { bits: ZERO_BITS },
            y: Scalar { bits: ZERO_BITS },
            z: Scalar { bits: ZERO_BITS },
        };
        (origin, origin)
    } else {
        extent_among(polygons, polygons.len())
    }
}

/// Whether every corner of every polygon has numbers for coordinates.
pub open spec fn polygons_numeric(polygons: Seq<Polygon>) -> bool {
    forall|j: int| 0 <= j < polygons.len() ==> (#[trigger] polygons[j]).numeric()
}

/// A group of polygons of one colour, with the box that bounds them.
pub struct Object {
    /// The bounding box: minimum corner, then maximum corner.
    pub bounds: [Point3; 2],
    pub polygons: Vec<Polygon>,
    pub color: Rgb,
}

/// What the arithmetic yields for one ray and one object: per axis the ray
/// parameters `tmin` and `tmax` at which the ray passes the entry and the
/// exit plane of the object's bounding box and, where these show that the
/// ray meets the box, for each polygon in order the outcome of the
/// triangle method. Where the ray misses the box `probes` may hold
/// anything, also nothing.
#[derive(Debug)]
pub struct Sighting {
    pub tmin: (Scalar, Scalar, Scalar),
    pub tmax: (Scalar, Scalar, Scalar),
    pub probes: Vec<Probe>,
}

impl Sighting {
    /// Whether the ray meets the bounding box.
    pub open spec fn in_box(self) -> bool {
        slabs_overlap(self.tmin, self.tmax)
    }

    /// For each polygon in order, the hit of the ray on it.
    pub open spec fn hits(self) -> Seq<Option<(Point3, Scalar)>> {
        Seq::new(self.probes@.len(), |i: int| self.probes@[i].hit())
    }

    /// The hit of the ray on the object: none where the ray misses the
    /// bounding box, else the nearest of its hits on the polygons.
    pub open spec fn hit(self) -> Option<(Point3, Scalar)> {
        if !self.in_box() {
            None
        } else {
            match nearest_of(self.hits()) {
                None => None,
                Some(i) => self.hits()[i],
            }
        }
    }

    /// Whether the sighting is one of `object`: where the ray meets the
    /// box, there is one probe for each polygon.
    pub open spec fn fits(self, object: Object) -> bool {
        self.in_box() ==> self.probes@.len() == object.polygons@.len()
    }

    /// Whether the sighting is one of `object`.
    pub fn is_of(&self, object: &Object) -> (r: bool)
        ensures
            r == self.fits(*object),
    {
        !Ray3::collides_box(self.tmin, self.tmax) || self.probes.len() == object.polygons.len()
    }
}

impl Object {
    /// Whether the bounding box is that of the polygons.
    pub open spec fn bounds_current(self) -> bool {
        &&& self.bounds[0] == extent_of(self.polygons@).0
        &&& self.bounds[1] == extent_of(self.polygons@).1
    }

    /// The object of the given colour and polygons, with its bounding box.
    pub fn new(color: Rgb, polygons: Vec<Polygon>) -> (r: Object)
        ensures
            r.color == color,
            r.polygons == polygons,
            r.bounds_current(),
    {
        let zero = Scalar::zero();
        let origin = Point3::new(zero, zero, zero);
        let mut r = Object { bounds: [origin, origin], polygons, color };
        r.recalc_bounds();
        r
    }

    /// Works the bounding box out anew from all the polygons.
    pub fn recalc_bounds(&mut self)
        ensures
            final(self).polygons == old(self).polygons,
            final(self).color == old(self).color,
            final(self).bounds_current(),
    {
        let n = self.polygons.len();
        if n > 0 {
            let mut acc = self.polygons[0].bounds();
            let mut i: usize = 1;
            while i < n
                invariant
                    1 <= i <= n,
                    n == self.polygons.len(),
                    self.polygons == old(self).polygons,
                    self.color == old(self).color,
                    acc[0] == extent_among(self.polygons@, i as nat).0,
                    acc[1] == extent_among(self.polygons@, i as nat).1,
                decreases n - i,
            {
                let b = self.polygons[i].bounds();
                acc = [acc[0].lower_bound(b[0]), acc[1].upper_bound(b[1])];
                i += 1;
            }
            self.bounds = acc;
        } else {
            let zero = Scalar::zero();
            let origin = Point3::new(zero, zero, zero);
            self.bounds = [origin, origin];
        }
    }

    /// Puts `moved` in the place of the polygons, as after a transform of
    /// every corner that the caller has worked out, and works the bounding
    /// box out anew from all of them.
    pub fn apply(&mut self, moved: Vec<Polygon>)
        ensures
            final(self).polygons == moved,
            final(self).color == old(self).color,
            final(self).bounds_current(),
    {
        self.polygons = moved;
        self.recalc_bounds();
    }

    /// The nearest hit of a ray on the object, from what the arithmetic
    /// yields for the two: the ray is first tested against the bounding
    /// box; if it meets the box it is tested against every polygon, and
    /// the hit of least distance is kept, the first of several such.
    pub fn intersect(&self, sighting: &Sighting) -> (r: Option<(Point3, Scalar)>)
        requires
            sighting.fits(*self),
        ensures
            r == sighting.hit(),
    {
        if Ray3::collides_box(sighting.tmin, sighting.tmax) {
            let mut hits: Vec<Option<(Point3, Scalar)>> = Vec::new();
            let mut i: usize = 0;
            while i < self.polygons.len()
                invariant
                    i <= self.polygons.len(),
                    sighting.probes.len() == self.polygons.len(),
                    hits@.len() == i,
                    forall|j: int| 0 <= j < i ==> #[trigger] hits@[j] == sighting.probes@[j].hit(),
                decreases self.polygons.len() - i,
            {
                hits.push(self.polygons[i].intersect(&sighting.probes[i]));
                i += 1;
            }
            assert(hits@ =~= sighting.hits());
            match nearest(&hits) {
                None => None,
                Some(i) => hits[i],
            }
        } else {
            None
        }
    }
}

/// Where every corner has numbers for coordinates, each of the first `n`
/// polygons lies within the bounding box of the first `n`.
proof fn lemma_extent_among_encloses(polygons: Seq<Polygon>, n: nat, j: int)
    requires
        polygons_numeric(polygons),
        1 <= n <= polygons.len(),
        0 <= j < n,
    ensures
        polygons[j].within(extent_among(polygons, n).0, extent_among(polygons, n).1),
        extent_among(polygons, n).0.numeric(),
        extent_among(polygons, n).1.numeric(),
    decreases n,
{
    lemma_extent_encloses(polygons[n - 1]);
    if n > 1 {
        let before = extent_among(polygons, (n - 1) as nat);
        let next = polygons[n - 1].extent();
        let all = extent_among(polygons, n);
        lemma_extent_among_encloses(polygons, (n - 1) as nat, if j < n - 1 { j } else { 0 });
        assert(all.0 == before.0.lower(next.0) && all.1 == before.1.upper(next.1));
        lemma_bounds_enclose(before.0, next.0);
        lemma_bounds_enclose(before.1, next.1);
        if j < n - 1 {
            lemma_within_wider(polygons[j], before.0, before.1, all.0, all.1);
        } else {
            lemma_within_wider(polygons[j], next.0, next.1, all.0, all.1);
        }
    }
}

/// An object whose bounding box is current and whose corners all have
/// numbers for coordinates holds every polygon within its bounding box.
pub proof fn lemma_bounds_enclose_polygons(object: Object, j: int)
    requires
        object.bounds_current(),
        polygons_numeric(object.polygons@),
        0 <= j < object.polygons.len(),
    ensures
        object.polygons[j].within(object.bounds[0], object.bounds[1]),
{
    lemma_extent_among_encloses(object.polygons@, object.polygons@.len(), j);
}

} // verus!
