//! The choice of the nearest among several hits.
//!
//! A hit is the point at which a ray meets something and the distance of
//! that point from the ray's origin. Candidates are gone through in order,
//! and a later one replaces the one held only if it is strictly nearer: so
//! of several hits at the least distance the first wins.

use vstd::prelude::*;
use crate::scalar::Scalar;
use crate::vector::Point3;

verus! {

/// The distance that a hit reports.
pub open spec fn distance(hit: Option<(Point3, Scalar)>) -> Scalar {
    (hit->0).1
}

/// The nearest hit among the first `n` candidates, as found by going
/// through them in order: the first hit is kept until a later one is
/// strictly nearer. A distance that is no number is never strictly nearer
/// and nothing is strictly nearer than it.
pub open spec fn nearest_among(hits: Seq<Option<(Point3, Scalar)>>, n: nat) -> Option<int>
    decreases n,
{
    if n == 0 {
        None
    } else {
        let before = nearest_among(hits, (n - 1) as nat);
        match hits[n - 1] {
            None => before,
            Some(hit) => match before {
                None => Some(n - 1),
                Some(best) => if distance(hits[best]).greater(hit.1) {
                    Some(n - 1)
                } else {
                    before
                },
            },
        }
    }
}

/// The nearest hit among all candidates.
pub open spec fn nearest_of(hits: Seq<Option<(Point3, Scalar)>>) -> Option<int> {
    nearest_among(hits, hits.len())
}

/// Whether the distance of every hit is a number.
pub open spec fn distances_numeric(hits: Seq<Option<(Point3, Scalar)>>) -> bool {
    forall|j: int| 0 <= j < hits.len() && hits[j] is Some ==> !distance(#[trigger] hits[j]).nan()
}

/// Whether candidate `i` is a hit, no hit is nearer, and every hit before
/// it is strictly farther.
pub open spec fn first_nearest(hits: Seq<Option<(Point3, Scalar)>>, i: int) -> bool {
    &&& 0 <= i < hits.len()
    &&& hits[i] is Some
    &&& forall|j: int|
        0 <= j < hits.len() && hits[j] is Some ==> distance(hits[i]).at_most(distance(#[trigger] hits[j]))
    &&& forall|j: int|
        0 <= j < i && hits[j] is Some ==> distance(#[trigger] hits[j]).greater(distance(hits[i]))
}

/// The index of the nearest hit: the first among those of least distance.
/// Nothing where no candidate is a hit.
pub fn nearest(hits: &Vec<Option<(Point3, Scalar)>>) -> (r: Option<usize>)
    ensures
        match r {
            None => nearest_of(hits@) is None,
            Some(i) => nearest_of(hits@) == Some(i as int),
        },
        r is None <==> forall|j: int| 0 <= j < hits.len() ==> hits[j] is None,
        r matches Some(i) ==> i < hits.len() && hits[i as int] is Some,
        distances_numeric(hits@) ==> (r matches Some(i) ==> first_nearest(hits@, i as int)),
{
    let mut best: Option<usize> = None;
    let mut k: usize = 0;
    while k < hits.len()
        invariant
            k <= hits.len(),
            match best {
                None => nearest_among(hits@, k as nat) is None,
                Some(i) => nearest_among(hits@, k as nat) == Some(i as int),
            },
            best is None <==> forall|j: int| 0 <= j < k ==> hits[j] is None,
            best matches Some(i) ==> i < k && hits[i as int] is Some,
            distances_numeric(hits@) ==> (best matches Some(i) ==> first_nearest(
                hits@.take(k as int),
                i as int,
            )),
        decreases hits.len() - k,
    {
        let ghost before = hits@.take(k as int);
        let ghost after = hits@.take(k + 1);
        assert(forall|j: int| 0 <= j < k ==> before[j] == after[j]);
        match hits[k] {
            None => {},
            Some(hit) => {
                match best {
                    None => {
                        best = Some(k);
                    },
                    Some(i) => {
                        match hits[i] {
                            Some(held) => {
                                if held.1.gt(hit.1) {
                                    best = Some(k);
                                }
                            },
                            None => {},
                        }
                    },
                }
            },
        }
        k += 1;
    }
    assert(hits@.take(k as int) == hits@);
    best
}

/// The nearest hit is the first of least distance, and the only candidate
/// of which that holds, where every distance is a number. Where no
/// candidate is a hit there is none.
pub proof fn lemma_nearest_is_first_least(hits: Seq<Option<(Point3, Scalar)>>, i: int)
    requires
        distances_numeric(hits),
    ensures
        nearest_of(hits) == Some(i) <==> first_nearest(hits, i),
        nearest_of(hits) is None <==> forall|j: int| 0 <= j < hits.len() ==> hits[j] is None,
{
    lemma_nearest_among(hits, hits.len());
    assert(hits.take(hits.len() as int) == hits);
    if first_nearest(hits, i) {
        let found = nearest_of(hits);
        assert(found is Some);
        let k = found->0;
        assert(first_nearest(hits, k));
        if k < i {
            assert(distance(hits[k]).greater(distance(hits[i])));
            assert(distance(hits[i]).at_most(distance(hits[k])));
        } else if i < k {
            assert(distance(hits[i]).greater(distance(hits[k])));
            assert(distance(hits[k]).at_most(distance(hits[i])));
        }
    }
}

/// What going through the first `n` candidates finds, where every distance
/// is a number.
proof fn lemma_nearest_among(hits: Seq<Option<(Point3, Scalar)>>, n: nat)
    requires
        distances_numeric(hits),
        n <= hits.len(),
    ensures
        nearest_among(hits, n) is None <==> forall|j: int| 0 <= j < n ==> hits[j] is None,
        nearest_among(hits, n) matches Some(i) ==> first_nearest(hits.take(n as int), i),
    decreases n,
{
    if n > 0 {
        lemma_nearest_among(hits, (n - 1) as nat);
        let before = hits.take(n - 1);
        let after = hits.take(n as int);
        assert(forall|j: int| 0 <= j < n - 1 ==> before[j] == after[j]);
        assert(after[n - 1] == hits[n - 1]);
    }
}

} // verus!
