//! The grid of cell centres of a screen, held in a two-dimensional array.

use vstd::prelude::*;
use crate::scalar::Scalar;
use crate::scalar::ZERO_BITS;
use crate::vector::Point3;

verus! {

/// The centres of the cells of a screen in an `ndarray::Array2`: one row of
/// the array for each row of cells.
#[verifier::external_body]
#[derive(Debug)]
pub struct Centers {
    grid: ndarray::Array2<Point3>,
}

/// What a grid of centres holds, row by row. Every row is as long as the
/// first.
pub uninterp spec fn centers_rows(centers: Centers) -> Seq<Seq<Point3>>;

/// The centre of the cell in column `x` and row `y` of a screen whose
/// columns lie at `columns` and whose rows lie at `rows`: in the plane of
/// height zero.
pub open spec fn center_of(columns: Seq<Scalar>, rows: Seq<Scalar>, x: int, y: int) -> Point3 {
    Point3 { x: columns[x], y: rows[y], z: Scalar { bits: ZERO_BITS } }
}

/// The number of points in every row of a grid of `rows`.
pub open spec fn width_of(rows: Seq<Seq<Point3>>) -> nat {
    if rows.len() == 0 {
        0
    } else {
        rows[0].len()
    }
}

/// Whether a grid of `height` rows and `width` columns can be allocated:
/// its points, twenty-four bytes each, fit the address space, and so does
/// either side alone.
pub open spec fn grid_fits(width: nat, height: nat) -> bool {
    let w = if width == 0 { 1 } else { width };
    let h = if height == 0 { 1 } else { height };
    w * h * 24 <= isize::MAX
}

/// Whether a grid of `height` rows and `width` columns can be allocated.
pub fn grid_size_fits(width: usize, height: usize) -> (r: bool)
    ensures
        r == grid_fits(width as nat, height as nat),
{
    let w: usize = if width == 0 { 1 } else { width };
    let h: usize = if height == 0 { 1 } else { height };
    let points: usize = (isize::MAX as usize) / 24;
    proof {
        lemma_product_within(w as int, h as int, points as int);
        assert(w * h * 24 <= isize::MAX <==> w * h <= points) by {
            vstd::arithmetic::div_mod::lemma_fundamental_div_mod(isize::MAX as int, 24);
            assert(w * h * 24 == 24 * (w * h)) by (nonlinear_arith);
        }
    }
    h <= points / w
}

/// A product of two positive numbers stays within a limit exactly when one
/// factor stays within the limit divided by the other.
pub proof fn lemma_product_within(w: int, h: int, limit: int)
    requires
        0 < w,
        0 < h,
        0 <= limit,
    ensures
        w * h <= limit <==> h <= limit / w,
{
    vstd::arithmetic::div_mod::lemma_fundamental_div_mod(limit, w);
    vstd::arithmetic::div_mod::lemma_mod_bound(limit, w);
    let q = limit / w;
    let r = limit % w;
    if h <= q {
        assert(w * h <= w * q) by (nonlinear_arith)
            requires
                0 < w,
                h <= q,
        ;
    } else {
        assert(w * h >= w * (q + 1)) by (nonlinear_arith)
            requires
                0 < w,
                h >= q + 1,
        ;
        assert(w * (q + 1) == w * q + w) by (nonlinear_arith);
    }
}

/// The centre of the cell in column `x` and row `y`.
pub fn center_at(columns: &Vec<Scalar>, rows: &Vec<Scalar>, x: usize, y: usize) -> (r: Point3)
    requires
        x < columns.len(),
        y < rows.len(),
    ensures
        r == center_of(columns@, rows@, x as int, y as int),
{
    Point3::new(columns[x], rows[y], Scalar::zero())
}

/// `ndarray::Array2::from_shape_fn` on the shape of `rows.len()` rows and
/// `columns.len()` columns: the array whose element at row `y`, column `x`
/// is what the closure gives for `(y, x)`, here the centre of that cell.
/// The function panics where the shape's size overflows; `grid_fits` rules
/// that out.
#[verifier::external_body]
pub(crate) fn centers_from_fn(columns: &Vec<Scalar>, rows: &Vec<Scalar>) -> (r: Centers)
    requires
        grid_fits(columns@.len(), rows@.len()),
    ensures
        centers_rows(r).len() == rows@.len(),
        forall|y: int| 0 <= y < rows@.len() ==> (#[trigger] centers_rows(r)[y]).len() == columns@.len(),
        forall|y: int, x: int|
            0 <= y < rows@.len() && 0 <= x < columns@.len() ==> #[trigger] centers_rows(r)[y][x]
                == center_of(columns@, rows@, x, y),
{
    Centers {
        grid: ndarray::Array2::from_shape_fn(
            (rows.len(), columns.len()),
            |(y, x)| center_at(columns, rows, x, y),
        ),
    }
}

/// `ndarray::ArrayBase::get` with the index `(y, x)`: the element at row
/// `y`, column `x`, or nothing where either lies outside the array.
#[verifier::external_body]
pub(crate) fn centers_get(centers: &Centers, y: usize, x: usize) -> (r: Option<&Point3>)
    ensures
        match r {
            Some(p) => y < centers_rows(*centers).len() && x < centers_rows(*centers)[y as int].len()
                && *p == centers_rows(*centers)[y as int][x as int],
            None => !(y < centers_rows(*centers).len() && x < centers_rows(
                *centers,
            )[y as int].len()),
        },
{
    centers.grid.get((y, x))
}

/// `ndarray::ArrayBase::indexed_iter`, of which only the indices are kept:
/// every index `(y, x)` of the array, in the array's logical order, in
/// which the column index runs fastest.
#[verifier::external_body]
pub(crate) fn centers_indices(centers: &Centers) -> (r: Vec<(usize, usize)>)
    ensures
        r@.len() == centers_rows(*centers).len() * width_of(centers_rows(*centers)),
        forall|k: int|
            0 <= k < r@.len() ==> (#[trigger] r@[k]).0 == k / (width_of(centers_rows(*centers)) as int)
                && r@[k].1 == k % (width_of(centers_rows(*centers)) as int),
{
    centers.grid.indexed_iter().map(|(index, _)| index).collect()
}

} // verus!
