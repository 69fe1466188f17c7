//! The screen, a grid of cells in a plane, and the camera that looks
//! through it.

use vstd::prelude::*;
use crate::frame::Frames;
use crate::frame::Relative;
use crate::frame::SharedCoordSys;
use crate::grid::center_of;
use crate::grid::centers_from_fn;
use crate::grid::centers_get;
use crate::grid::centers_indices;
use crate::grid::centers_rows;
use crate::grid::grid_fits;
use crate::grid::Centers;
use crate::scalar::Scalar;
use crate::scalar::ZERO_BITS;
use crate::transform::Composition;
use crate::transform::Transform;
use crate::vector::Point3;

verus! {

/// What a screen holds.
pub struct ScreenModel {
    /// Width and height of one cell.
    pub cell_size: (Scalar, Scalar),
    /// The number of columns, then the number of rows.
    pub screen_size: (usize, usize),
    /// The four corners of the screen, going round from the origin.
    pub corners: (Point3, Point3, Point3, Point3),
    /// The centre of every cell, row by row.
    pub centers: Seq<Seq<Point3>>,
}

impl ScreenModel {
    /// Whether the grid of centres has the screen's size, which is one
    /// that a grid can have.
    pub open spec fn well_formed(self) -> bool {
        &&& grid_fits(self.screen_size.0 as nat, self.screen_size.1 as nat)
        &&& self.centers.len() == self.screen_size.1
        &&& forall|y: int|
            0 <= y < self.centers.len() ==> (#[trigger] self.centers[y]).len()
                == self.screen_size.0
    }

    /// Whether the screen has a cell in column `cell.0` and row `cell.1`.
    pub open spec fn contains(self, cell: (usize, usize)) -> bool {
        cell.0 < self.screen_size.0 && cell.1 < self.screen_size.1
    }

    /// How many cells the screen has.
    pub open spec fn count(self) -> int {
        self.screen_size.0 * self.screen_size.1
    }

    /// The cell that comes `k`-th when the screen is gone through row by
    /// row: its column, then its row.
    pub open spec fn cell_in_order(self, k: int) -> (usize, usize) {
        ((k % (self.screen_size.0 as int)) as usize, (k / (self.screen_size.0 as int)) as usize)
    }
}

/// The corners of the screen that reaches from the origin to `extent` in
/// the plane of height zero.
pub open spec fn corners_of(extent: (Scalar, Scalar)) -> (Point3, Point3, Point3, Point3) {
    let zero = Scalar { bits: ZERO_BITS };
    (
        Point3 { x: zero, y: zero, z: zero },
        Point3 { x: extent.0, y: zero, z: zero },
        Point3 { x: extent.0, y: extent.1, z: zero },
        Point3 { x: zero, y: extent.1, z: zero },
    )
}

/// A grid of cells in the plane of height zero of its own coordinates.
#[derive(Debug)]
pub struct Screen {
    cell_size: (Scalar, Scalar),
    screen_size: (usize, usize),
    corners: (Point3, Point3, Point3, Point3),
    centers: Centers,
}

impl View for Screen {
    type V = ScreenModel;

    closed spec fn view(&self) -> ScreenModel {
        ScreenModel {
            cell_size: self.cell_size,
            screen_size: self.screen_size,
            corners: self.corners,
            centers: centers_rows(self.centers),
        }
    }
}

impl Screen {
    #[verifier::type_invariant]
    spec fn well_formed(self) -> bool {
        self@.well_formed()
    }

    /// The screen of cells of size `cell_size` that reaches from the origin
    /// to `extent`, with one column of cells for each entry of `columns`
    /// and one row for each entry of `rows`: the cell in column `x` and row
    /// `y` has its centre at `(columns[x], rows[y], 0)`.
    pub fn new(
        cell_size: (Scalar, Scalar),
        extent: (Scalar, Scalar),
        columns: &Vec<Scalar>,
        rows: &Vec<Scalar>,
    ) -> (r: Screen)
        requires
            grid_fits(columns@.len(), rows@.len()),
        ensures
            r@.well_formed(),
            r@.cell_size == cell_size,
            r@.screen_size == (columns.len(), rows.len()),
            r@.corners == corners_of(extent),
            forall|y: int, x: int|
                0 <= y < rows.len() && 0 <= x < columns.len() ==> #[trigger] r@.centers[y][x]
                    == center_of(columns@, rows@, x, y),
    {
        let zero = Scalar::zero();
        Screen {
            cell_size,
            screen_size: (columns.len(), rows.len()),
            corners: (
                Point3::new(zero, zero, zero),
                Point3::new(extent.0, zero, zero),
                Point3::new(extent.0, extent.1, zero),
                Point3::new(zero, extent.1, zero),
            ),
            centers: centers_from_fn(columns, rows),
        }
    }

    /// Width and height of one cell.
    pub fn cell_size(&self) -> (r: (Scalar, Scalar))
        ensures
            r == self@.cell_size,
    {
        self.cell_size
    }

    /// The number of columns, then the number of rows.
    pub fn screen_size(&self) -> (r: (usize, usize))
        ensures
            r == self@.screen_size,
            self@.well_formed(),
    {
        proof {
            use_type_invariant(self);
        }
        self.screen_size
    }

    /// How many cells the screen has.
    pub fn count(&self) -> (r: usize)
        ensures
            r == self@.count(),
    {
        proof {
            use_type_invariant(self);
            lemma_count_fits(self.screen_size.0 as int, self.screen_size.1 as int);
        }
        self.screen_size.0 * self.screen_size.1
    }

    /// The four corners of the screen.
    pub fn corners(&self) -> (r: (Point3, Point3, Point3, Point3))
        ensures
            r == self@.corners,
    {
        self.corners
    }

    /// Puts `corners` in the place of the four corners, as after a
    /// transform of each that the caller has worked out. The cell centres
    /// stay as they are.
    pub fn apply(&mut self, corners: (Point3, Point3, Point3, Point3))
        ensures
            final(self)@.corners == corners,
            final(self)@.cell_size == old(self)@.cell_size,
            final(self)@.screen_size == old(self)@.screen_size,
            final(self)@.centers == old(self)@.centers,
    {
        proof {
            use_type_invariant(&*self);
        }
        self.corners = corners;
    }

    /// The centre of the cell in column `cell.0` and row `cell.1`, in the
    /// screen's own coordinates; nothing where the screen has no such cell.
    pub fn get_center(&self, cell: (usize, usize)) -> (r: Option<&Point3>)
        ensures
            match r {
                Some(p) => self@.contains(cell) && *p == self@.centers[cell.1 as int][cell.0 as int],
                None => !self@.contains(cell),
            },
    {
        proof {
            use_type_invariant(self);
        }
        centers_get(&self.centers, cell.1, cell.0)
    }

    /// Every cell of the screen, column then row, in the order in which the
    /// screen is drawn: row by row, and each row from its first column on.
    pub fn cells(&self) -> (r: Vec<(usize, usize)>)
        ensures
            r@.len() == self@.count(),
            forall|k: int| 0 <= k < r@.len() ==> #[trigger] r@[k] == self@.cell_in_order(k),
            forall|k: int| 0 <= k < r@.len() ==> self@.contains(#[trigger] r@[k]),
    {
        proof {
            use_type_invariant(self);
        }
        let indices = centers_indices(&self.centers);
        let ghost width = self@.screen_size.0 as int;
        let ghost height = self@.screen_size.1 as int;
        proof {
            if height > 0 {
                assert(self@.centers[0].len() == width);
            }
            assert(height * width == width * height) by (nonlinear_arith);
            if height == 0 {
                assert(indices@.len() == 0);
            } else {
                assert(indices@.len() == height * width);
            }
        }
        let mut cells: Vec<(usize, usize)> = Vec::new();
        let mut k: usize = 0;
        while k < indices.len()
            invariant
                k <= indices.len(),
                self@.well_formed(),
                width == self@.screen_size.0,
                indices@.len() == self@.count(),
                forall|j: int|
                    0 <= j < indices@.len() ==> (#[trigger] indices@[j]).0 == j / width
                        && indices@[j].1 == j % width,
                cells@.len() == k,
                forall|j: int| 0 <= j < k ==> #[trigger] cells@[j] == self@.cell_in_order(j),
                forall|j: int| 0 <= j < k ==> self@.contains(#[trigger] cells@[j]),
            decreases indices.len() - k,
        {
            let (y, x) = indices[k];
            proof {
                lemma_index_in_grid(k as int, width, self@.screen_size.1 as int);
            }
            cells.push((x, y));
            k += 1;
        }
        cells
    }
}

/// A grid that can be allocated has no more cells than can be counted.
pub proof fn lemma_count_fits(width: int, height: int)
    requires
        0 <= width,
        0 <= height,
        grid_fits(width as nat, height as nat),
    ensures
        0 <= width * height <= isize::MAX,
{
    let w = if width == 0 { 1 } else { width };
    let h = if height == 0 { 1 } else { height };
    assert(0 <= width * height <= w * h * 24) by (nonlinear_arith)
        requires
            0 <= width <= w,
            0 <= height <= h,
            1 <= w,
            1 <= h,
    ;
}

/// The `k`-th index of a grid of `width` columns and `height` rows, gone
/// through row by row, lies in the grid.
pub proof fn lemma_index_in_grid(k: int, width: int, height: int)
    requires
        0 <= k < width * height,
        0 <= width,
        0 <= height,
    ensures
        0 <= k % width < width,
        0 <= k / width < height,
        k == (k / width) * width + k % width,
{
    assert(width > 0) by (nonlinear_arith)
        requires
            0 <= k < width * height,
            0 <= width,
            0 <= height,
    ;
    vstd::arithmetic::div_mod::lemma_fundamental_div_mod(k, width);
    vstd::arithmetic::div_mod::lemma_mod_bound(k, width);
    vstd::arithmetic::div_mod::lemma_div_pos_is_pos(k, width);
    assert(k / width < height) by (nonlinear_arith)
        requires
            0 <= k < width * height,
            0 < width,
            k == width * (k / width) + k % width,
            0 <= k % width < width,
    ;
    assert((k / width) * width == width * (k / width)) by (nonlinear_arith);
}

/// What a camera holds.
pub struct CameraModel {
    /// The frame that the eye and the screen are bound to.
    pub sys: SharedCoordSys,
    /// The eye, in the frame's coordinates.
    pub eye: Point3,
    /// The screen, in the frame's coordinates.
    pub screen: ScreenModel,
}

/// An eye and a screen bound to one shared frame: what is applied to the
/// frame moves both alike.
#[derive(Debug)]
pub struct Camera {
    coord_sys: SharedCoordSys,
    eye: Relative<Point3>,
    screen: Relative<Screen>,
}

impl View for Camera {
    type V = CameraModel;

    closed spec fn view(&self) -> CameraModel {
        CameraModel { sys: self.coord_sys, eye: self.eye.local, screen: self.screen.local@ }
    }
}

impl Camera {
    #[verifier::type_invariant]
    spec fn one_frame(self) -> bool {
        &&& self.eye.sys == self.coord_sys
        &&& self.screen.sys == self.coord_sys
    }

    /// The camera with the given screen and eye, both in the coordinates of
    /// a new frame in `frames` that coincides with the world.
    pub fn new(frames: &mut Frames, screen: Screen, eye_pos: Point3) -> (r: Camera)
        ensures
            r@.sys.slot == old(frames)@.len(),
            r@.eye == eye_pos,
            r@.screen == screen@,
            final(frames)@.len() == old(frames)@.len() + 1,
            forall|i: int| 0 <= i < old(frames)@.len() ==> final(frames)@[i] == old(frames)@[i],
            final(frames)@[r@.sys.slot as int].identity(),
    {
        let coord_sys = SharedCoordSys::new(frames);
        Camera {
            eye: Relative::new(&coord_sys, eye_pos),
            screen: Relative::new(&coord_sys, screen),
            coord_sys,
        }
    }

    /// The name of the camera's frame.
    pub fn coord_sys(&self) -> (r: SharedCoordSys)
        ensures
            r == self@.sys,
    {
        self.coord_sys
    }

    /// The eye, bound to the camera's frame.
    pub fn eye(&self) -> (r: &Relative<Point3>)
        ensures
            r.local == self@.eye,
            r.sys == self@.sys,
    {
        proof {
            use_type_invariant(self);
        }
        &self.eye
    }

    /// Puts the eye at `eye_pos` in the frame's coordinates. The frame and
    /// the screen stay as they are, so only the distance between eye and
    /// screen changes.
    pub fn set_eye(&mut self, eye_pos: Point3)
        ensures
            final(self)@.eye == eye_pos,
            final(self)@.sys == old(self)@.sys,
            final(self)@.screen == old(self)@.screen,
    {
        proof {
            use_type_invariant(&*self);
        }
        self.eye.local = eye_pos;
    }

    /// The screen, bound to the camera's frame.
    pub fn screen(&self) -> (r: &Relative<Screen>)
        ensures
            r.local@ == self@.screen,
            r.sys == self@.sys,
    {
        proof {
            use_type_invariant(self);
        }
        &self.screen
    }

    /// What applying `t` to the camera in the world's coordinates asks
    /// for: `t` after the frame's transform.
    pub fn apply(&self, frames: &Frames, t: &Transform) -> (r: Composition)
        requires
            frames.holds(self@.sys),
        ensures
            r.outer == *t,
            r.inner == frames@[self@.sys.slot as int],
    {
        self.coord_sys.apply(frames, t)
    }

    /// What applying `t` to the camera in its own coordinates asks for: the
    /// frame's transform after `t`.
    pub fn apply_rel(&self, frames: &Frames, t: Transform) -> (r: Composition)
        requires
            frames.holds(self@.sys),
        ensures
            r.outer == frames@[self@.sys.slot as int],
            r.inner == t,
    {
        self.coord_sys.apply_rel(frames, t)
    }

    /// The number of columns of the screen, then the number of rows.
    pub fn get_screen_size(&self) -> (r: (usize, usize))
        ensures
            r == self@.screen.screen_size,
            self@.screen.well_formed(),
    {
        self.screen.as_rel().screen_size()
    }

    /// The centre of the cell `coords` in the coordinates of the camera's
    /// frame; nothing where the screen has no such cell.
    pub fn get_center(&self, coords: (usize, usize)) -> (r: Option<&Point3>)
        ensures
            match r {
                Some(p) => self@.screen.contains(coords) && *p
                    == self@.screen.centers[coords.1 as int][coords.0 as int],
                None => !self@.screen.contains(coords),
            },
    {
        self.screen.as_rel().get_center(coords)
    }

    /// The cell in the middle of the screen: half the number of columns,
    /// half the number of rows, both rounded down.
    pub fn pivot_cell(&self) -> (r: (usize, usize))
        ensures
            r.0 == self@.screen.screen_size.0 / 2,
            r.1 == self@.screen.screen_size.1 / 2,
    {
        let (x, y) = self.get_screen_size();
        (x / 2, y / 2)
    }
}

} // verus!
