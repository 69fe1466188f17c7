//! The scene: objects and a camera, and the grid of cells that a picture of
//! it fills.

use vstd::prelude::*;
use termion::color::Rgb;
use crate::camera::lemma_index_in_grid;
use crate::camera::Camera;
use crate::hit::distance;
use crate::hit::nearest;
use crate::hit::nearest_of;
use crate::object::Object;
use crate::object::Sighting;
use crate::scalar::Scalar;
use crate::vector::Point3;

verus! {

/// What one cell of a picture shows.
#[derive(Clone, Copy, Debug)]
pub enum Cell {
    /// Nothing: the cell's ray meets no object.
    Empty,
    /// An object of colour `color`, met by the cell's ray at distance `dist`.
    Hit { color: Rgb, dist: Scalar },
}

/// A picture: rows of cells.
#[derive(Debug)]
pub struct RenderedScene {
    pub rows: Vec<Vec<Cell>>,
}

impl View for RenderedScene {
    type V = Seq<Seq<Cell>>;

    open spec fn view(&self) -> Seq<Seq<Cell>> {
        Seq::new(self.rows@.len(), |y: int| self.rows@[y]@)
    }
}

impl RenderedScene {
    /// Whether the picture has `size.1` rows of `size.0` cells each.
    pub open spec fn sized(self, size: (usize, usize)) -> bool {
        &&& self@.len() == size.1
        &&& forall|y: int| 0 <= y < self@.len() ==> (#[trigger] self@[y]).len() == size.0
    }

    /// The picture of `size.1` rows of `size.0` cells each that shows
    /// nothing anywhere.
    pub fn empty(size: (usize, usize)) -> (r: RenderedScene)
        ensures
            r.sized(size),
            forall|y: int, x: int|
                0 <= y < size.1 && 0 <= x < size.0 ==> #[trigger] r@[y][x] == Cell::Empty,
    {
        let mut rows: Vec<Vec<Cell>> = Vec::new();
        let mut y: usize = 0;
        while y < size.1
            invariant
                y <= size.1,
                rows@.len() == y,
                forall|j: int| 0 <= j < y ==> (#[trigger] rows@[j])@.len() == size.0,
                forall|j: int, x: int|
                    0 <= j < y && 0 <= x < size.0 ==> #[trigger] rows@[j]@[x] == Cell::Empty,
            decreases size.1 - y,
        {
            let mut row: Vec<Cell> = Vec::new();
            let mut x: usize = 0;
            while x < size.0
                invariant
                    x <= size.0,
                    row@.len() == x,
                    forall|i: int| 0 <= i < x ==> #[trigger] row@[i] == Cell::Empty,
                decreases size.0 - x,
            {
                row.push(Cell::Empty);
                x += 1;
            }
            rows.push(row);
            y += 1;
        }
        RenderedScene { rows }
    }

    /// Whether the picture has `size.1` rows of `size.0` cells each.
    pub fn is_sized(&self, size: (usize, usize)) -> (r: bool)
        ensures
            r == self.sized(size),
    {
        if self.rows.len() != size.1 {
            return false;
        }
        let mut y: usize = 0;
        while y < self.rows.len()
            invariant
                y <= self.rows.len(),
                self@.len() == size.1,
                forall|j: int| 0 <= j < y ==> (#[trigger] self@[j]).len() == size.0,
            decreases self.rows.len() - y,
        {
            if self.rows[y].len() != size.0 {
                assert(self@[y as int].len() != size.0);
                return false;
            }
            y += 1;
        }
        true
    }

    /// The cell in column `x` of row `y`; nothing where the picture has no
    /// such cell.
    pub fn get(&self, x: usize, y: usize) -> (r: Option<Cell>)
        ensures
            r == if y < self@.len() && x < self@[y as int].len() {
                Some(self@[y as int][x as int])
            } else {
                None
            },
    {
        if y < self.rows.len() && x < self.rows[y].len() {
            Some(self.rows[y][x])
        } else {
            None
        }
    }
}

/// Objects to look at and a camera to look with.
pub struct Scene {
    pub objects: Vec<Object>,
    pub camera: Camera,
}

impl Scene {
    /// Whether `sightings` holds one sighting for each object, in order.
    pub open spec fn sighted(self, sightings: Seq<Sighting>) -> bool {
        &&& sightings.len() == self.objects@.len()
        &&& forall|i: int|
            0 <= i < sightings.len() ==> (#[trigger] sightings[i]).fits(self.objects@[i])
    }

    /// For each object in order, the hit on it of the ray that the
    /// sightings are of.
    pub open spec fn hits(sightings: Seq<Sighting>) -> Seq<Option<(Point3, Scalar)>> {
        Seq::new(sightings.len(), |i: int| sightings[i].hit())
    }

    /// What the cell `cell` shows, where `sightings` are those of the ray
    /// through its centre: nothing where the screen has no such cell, and
    /// nothing where the ray hits no object; else the colour of the object
    /// whose hit is nearest, the first such object where several are
    /// equally near, and the distance of that hit.
    pub open spec fn seen(self, cell: (usize, usize), sightings: Seq<Sighting>) -> Cell {
        if !self.camera@.screen.contains(cell) {
            Cell::Empty
        } else {
            match nearest_of(Self::hits(sightings)) {
                None => Cell::Empty,
                Some(i) => Cell::Hit {
                    color: self.objects@[i].color,
                    dist: distance(Self::hits(sightings)[i]),
                },
            }
        }
    }

    /// Whether `traces` holds, for each cell of the camera's screen in the
    /// order in which the screen is drawn, one sighting for each object.
    pub open spec fn traced(self, traces: Seq<Vec<Sighting>>) -> bool {
        &&& traces.len() == self.camera@.screen.count()
        &&& forall|k: int| 0 <= k < traces.len() ==> self.sighted((#[trigger] traces[k])@)
    }

    /// Whether `sightings` holds one sighting for each object, in order.
    pub fn is_sighted(&self, sightings: &Vec<Sighting>) -> (r: bool)
        ensures
            r == self.sighted(sightings@),
    {
        if sightings.len() != self.objects.len() {
            return false;
        }
        let mut i: usize = 0;
        while i < sightings.len()
            invariant
                i <= sightings.len(),
                sightings.len() == self.objects.len(),
                forall|j: int| 0 <= j < i ==> (#[trigger] sightings@[j]).fits(self.objects@[j]),
            decreases sightings.len() - i,
        {
            if !sightings[i].is_of(&self.objects[i]) {
                return false;
            }
            i += 1;
        }
        true
    }

    /// Whether `traces` holds, for each cell of the camera's screen, one
    /// sighting for each object.
    pub fn is_traced(&self, traces: &Vec<Vec<Sighting>>) -> (r: bool)
        ensures
            r == self.traced(traces@),
    {
        if traces.len() != self.camera.screen().as_rel().count() {
            return false;
        }
        let mut k: usize = 0;
        while k < traces.len()
            invariant
                k <= traces.len(),
                traces.len() == self.camera@.screen.count(),
                forall|j: int| 0 <= j < k ==> self.sighted((#[trigger] traces@[j])@),
            decreases traces.len() - k,
        {
            if !self.is_sighted(&traces[k]) {
                return false;
            }
            k += 1;
        }
        true
    }

    /// The scene without objects, seen through `camera`.
    pub fn new(camera: Camera) -> (r: Scene)
        ensures
            r.objects@.len() == 0,
            r.camera == camera,
    {
        Scene { objects: Vec::new(), camera }
    }

    /// What the cell `cell` shows. Where the screen has such a cell,
    /// `sightings` holds for each object in order what the arithmetic
    /// yields for the object and the ray from the eye through the cell's
    /// centre.
    pub fn test_ray(&self, cell: (usize, usize), sightings: &Vec<Sighting>) -> (r: Cell)
        requires
            self.camera@.screen.contains(cell) ==> self.sighted(sightings@),
        ensures
            r == self.seen(cell, sightings@),
            self.objects@.len() == 0 ==> r == Cell::Empty,
    {
        let (width, height) = self.camera.get_screen_size();
        if cell.0 < width && cell.1 < height {
            let mut hits: Vec<Option<(Point3, Scalar)>> = Vec::new();
            let mut i: usize = 0;
            while i < self.objects.len()
                invariant
                    i <= self.objects.len(),
                    self.sighted(sightings@),
                    hits@.len() == i,
                    forall|j: int| 0 <= j < i ==> #[trigger] hits@[j] == sightings@[j].hit(),
                decreases self.objects.len() - i,
            {
                hits.push(self.objects[i].intersect(&sightings[i]));
                i += 1;
            }
            assert(hits@ =~= Self::hits(sightings@));
            match nearest(&hits) {
                None => Cell::Empty,
                Some(i) => match hits[i] {
                    Some(hit) => Cell::Hit { color: self.objects[i].color, dist: hit.1 },
                    None => Cell::Empty,
                },
            }
        } else {
            Cell::Empty
        }
    }

    /// Draws the scene into the picture `out`: every cell of the camera's
    /// screen, row by row and each row from its first column on, is set
    /// to what it shows. `traces` holds for each cell, in that order, the
    /// sightings of the ray through its centre. The picture has the size
    /// of the camera's screen.
    pub fn render(&self, out: &mut RenderedScene, traces: &Vec<Vec<Sighting>>)
        requires
            old(out).sized(self.camera@.screen.screen_size),
            self.traced(traces@),
        ensures
            final(out).sized(self.camera@.screen.screen_size),
            forall|y: int, x: int|
                0 <= y < self.camera@.screen.screen_size.1 && 0 <= x
                    < self.camera@.screen.screen_size.0 ==> #[trigger] final(out)@[y][x]
                    == self.seen(
                    (x as usize, y as usize),
                    traces@[y * self.camera@.screen.screen_size.0 + x]@,
                ),
    {
        let order = self.camera.screen().as_rel().cells();
        let ghost size = self.camera@.screen.screen_size;
        let ghost width = size.0 as int;
        let ghost height = size.1 as int;
        let mut k: usize = 0;
        while k < order.len()
            invariant
                k <= order.len(),
                size == self.camera@.screen.screen_size,
                width == size.0,
                height == size.1,
                order@.len() == width * height,
                self.traced(traces@),
                forall|j: int|
                    0 <= j < order@.len() ==> #[trigger] order@[j]
                        == self.camera@.screen.cell_in_order(j),
                out.sized(size),
                forall|j: int|
                    0 <= j < k ==> out@[j / width][j % width] == self.seen(
                        self.camera@.screen.cell_in_order(j),
                        (#[trigger] traces@[j])@,
                    ),
            decreases order.len() - k,
        {
            let (x, y) = order[k];
            proof {
                lemma_index_in_grid(k as int, width, height);
                assert(order@[k as int] == self.camera@.screen.cell_in_order(k as int));
                assert(out@[y as int].len() == width);
            }
            let cell = self.test_ray((x, y), &traces[k]);
            let ghost before = out@;
            out.rows[y][x] = cell;
            proof {
                assert(out@[y as int] == before[y as int].update(x as int, cell));
                assert forall|j: int| 0 <= j < out@.len() implies (#[trigger] out@[j]).len()
                    == width by {
                    if j != y {
                        assert(out@[j] == before[j]);
                    }
                }
                assert forall|j: int| 0 <= j < k + 1 implies out@[j / width][j % width]
                    == self.seen(self.camera@.screen.cell_in_order(j), (#[trigger] traces@[j])@) by {
                    lemma_index_in_grid(j, width, height);
                    if j < k {
                        assert(before[j / width][j % width] == self.seen(
                            self.camera@.screen.cell_in_order(j),
                            traces@[j]@,
                        ));
                    }
                }
            }
            k += 1;
        }
        proof {
            assert forall|y: int, x: int| 0 <= y < height && 0 <= x < width implies #[trigger] out@[y][x]
                == self.seen((x as usize, y as usize), traces@[y * width + x]@) by {
                let j = y * width + x;
                lemma_cell_has_index(x, y, width, height);
                assert(self.camera@.screen.cell_in_order(j) == (x as usize, y as usize));
                assert(out@[j / width][j % width] == self.seen(
                    self.camera@.screen.cell_in_order(j),
                    traces@[j]@,
                ));
            }
        }
    }

    /// A picture of the size of the camera's screen that shows nothing
    /// anywhere.
    pub fn empty_render(&self) -> (r: RenderedScene)
        ensures
            r.sized(self.camera@.screen.screen_size),
            forall|y: int, x: int|
                0 <= y < self.camera@.screen.screen_size.1 && 0 <= x
                    < self.camera@.screen.screen_size.0 ==> #[trigger] r@[y][x] == Cell::Empty,
    {
        RenderedScene::empty(self.camera.get_screen_size())
    }
}

/// The cell in column `x` and row `y` of a grid of `width` columns and
/// `height` rows is the one that comes at place `y * width + x` when the
/// grid is gone through row by row.
pub proof fn lemma_cell_has_index(x: int, y: int, width: int, height: int)
    requires
        0 <= x < width,
        0 <= y < height,
    ensures
        0 <= y * width + x < width * height,
        (y * width + x) / width == y,
        (y * width + x) % width == x,
{
    assert(0 <= y * width) by (nonlinear_arith)
        requires
            0 <= y,
            0 <= width,
    ;
    assert(y * width + x < width * height) by (nonlinear_arith)
        requires
            0 <= x < width,
            0 <= y < height,
    ;
    vstd::arithmetic::div_mod::lemma_fundamental_div_mod_converse(y * width + x, width, y, x);
}

/// A scene without objects shows nothing in any cell.
pub proof fn lemma_no_objects_nothing_seen(
    scene: Scene,
    cell: (usize, usize),
    sightings: Seq<Sighting>,
)
    requires
        scene.objects@.len() == 0,
        scene.sighted(sightings),
    ensures
        scene.seen(cell, sightings) == Cell::Empty,
{
}

} // verus!
