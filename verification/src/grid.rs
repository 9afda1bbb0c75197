//! The map grid: a fixed-size rectangular array of tiles, stored as one flat
//! buffer so that the bounds invariant lives in a single place, together with
//! the rectangle value the generator carves rooms from.

use vstd::prelude::*;

use crate::tile::Tile;

verus! {

/// A rectangular region `(x1, y1)`-`(x2, y2)` used while carving rooms.
/// Only its strict interior (`x1 < x < x2`, `y1 < y < y2`) is carved, so a
/// one-tile wall border survives around every room by construction.
#[derive(Clone, Copy, PartialEq, Eq, Structural, Debug)]
pub struct Rect {
    pub x1: i32,
    pub y1: i32,
    pub x2: i32,
    pub y2: i32,
}

impl Rect {
    /// True exactly on the cells the generator clears for this room.
    pub open spec fn interior_contains(self, x: int, y: int) -> bool {
        self.x1 < x < self.x2 && self.y1 < y < self.y2
    }

    pub fn new(x: i32, y: i32, w: i32, h: i32) -> (r: Rect)
        requires
            i32::MIN <= x + w <= i32::MAX,
            i32::MIN <= y + h <= i32::MAX,
        ensures
            r == (Rect { x1: x, y1: y, x2: (x + w) as i32, y2: (y + h) as i32 }),
    {
        Rect { x1: x, y1: y, x2: x + w, y2: y + h }
    }
}

/// `x * h + y` addresses a cell of a `w`-by-`h` grid stored row-major by
/// column; the index stays inside the flat buffer.
pub proof fn lemma_cell_index_bound(x: int, y: int, w: int, h: int)
    by (nonlinear_arith)
    requires
        0 <= x < w,
        0 <= y < h,
    ensures
        0 <= x * h + y < w * h,
{
}

/// Distinct in-bounds cells address distinct slots of the flat buffer.
pub proof fn lemma_cell_index_injective(x1: int, y1: int, x2: int, y2: int, h: int)
    by (nonlinear_arith)
    requires
        0 <= x1,
        0 <= x2,
        0 <= y1 < h,
        0 <= y2 < h,
        x1 * h + y1 == x2 * h + y2,
    ensures
        x1 == x2 && y1 == y2,
{
}

/// A well-formed grid's dimensions fit the `i32` coordinates the game uses,
/// and its cell count fits the flat buffer's address space.
pub proof fn lemma_wf_bounds(g: Grid)
    requires
        g.wf(),
    ensures
        g.spec_width() <= 0x7fff_ffff,
        g.spec_height() <= 0x7fff_ffff,
        g.spec_width() * g.spec_height() <= usize::MAX,
{
}

/// The full rectangular array of tiles describing the playable world.
/// Dimensions are fixed at construction; every cell inside
/// `[0, width) x [0, height)` holds a defined tile, and out-of-range access
/// is a contract violation, never silently clamped.
pub struct Grid {
    width: usize,
    height: usize,
    tiles: Vec<Tile>,
}

impl Grid {
    pub closed spec fn spec_width(self) -> int {
        self.width as int
    }

    pub closed spec fn spec_height(self) -> int {
        self.height as int
    }

    /// The flat buffer holds exactly one tile per cell, and both dimensions
    /// stay addressable by the `i32` coordinates the rest of the game uses.
    pub closed spec fn wf(self) -> bool {
        &&& self.tiles@.len() == self.spec_width() * self.spec_height()
        &&& self.spec_width() * self.spec_height() <= usize::MAX
        &&& self.spec_width() <= 0x7fff_ffff
        &&& self.spec_height() <= 0x7fff_ffff
    }

    /// The tile at cell `(x, y)`; meaningful for in-bounds coordinates of a
    /// well-formed grid.
    pub closed spec fn spec_tile(self, x: int, y: int) -> Tile {
        self.tiles@[x * self.spec_height() + y]
    }

    pub open spec fn in_bounds(self, x: int, y: int) -> bool {
        0 <= x < self.spec_width() && 0 <= y < self.spec_height()
    }

    /// Allocate a grid with every tile set to the wall value, the state the
    /// generator starts carving from.
    pub fn new(width: usize, height: usize) -> (g: Grid)
        requires
            width <= 0x7fff_ffff,
            height <= 0x7fff_ffff,
            width * height <= usize::MAX,
        ensures
            g.wf(),
            g.spec_width() == width,
            g.spec_height() == height,
            forall|x: int, y: int| g.in_bounds(x, y) ==> g.spec_tile(x, y) == Tile::wall_spec(),
    {
        let total = width * height;
        let mut tiles: Vec<Tile> = Vec::new();
        let mut i: usize = 0;
        while i < total
            invariant
                i <= total,
                total == width * height,
                tiles@.len() == i,
                forall|j: int| 0 <= j < i ==> tiles@[j] == Tile::wall_spec(),
            decreases total - i,
        {
            tiles.push(Tile::wall());
            i += 1;
        }
        let g = Grid { width, height, tiles };
        proof {
            assert forall|x: int, y: int| g.in_bounds(x, y) implies g.spec_tile(x, y)
                == Tile::wall_spec() by {
                lemma_cell_index_bound(x, y, width as int, height as int);
            }
        }
        g
    }

    pub fn width(&self) -> (w: usize)
        ensures
            w == self.spec_width(),
    {
        self.width
    }

    pub fn height(&self) -> (h: usize)
        ensures
            h == self.spec_height(),
    {
        self.height
    }

    /// Look a tile up by its cell coordinates. Out-of-range coordinates are a
    /// programming error and are excluded by contract.
    pub fn tile_at(&self, x: i32, y: i32) -> (t: Tile)
        requires
            self.wf(),
            self.in_bounds(x as int, y as int),
        ensures
            t == self.spec_tile(x as int, y as int),
    {
        proof {
            lemma_cell_index_bound(x as int, y as int, self.spec_width(), self.spec_height());
        }
        let idx = (x as usize) * self.height + (y as usize);
        self.tiles[idx]
    }

    /// Overwrite one cell, leaving every other cell as it was. Only the
    /// generator mutates the grid; no mutation API is public.
    pub(crate) fn set_tile(&mut self, x: usize, y: usize, t: Tile)
        requires
            old(self).wf(),
            old(self).in_bounds(x as int, y as int),
        ensures
            final(self).wf(),
            final(self).spec_width() == old(self).spec_width(),
            final(self).spec_height() == old(self).spec_height(),
            final(self).spec_tile(x as int, y as int) == t,
            forall|xx: int, yy: int|
                old(self).in_bounds(xx, yy) && !(xx == x as int && yy == y as int)
                    ==> final(self).spec_tile(xx, yy) == old(self).spec_tile(xx, yy),
    {
        proof {
            lemma_cell_index_bound(x as int, y as int, self.spec_width(), self.spec_height());
        }
        let idx = x * self.height + y;
        self.tiles.set(idx, t);
        proof {
            assert forall|xx: int, yy: int|
                old(self).in_bounds(xx, yy) && !(xx == x as int && yy == y as int) implies self
                .spec_tile(xx, yy) == old(self).spec_tile(xx, yy) by {
                lemma_cell_index_bound(xx, yy, self.spec_width(), self.spec_height());
                if xx * self.spec_height() + yy == x as int * self.spec_height() + y as int {
                    lemma_cell_index_injective(xx, yy, x as int, y as int, self.spec_height());
                }
            }
        }
    }
}

} // verus!
