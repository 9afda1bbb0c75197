//! The world: owner of the one grid, and the single source of truth for
//! "can something stand here".

use vstd::prelude::*;

use crate::grid::Grid;
use crate::mapgen;
use crate::tile::Tile;

verus! {

/// Owns the map grid. Created once per session; the topology never changes
/// afterwards — no tile is mutated after generation.
pub struct Game {
    map: Grid,
}

impl Game {
    pub closed spec fn spec_map(self) -> Grid {
        self.map
    }

    pub open spec fn wf(self) -> bool {
        self.spec_map().wf()
    }

    pub open spec fn spec_width(self) -> int {
        self.spec_map().spec_width()
    }

    pub open spec fn spec_height(self) -> int {
        self.spec_map().spec_height()
    }

    pub open spec fn spec_tile(self, x: int, y: int) -> Tile {
        self.spec_map().spec_tile(x, y)
    }

    pub open spec fn in_bounds(self, x: int, y: int) -> bool {
        self.spec_map().in_bounds(x, y)
    }

    /// Build the world over the fixed generated layout.
    pub fn new() -> (game: Game)
        ensures
            game.wf(),
            mapgen::generated(game.spec_map()),
    {
        Game { map: mapgen::make_map() }
    }

    /// Build a world over an already carved grid, for layouts other than
    /// the fixed demo one.
    pub fn from_grid(map: Grid) -> (game: Game)
        requires
            map.wf(),
        ensures
            game.wf(),
            game.spec_map() == map,
    {
        Game { map }
    }

    /// Look a tile up by its cell coordinates; out-of-range coordinates are
    /// a contract violation, not a clamped lookup.
    pub fn tile_at(&self, x: i32, y: i32) -> (t: Tile)
        requires
            self.wf(),
            self.in_bounds(x as int, y as int),
        ensures
            t == self.spec_tile(x as int, y as int),
    {
        self.map.tile_at(x, y)
    }

    pub fn width(&self) -> (w: usize)
        ensures
            w == self.spec_width(),
    {
        self.map.width()
    }

    pub fn height(&self) -> (h: usize)
        ensures
            h == self.spec_height(),
    {
        self.map.height()
    }
}

} // verus!
