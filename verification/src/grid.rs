//! The destructible-looking terrain: a fixed grid of tiles, each with a
//! cosmetic density and a solid flag that combatants bounce off.

use vstd::prelude::*;
use crate::geom::{Vec2I, RectI, rect_in_range};
use crate::rng::rand_in;

verus! {

pub const MAP_W: usize = 100;

pub const MAP_H: usize = 100;

pub const MAP_CELLS: usize = 10_000;

/// Edge length of one tile, in sub-units (50 world units).
pub const CELL_MILLI: i64 = 50_000;

/// Edge length of the whole arena, in sub-units.
pub const ARENA_MILLI: i64 = 5_000_000;

/// Exclusive upper bound of the seeded density noise (0.2 opacity).
pub const DENSITY_MAX: u32 = 200;

#[derive(Clone, Copy, PartialEq, Eq, Structural, Debug)]
pub struct Tile {
    /// Opacity in thousandths, read only by the presentation layer.
    pub density: u32,
    /// Solid tiles are permanent obstacles.
    pub solid: bool,
}

pub struct TileGrid {
    /// Row-major in x: the tile at cell `(x, y)` sits at `x * MAP_W + y`.
    pub cells: Vec<Tile>,
}

pub open spec fn wf_grid(g: &TileGrid) -> bool {
    g.cells.len() == MAP_CELLS
}

impl TileGrid {
    /// A fresh arena: no solid obstacles, every cell seeded with random
    /// density noise below `DENSITY_MAX`.
    pub fn new_seeded() -> (g: TileGrid)
        ensures
            wf_grid(&g),
            forall|i: int|
                0 <= i < MAP_CELLS ==> !g.cells@[i].solid && g.cells@[i].density < DENSITY_MAX,
    {
        let mut cells: Vec<Tile> = Vec::new();
        let mut i: usize = 0;
        while i < MAP_CELLS
            invariant
                i == cells.len() <= MAP_CELLS,
                forall|j: int|
                    0 <= j < i ==> !cells@[j].solid && cells@[j].density < DENSITY_MAX,
            decreases MAP_CELLS - i,
        {
            let d = rand_in(0, DENSITY_MAX);
            cells.push(Tile { density: d, solid: false });
            i = i + 1;
        }
        TileGrid { cells }
    }

    /// The tile under a world position, found by flooring the coordinates to
    /// cell indices; positions outside the arena have no tile.
    pub fn query(&self, pos: Vec2I) -> (t: Option<Tile>)
        requires
            wf_grid(self),
        ensures
            match t {
                Some(tile) => {
                    &&& 0 <= pos.x < ARENA_MILLI
                    &&& 0 <= pos.y < ARENA_MILLI
                    &&& tile == self.cells@[(pos.x / CELL_MILLI * 100 + pos.y / CELL_MILLI) as int]
                },
                None => !(0 <= pos.x < ARENA_MILLI && 0 <= pos.y < ARENA_MILLI),
            },
    {
        if pos.x >= 0 && pos.x < ARENA_MILLI && pos.y >= 0 && pos.y < ARENA_MILLI {
            let cx: usize = (pos.x / CELL_MILLI) as usize;
            let cy: usize = (pos.y / CELL_MILLI) as usize;
            Some(self.cells[cx * 100 + cy])
        } else {
            None
        }
    }

    /// The world rectangle covered by cell `(cx, cy)`.
    pub fn cell_rect(cx: usize, cy: usize) -> (r: RectI)
        requires
            cx < MAP_W,
            cy < MAP_H,
        ensures
            rect_in_range(r),
            r.x == cx * CELL_MILLI,
            r.y == cy * CELL_MILLI,
            r.w == CELL_MILLI,
            r.h == CELL_MILLI,
    {
        RectI {
            x: (cx as i64) * CELL_MILLI,
            y: (cy as i64) * CELL_MILLI,
            w: CELL_MILLI,
            h: CELL_MILLI,
        }
    }
}

/// Whether a tile blocks movement.
pub fn tile_is_solid(t: &Tile) -> (b: bool)
    ensures
        b == t.solid,
{
    t.solid
}

} // verus!
