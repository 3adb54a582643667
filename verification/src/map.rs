//! The tile map: dimensions, tile indices and the index/coordinate
//! correspondence.

use vstd::prelude::*;

use crate::random::{draw_below, new_rng};

verus! {

/// The grass tile variants the map can show.
#[derive(Clone, Copy, Debug, PartialEq, Eq, Structural)]
pub enum GrassTileType {
    Grass1,
    Grass2,
    Grass3,
    Grass4,
    Grass5,
    Grass6,
    Grass7,
}

/// The tile-sheet index of each grass variant.
pub open spec fn spec_grass_index(t: GrassTileType) -> int {
    match t {
        GrassTileType::Grass1 => 1,
        GrassTileType::Grass2 => 2,
        GrassTileType::Grass3 => 3,
        GrassTileType::Grass4 => 4,
        GrassTileType::Grass5 => 5,
        GrassTileType::Grass6 => 6,
        GrassTileType::Grass7 => 7,
    }
}

impl GrassTileType {
    pub fn as_i32(&self) -> (r: i32)
        ensures
            r == spec_grass_index(*self),
    {
        match self {
            GrassTileType::Grass1 => 1,
            GrassTileType::Grass2 => 2,
            GrassTileType::Grass3 => 3,
            GrassTileType::Grass4 => 4,
            GrassTileType::Grass5 => 5,
            GrassTileType::Grass6 => 6,
            GrassTileType::Grass7 => 7,
        }
    }
}

/// The world's tile grid, row-major.
pub struct GameMap {
    pub tiles: Vec<i32>,
    pub noise_map: Vec<i32>,
    pub map_width: i32,
    pub map_height: i32,
}

impl GameMap {
    /// An empty map of the given dimensions.
    pub fn new(map_width: i32, map_height: i32) -> (r: Self)
        ensures
            r.map_width == map_width,
            r.map_height == map_height,
            r.tiles@.len() == 0,
            r.noise_map@.len() == 0,
    {
        Self { tiles: Vec::new(), noise_map: Vec::new(), map_width, map_height }
    }

    /// Fills the map with one uniformly random grass index per tile.
    /// Whatever the draws come out as, every tile lies in `[0, 7)`.
    pub fn generate_simple_map(&mut self)
        requires
            0 <= old(self).map_width,
            0 <= old(self).map_height,
            (old(self).map_width as int) * (old(self).map_height as int) <= 100_000_000,
        ensures
            final (self).tiles@.len() == (old(self).map_width as int) * (
            old(self).map_height as int),
            forall|i: int|
                0 <= i < final (self).tiles@.len() ==> 0 <= #[trigger] final (self).tiles@[i] < 7,
            final (self).map_width == old(self).map_width,
            final (self).map_height == old(self).map_height,
            final (self).noise_map@ == old(self).noise_map@,
    {
        let mut rng = new_rng();
        let mut tiles: Vec<i32> = Vec::new();
        proof {
            assert((self.map_width as int) * (self.map_height as int) >= 0) by (nonlinear_arith)
                requires
                    self.map_width >= 0,
                    self.map_height >= 0,
            ;
        }
        let total: usize = (self.map_width as usize) * (self.map_height as usize);
        let mut i: usize = 0;
        while i < total
            invariant
                tiles@.len() == i <= total,
                forall|j: int| 0 <= j < i ==> 0 <= #[trigger] tiles@[j] < 7,
            decreases total - i,
        {
            let t = draw_below(&mut rng, 0, 7);
            tiles.push(t as i32);
            i = i + 1;
        }
        self.tiles = tiles;
    }

    /// The row-major index of tile `(x, y)`.
    pub fn map_index(&self, x: i32, y: i32) -> (r: i32)
        requires
            0 <= x < self.map_width,
            0 <= y < self.map_height,
            (self.map_width as int) * (self.map_height as int) <= 2_147_483_647,
        ensures
            r == (y as int) * (self.map_width as int) + x,
    {
        proof {
            assert((y as int) * (self.map_width as int) + x < (self.map_width as int) * (
            self.map_height as int)) by (nonlinear_arith)
                requires
                    0 <= x < self.map_width,
                    0 <= y < self.map_height,
            ;
            assert((y as int) * (self.map_width as int) >= 0) by (nonlinear_arith)
                requires
                    y >= 0,
                    self.map_width >= 0,
            ;
        }
        (y * self.map_width) + x
    }

    /// The tile coordinates of a row-major index.
    pub fn map_coords(&self, index: i32) -> (r: (i32, i32))
        requires
            1 <= self.map_width,
            0 <= index,
        ensures
            r.0 == (index as int) % (self.map_width as int),
            r.1 == (index as int) / (self.map_width as int),
    {
        (index % self.map_width, index / self.map_width)
    }
}

} // verus!
