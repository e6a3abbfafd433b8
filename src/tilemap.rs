use vstd::prelude::*;

use crate::positioning::TilePosition;
use crate::random::uniform_below;

verus! {

/// Number of tiles along each side of the square world.
pub const MAP_SIZE: i32 = 250;

/// Width of one tile, in world units.
pub const TILE_SIZE: i32 = 16;

/// The terrain of one tile.
#[derive(Copy, Clone, Debug, PartialEq, Eq, Hash, Structural)]
pub enum TileType {
    Grass,
    Water,
    DeepWater,
    Sand,
    Mountain,
}

/// The terrain for an elevation, given in thousandths.
pub open spec fn terrain_for(elevation: int) -> TileType {
    if elevation < -800 {
        TileType::DeepWater
    } else if elevation < -550 {
        TileType::Water
    } else if elevation < -350 {
        TileType::Sand
    } else if elevation < 750 {
        TileType::Grass
    } else {
        TileType::Mountain
    }
}

impl TileType {
    /// Classifies a terrain elevation, given in thousandths: deep water lies
    /// lowest, then water, sand, grass, and mountains on top.
    pub fn from_elevation(elevation: i32) -> (r: TileType)
        ensures
            r == terrain_for(elevation as int),
    {
        if elevation < -800 {
            TileType::DeepWater
        } else if elevation < -550 {
            TileType::Water
        } else if elevation < -350 {
            TileType::Sand
        } else if elevation < 750 {
            TileType::Grass
        } else {
            TileType::Mountain
        }
    }
}

impl Default for TileType {
    fn default() -> (r: TileType)
        ensures
            r == TileType::Grass,
    {
        TileType::Grass
    }
}

/// The terrain of the whole world, indexed by column, then row.
pub struct Tiles {
    pub tiles: Vec<Vec<TileType>>,
}

impl Tiles {
    /// The grid has `MAP_SIZE` columns of `MAP_SIZE` tiles each.
    pub open spec fn wf(&self) -> bool {
        &&& self.tiles@.len() == MAP_SIZE
        &&& forall|i: int| 0 <= i < MAP_SIZE ==> (#[trigger] self.tiles@[i])@.len() == MAP_SIZE
    }

    /// The terrain at `p`.
    pub open spec fn kind_at(&self, p: TilePosition) -> TileType {
        self.tiles@[p.x as int]@[p.y as int]
    }

    /// Takes a grid when it has the world's shape.
    pub fn from_columns(columns: Vec<Vec<TileType>>) -> (r: Option<Tiles>)
        ensures
            r.is_some() <==> (Tiles { tiles: columns }).wf(),
            r.is_some() ==> r.unwrap().tiles == columns,
    {
        if columns.len() != MAP_SIZE as usize {
            return None;
        }
        let mut i: usize = 0;
        while i < columns.len()
            invariant
                columns@.len() == MAP_SIZE,
                i <= columns@.len(),
                forall|j: int| 0 <= j < i ==> (#[trigger] columns@[j])@.len() == MAP_SIZE,
            decreases columns@.len() - i,
        {
            if columns[i].len() != MAP_SIZE as usize {
                return None;
            }
            i = i + 1;
        }
        Some(Tiles { tiles: columns })
    }

    /// A tile drawn uniformly from the whole grid.
    pub fn random_position(rng: &mut rand::rngs::ThreadRng) -> (r: TilePosition)
        ensures
            r.in_bounds(),
    {
        let x = uniform_below(rng, MAP_SIZE as u32);
        let y = uniform_below(rng, MAP_SIZE as u32);
        TilePosition::new(x as i32, y as i32)
    }

    pub fn get_tile_type(&self, position: &TilePosition) -> (r: TileType)
        requires
            self.wf(),
            position.in_bounds(),
        ensures
            r == self.kind_at(*position),
    {
        self.tiles[position.x as usize][position.y as usize]
    }
}

impl Default for Tiles {
    /// A world of grass.
    fn default() -> (r: Tiles)
        ensures
            r.wf(),
            forall|p: TilePosition| p.in_bounds() ==> r.kind_at(p) == TileType::Grass,
    {
        let mut tiles: Vec<Vec<TileType>> = Vec::new();
        let mut i: usize = 0;
        while i < MAP_SIZE as usize
            invariant
                i <= MAP_SIZE,
                tiles@.len() == i,
                forall|j: int|
                    0 <= j < i ==> (#[trigger] tiles@[j])@.len() == MAP_SIZE && forall|k: int|
                        0 <= k < MAP_SIZE ==> tiles@[j]@[k] == TileType::Grass,
            decreases MAP_SIZE - i,
        {
            let mut column: Vec<TileType> = Vec::new();
            let mut k: usize = 0;
            while k < MAP_SIZE as usize
                invariant
                    k <= MAP_SIZE,
                    column@.len() == k,
                    forall|m: int| 0 <= m < k ==> column@[m] == TileType::Grass,
                decreases MAP_SIZE - k,
            {
                column.push(TileType::Grass);
                k = k + 1;
            }
            tiles.push(column);
            i = i + 1;
        }
        Tiles { tiles }
    }
}

} // verus!
