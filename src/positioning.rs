use vstd::prelude::*;

use crate::tilemap::{MAP_SIZE, TILE_SIZE};

verus! {

/// Continuous coordinates are fixed-point: this many steps make one world unit.
pub const UNIT: i32 = 1000;

/// Fixed-point steps spanned by one tile.
pub const TILE_SPAN: i32 = TILE_SIZE * UNIT;

pub open spec fn square(v: int) -> int {
    v * v
}

/// Integer grid coordinate of a tile.
#[derive(Copy, Clone, Debug, PartialEq, Eq, Hash, Structural)]
pub struct TilePosition {
    pub x: i32,
    pub y: i32,
}

impl TilePosition {
    /// The tile lies on the world grid.
    pub open spec fn in_bounds(self) -> bool {
        0 <= self.x < MAP_SIZE && 0 <= self.y < MAP_SIZE
    }

    pub fn new(x: i32, y: i32) -> (r: TilePosition)
        ensures
            r.x == x,
            r.y == y,
    {
        TilePosition { x, y }
    }

    pub fn is_in_bounds(&self) -> (r: bool)
        ensures
            r == self.in_bounds(),
    {
        0 <= self.x && self.x < MAP_SIZE && 0 <= self.y && self.y < MAP_SIZE
    }

    /// The continuous position of the tile's anchor corner.
    pub open spec fn anchor_spec(self) -> TransformPosition {
        TransformPosition { x: (self.x * TILE_SPAN) as i32, y: (self.y * TILE_SPAN) as i32 }
    }

    pub fn anchor(&self) -> (r: TransformPosition)
        requires
            self.in_bounds(),
        ensures
            r == self.anchor_spec(),
            r.x == self.x * TILE_SPAN,
            r.y == self.y * TILE_SPAN,
    {
        TransformPosition { x: self.x * TILE_SPAN, y: self.y * TILE_SPAN }
    }
}

impl Default for TilePosition {
    fn default() -> (r: TilePosition)
        ensures
            r.x == 0 && r.y == 0,
    {
        TilePosition { x: 0, y: 0 }
    }
}

/// A continuous world position, in thousandths of a world unit.
#[derive(Copy, Clone, Debug, PartialEq, Eq, Hash, Structural)]
pub struct TransformPosition {
    pub x: i32,
    pub y: i32,
}

/// Index of the tile whose span holds the fixed-point coordinate `c` (floor division).
pub open spec fn tile_coordinate(c: int) -> int {
    c / (TILE_SPAN as int)
}

/// Squared distance, in squared fixed-point steps, from `p` to the anchor of `t`.
pub open spec fn squared_distance_to_tile(p: TransformPosition, t: TilePosition) -> int {
    square(p.x - t.x * TILE_SPAN) + square(p.y - t.y * TILE_SPAN)
}

fn floor_tile_coordinate(c: i32) -> (r: i32)
    ensures
        r == tile_coordinate(c as int),
{
    let span: i64 = TILE_SPAN as i64;
    let v: i64 = c as i64;
    if v >= 0 {
        let q: i64 = v / span;
        proof {
            vstd::arithmetic::div_mod::lemma_fundamental_div_mod(v as int, span as int);
        }
        q as i32
    } else {
        let n: i64 = -v;
        let q: i64 = (n + span - 1) / span;
        proof {
            vstd::arithmetic::div_mod::lemma_fundamental_div_mod((n + span - 1) as int, span as int);
            vstd::arithmetic::div_mod::lemma_fundamental_div_mod_converse(
                v as int,
                span as int,
                -q as int,
                v + q * span,
            );
        }
        (-q) as i32
    }
}

impl TransformPosition {
    pub fn new(x: i32, y: i32) -> (r: TransformPosition)
        ensures
            r.x == x,
            r.y == y,
    {
        TransformPosition { x, y }
    }

    /// The tile that holds this position.
    pub open spec fn tile_spec(self) -> TilePosition {
        TilePosition {
            x: tile_coordinate(self.x as int) as i32,
            y: tile_coordinate(self.y as int) as i32,
        }
    }

    pub fn tile(&self) -> (r: TilePosition)
        ensures
            r == self.tile_spec(),
            r.x == tile_coordinate(self.x as int),
            r.y == tile_coordinate(self.y as int),
    {
        TilePosition { x: floor_tile_coordinate(self.x), y: floor_tile_coordinate(self.y) }
    }

    /// Squared distance between two positions, in squared fixed-point steps.
    pub fn distance_squared(&self, other: &TransformPosition) -> (r: u128)
        ensures
            r == square(self.x - other.x) + square(self.y - other.y),
    {
        let dx: i128 = self.x as i128 - other.x as i128;
        let dy: i128 = self.y as i128 - other.y as i128;
        proof {
            assert(0 <= dx * dx <= 0x1_0000_0000_0000_0000) by (nonlinear_arith)
                requires
                    -0x1_0000_0000 <= dx <= 0x1_0000_0000,
            ;
            assert(0 <= dy * dy <= 0x1_0000_0000_0000_0000) by (nonlinear_arith)
                requires
                    -0x1_0000_0000 <= dy <= 0x1_0000_0000,
            ;
        }
        (dx * dx + dy * dy) as u128
    }

    /// Squared distance from this position to the anchor of `tile`.
    pub fn distance_squared_to_tile(&self, tile: &TilePosition) -> (r: u128)
        ensures
            r == squared_distance_to_tile(*self, *tile),
    {
        let span: i128 = TILE_SPAN as i128;
        let dx: i128 = self.x as i128 - tile.x as i128 * span;
        let dy: i128 = self.y as i128 - tile.y as i128 * span;
        proof {
            assert(-0x1000_0000_0000_0000 < dx < 0x1000_0000_0000_0000) by (nonlinear_arith)
                requires
                    dx == self.x - tile.x * span,
                    span == 16000,
                    -0x8000_0000 <= self.x < 0x8000_0000,
                    -0x8000_0000 <= tile.x < 0x8000_0000,
            ;
            assert(-0x1000_0000_0000_0000 < dy < 0x1000_0000_0000_0000) by (nonlinear_arith)
                requires
                    dy == self.y - tile.y * span,
                    span == 16000,
                    -0x8000_0000 <= self.y < 0x8000_0000,
                    -0x8000_0000 <= tile.y < 0x8000_0000,
            ;
            assert(0 <= dx * dx < 0x100_0000_0000_0000_0000_0000_0000_0000) by (nonlinear_arith)
                requires
                    -0x1000_0000_0000_0000 < dx < 0x1000_0000_0000_0000,
            ;
            assert(0 <= dy * dy < 0x100_0000_0000_0000_0000_0000_0000_0000) by (nonlinear_arith)
                requires
                    -0x1000_0000_0000_0000 < dy < 0x1000_0000_0000_0000,
            ;
        }
        (dx * dx + dy * dy) as u128
    }

    /// Within one world unit of the anchor of `tile` (strictly).
    pub open spec fn reaches_spec(self, tile: TilePosition) -> bool {
        squared_distance_to_tile(self, tile) < UNIT * UNIT
    }

    pub fn reaches(&self, tile: &TilePosition) -> (r: bool)
        ensures
            r == self.reaches_spec(*tile),
    {
        let unit: u128 = UNIT as u128;
        self.distance_squared_to_tile(tile) < unit * unit
    }
}

impl Default for TransformPosition {
    fn default() -> (r: TransformPosition)
        ensures
            r.x == 0 && r.y == 0,
    {
        TransformPosition { x: 0, y: 0 }
    }
}

/// Going from a tile to its anchor and back gives the same tile.
pub proof fn lemma_tile_anchor_round_trip(t: TilePosition)
    requires
        t.in_bounds(),
    ensures
        t.anchor_spec().tile_spec() == t,
{
    let span = TILE_SPAN as int;
    vstd::arithmetic::div_mod::lemma_div_multiples_vanish(t.x as int, span);
    vstd::arithmetic::div_mod::lemma_div_multiples_vanish(t.y as int, span);
    assert(t.x * TILE_SPAN == span * t.x) by (nonlinear_arith)
        requires
            span == TILE_SPAN,
    ;
    assert(t.y * TILE_SPAN == span * t.y) by (nonlinear_arith)
        requires
            span == TILE_SPAN,
    ;
}

} // verus!
