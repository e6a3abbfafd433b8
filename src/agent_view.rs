use vstd::prelude::*;

use crate::positioning::{squared_distance_to_tile, tile_coordinate, TilePosition, TransformPosition};
use crate::tilemap::{TileType, Tiles, MAP_SIZE};

verus! {

/// One tile as an agent perceives it: its squared distance from the agent (in
/// squared fixed-point steps), where it is, and its terrain.
#[derive(Copy, Clone, Debug)]
pub struct AgentView {
    pub tile_distance: u128,
    pub tile_position: TilePosition,
    pub tile_type: TileType,
}

impl AgentView {
    pub fn new(tile_distance: u128, tile_position: TilePosition, tile_type: TileType) -> (r:
        AgentView)
        ensures
            r == (AgentView { tile_distance, tile_position, tile_type }),
    {
        AgentView { tile_distance, tile_position, tile_type }
    }

    pub fn tile_distance(&self) -> (r: u128)
        ensures
            r == self.tile_distance,
    {
        self.tile_distance
    }

    pub fn tile_position(&self) -> (r: &TilePosition)
        ensures
            *r == self.tile_position,
    {
        &self.tile_position
    }

    pub fn tile_type(&self) -> (r: &TileType)
        ensures
            *r == self.tile_type,
    {
        &self.tile_type
    }
}

impl Default for AgentView {
    /// A grass tile at the origin, as far away as a distance can be.
    fn default() -> (r: AgentView)
        ensures
            r.tile_distance == u128::MAX,
            r.tile_position == (TilePosition { x: 0, y: 0 }),
            r.tile_type == TileType::Grass,
    {
        AgentView {
            tile_distance: u128::MAX,
            tile_position: TilePosition::new(0, 0),
            tile_type: TileType::Grass,
        }
    }
}

/// Two perceived tiles are equal when they lie at the same distance.
impl PartialEq for AgentView {
    fn eq(&self, other: &AgentView) -> (r: bool) {
        self.tile_distance == other.tile_distance
    }
}

impl vstd::std_specs::cmp::PartialEqSpecImpl for AgentView {
    open spec fn obeys_eq_spec() -> bool {
        true
    }

    open spec fn eq_spec(&self, other: &AgentView) -> bool {
        self.tile_distance == other.tile_distance
    }
}

impl Eq for AgentView {
}

/// Perceived tiles are ordered by distance alone.
impl PartialOrd for AgentView {
    fn partial_cmp(&self, other: &AgentView) -> (r: Option<core::cmp::Ordering>) {
        if self.tile_distance < other.tile_distance {
            Some(core::cmp::Ordering::Less)
        } else if self.tile_distance == other.tile_distance {
            Some(core::cmp::Ordering::Equal)
        } else {
            Some(core::cmp::Ordering::Greater)
        }
    }
}

impl vstd::std_specs::cmp::PartialOrdSpecImpl for AgentView {
    open spec fn obeys_partial_cmp_spec() -> bool {
        true
    }

    open spec fn partial_cmp_spec(&self, other: &AgentView) -> Option<core::cmp::Ordering> {
        if self.tile_distance < other.tile_distance {
            Some(core::cmp::Ordering::Less)
        } else if self.tile_distance == other.tile_distance {
            Some(core::cmp::Ordering::Equal)
        } else {
            Some(core::cmp::Ordering::Greater)
        }
    }
}

/// The tiles that an agent sees: a square of tiles around its own, cut to the
/// world's edges. Empty when `min_x > max_x` or `min_y > max_y`.
#[derive(Copy, Clone, Debug)]
pub struct ViewWindow {
    pub min_x: i64,
    pub max_x: i64,
    pub min_y: i64,
    pub max_y: i64,
}

pub open spec fn max_int(a: int, b: int) -> int {
    if a >= b { a } else { b }
}

pub open spec fn min_int(a: int, b: int) -> int {
    if a <= b { a } else { b }
}

/// The window of radius `radius` around the tile that holds `origin`.
pub open spec fn view_window(origin: TransformPosition, radius: int) -> ViewWindow {
    let tx = tile_coordinate(origin.x as int);
    let ty = tile_coordinate(origin.y as int);
    ViewWindow {
        min_x: max_int(tx - radius, 0) as i64,
        max_x: min_int(tx + radius, MAP_SIZE - 1) as i64,
        min_y: max_int(ty - radius, 0) as i64,
        max_y: min_int(ty + radius, MAP_SIZE - 1) as i64,
    }
}

/// What an agent at `origin` perceives of the tile at `p`.
pub open spec fn seen_from(origin: TransformPosition, tiles: &Tiles, p: TilePosition) -> AgentView {
    AgentView {
        tile_distance: squared_distance_to_tile(origin, p) as u128,
        tile_position: p,
        tile_type: tiles.kind_at(p),
    }
}

/// `a` is ordered before `b`: nearer first, and at equal distance in the
/// order in which the window is scanned.
pub open spec fn view_before(w: ViewWindow, a: AgentView, b: AgentView) -> bool {
    a.tile_distance < b.tile_distance || (a.tile_distance == b.tile_distance && w.scan_index(
        a.tile_position,
    ) <= w.scan_index(b.tile_position))
}

/// Lexicographic order on pairs, as `Ord` orders tuples.
pub open spec fn pair_le(a: (u128, u32), b: (u128, u32)) -> bool {
    a.0 < b.0 || (a.0 == b.0 && a.1 <= b.1)
}

/// Relies on slice::sort_unstable: the result holds the same elements, in
/// ascending order; tuples compare lexicographically.
#[verifier::external_body]
fn sort_pairs(v: &mut Vec<(u128, u32)>)
    ensures
        final(v)@.to_multiset() == old(v)@.to_multiset(),
        forall|i: int, j: int|
            0 <= i < j < final(v)@.len() ==> pair_le(#[trigger] final(v)@[i], #[trigger] final(v)@[j]),
{
    v.sort_unstable();
}

impl ViewWindow {
    pub open spec fn is_empty(self) -> bool {
        self.min_x > self.max_x || self.min_y > self.max_y
    }

    pub open spec fn contains(self, p: TilePosition) -> bool {
        self.min_x <= p.x <= self.max_x && self.min_y <= p.y <= self.max_y
    }

    pub open spec fn height(self) -> int {
        self.max_y - self.min_y + 1
    }

    pub open spec fn width(self) -> int {
        self.max_x - self.min_x + 1
    }

    /// Number of tiles in the window.
    pub open spec fn size(self) -> int {
        if self.is_empty() { 0 } else { self.width() * self.height() }
    }

    /// Position of `p` in a scan of the window, column after column.
    pub open spec fn scan_index(self, p: TilePosition) -> int {
        (p.x - self.min_x) * self.height() + (p.y - self.min_y)
    }

    /// The tile at position `k` of the scan.
    pub open spec fn scan_tile(self, k: int) -> TilePosition {
        TilePosition {
            x: (self.min_x + k / self.height()) as i32,
            y: (self.min_y + k % self.height()) as i32,
        }
    }

    /// The window of radius `radius` around the tile that holds `origin`.
    pub fn around(origin: &TransformPosition, radius: i32) -> (r: ViewWindow)
        ensures
            r == view_window(*origin, radius as int),
    {
        let tile = origin.tile();
        let rad: i64 = radius as i64;
        let last: i64 = (MAP_SIZE - 1) as i64;
        proof {
            assert(-0x1_0000_0000 < tile.x < 0x1_0000_0000) by {
                vstd::arithmetic::div_mod::lemma_fundamental_div_mod(origin.x as int, 16000);
            }
            assert(-0x1_0000_0000 < tile.y < 0x1_0000_0000) by {
                vstd::arithmetic::div_mod::lemma_fundamental_div_mod(origin.y as int, 16000);
            }
        }
        let lo_x: i64 = tile.x as i64 - rad;
        let hi_x: i64 = tile.x as i64 + rad;
        let lo_y: i64 = tile.y as i64 - rad;
        let hi_y: i64 = tile.y as i64 + rad;
        ViewWindow {
            min_x: if lo_x >= 0 { lo_x } else { 0 },
            max_x: if hi_x <= last { hi_x } else { last },
            min_y: if lo_y >= 0 { lo_y } else { 0 },
            max_y: if hi_y <= last { hi_y } else { last },
        }
    }
}

proof fn lemma_scan_round_trip(w: ViewWindow, p: TilePosition)
    requires
        w.contains(p),
    ensures
        0 <= w.scan_index(p) < w.size(),
        w.scan_index(p) / w.height() == p.x - w.min_x,
        w.scan_index(p) % w.height() == p.y - w.min_y,
{
    let h = w.height();
    let k = (p.x - w.min_x) * h + (p.y - w.min_y);
    vstd::arithmetic::div_mod::lemma_fundamental_div_mod_converse(k, h, p.x - w.min_x, p.y - w.min_y);
    assert((p.x - w.min_x) * h + (p.y - w.min_y) < w.width() * h) by (nonlinear_arith)
        requires
            0 <= p.x - w.min_x < w.width(),
            0 <= p.y - w.min_y < h,
    ;
    assert(0 <= (p.x - w.min_x) * h) by (nonlinear_arith)
        requires
            0 <= p.x - w.min_x,
            0 < h,
    ;
}

proof fn lemma_scan_tile(w: ViewWindow, k: int)
    requires
        !w.is_empty(),
        0 <= w.min_x <= w.max_x < MAP_SIZE,
        0 <= w.min_y <= w.max_y < MAP_SIZE,
        0 <= k < w.size(),
    ensures
        w.contains(w.scan_tile(k)),
        w.scan_index(w.scan_tile(k)) == k,
        w.scan_tile(k).in_bounds(),
        0 <= k / w.height() < w.width(),
        0 <= k % w.height() < w.height(),
{
    let h = w.height();
    vstd::arithmetic::div_mod::lemma_fundamental_div_mod(k, h);
    assert(k / h < w.width()) by {
        vstd::arithmetic::mul::lemma_mul_is_commutative(w.width(), h);
        vstd::arithmetic::div_mod::lemma_multiply_divide_lt(k, h, w.width());
    }
    assert(0 <= k / h) by {
        vstd::arithmetic::div_mod::lemma_div_pos_is_pos(k, h);
    }
    assert(k == (k / h) * h + k % h) by {
        vstd::arithmetic::mul::lemma_mul_is_commutative(k / h, h);
    }
}

/// Scans the window around `origin` and returns what an agent there perceives
/// of each tile, nearest first; tiles at equal distance keep the order of the
/// scan, column after column.
pub fn perceive(origin: &TransformPosition, radius: i32, tiles: &Tiles) -> (r: Vec<AgentView>)
    requires
        tiles.wf(),
    ensures
        r@.len() == view_window(*origin, radius as int).size(),
        forall|i: int|
            0 <= i < r@.len() ==> view_window(*origin, radius as int).contains(
                (#[trigger] r@[i]).tile_position,
            ) && r@[i].tile_position.in_bounds() && r@[i] == seen_from(
                *origin,
                tiles,
                r@[i].tile_position,
            ),
        forall|p: TilePosition|
            #[trigger] view_window(*origin, radius as int).contains(p) ==> exists|i: int|
                0 <= i < r@.len() && r@[i].tile_position == p,
        forall|i: int, j: int|
            0 <= i < j < r@.len() ==> view_before(
                view_window(*origin, radius as int),
                #[trigger] r@[i],
                #[trigger] r@[j],
            ),
{
    let w = ViewWindow::around(origin, radius);
    if w.min_x > w.max_x || w.min_y > w.max_y {
        return Vec::new();
    }
    let h: i64 = w.max_y - w.min_y + 1;
    proof {
        assert(w.size() <= MAP_SIZE * MAP_SIZE) by (nonlinear_arith)
            requires
                0 < w.width() <= MAP_SIZE,
                0 < w.height() <= MAP_SIZE,
                w.size() == w.width() * w.height(),
        ;
    }
    let ghost n = w.size();
    let mut keys: Vec<(u128, u32)> = Vec::new();
    let mut x: i64 = w.min_x;
    while x <= w.max_x
        invariant
            !w.is_empty(),
            0 <= w.min_x <= w.max_x < MAP_SIZE,
            0 <= w.min_y <= w.max_y < MAP_SIZE,
            h == w.height(),
            n == w.size(),
            n <= MAP_SIZE * MAP_SIZE,
            w.min_x <= x <= w.max_x + 1,
            keys@.len() == (x - w.min_x) * h,
            forall|k: int|
                0 <= k < keys@.len() ==> (#[trigger] keys@[k]).1 == k && keys@[k].0
                    == squared_distance_to_tile(*origin, w.scan_tile(k)),
        decreases w.max_x + 1 - x,
    {
        let mut y: i64 = w.min_y;
        while y <= w.max_y
            invariant
                !w.is_empty(),
                0 <= w.min_x <= w.max_x < MAP_SIZE,
                0 <= w.min_y <= w.max_y < MAP_SIZE,
                h == w.height(),
                n == w.size(),
                n <= MAP_SIZE * MAP_SIZE,
                w.min_x <= x <= w.max_x,
                w.min_y <= y <= w.max_y + 1,
                keys@.len() == (x - w.min_x) * h + (y - w.min_y),
                forall|k: int|
                    0 <= k < keys@.len() ==> (#[trigger] keys@[k]).1 == k && keys@[k].0
                        == squared_distance_to_tile(*origin, w.scan_tile(k)),
            decreases w.max_y + 1 - y,
        {
            let p = TilePosition::new(x as i32, y as i32);
            let d = origin.distance_squared_to_tile(&p);
            proof {
                lemma_scan_round_trip(w, p);
                assert(w.scan_tile(keys@.len() as int) == p);
            }
            let k: u32 = ((x - w.min_x) * h + (y - w.min_y)) as u32;
            keys.push((d, k));
            y = y + 1;
        }
        proof {
            assert((x - w.min_x) * h + h == (x + 1 - w.min_x) * h) by (nonlinear_arith);
        }
        x = x + 1;
    }
    proof {
        assert(keys@.len() == n) by {
            assert((x - w.min_x) * h == w.width() * h);
        }
    }
    let ghost unsorted = keys@;
    sort_pairs(&mut keys);
    proof {
        broadcast use vstd::seq_lib::group_to_multiset_ensures;

        assert(keys@.to_multiset().len() == unsorted.to_multiset().len());
        assert(keys@.len() == n);
        assert forall|i: int| 0 <= i < keys@.len() implies 0 <= (#[trigger] keys@[i]).1 < n
            && keys@[i].0 == squared_distance_to_tile(*origin, w.scan_tile(keys@[i].1 as int)) by {
            assert(keys@.to_multiset().count(keys@[i]) > 0);
            assert(unsorted.contains(keys@[i]));
            let k = choose|k: int| 0 <= k < unsorted.len() && unsorted[k] == keys@[i];
            assert(unsorted[k].1 == k);
        }
    }
    let mut out: Vec<AgentView> = Vec::new();
    let mut i: usize = 0;
    while i < keys.len()
        invariant
            !w.is_empty(),
            0 <= w.min_x <= w.max_x < MAP_SIZE,
            0 <= w.min_y <= w.max_y < MAP_SIZE,
            h == w.height(),
            n == w.size(),
            w == view_window(*origin, radius as int),
            tiles.wf(),
            keys@.len() == n,
            i <= keys@.len(),
            out@.len() == i,
            forall|m: int|
                0 <= m < keys@.len() ==> 0 <= (#[trigger] keys@[m]).1 < n && keys@[m].0
                    == squared_distance_to_tile(*origin, w.scan_tile(keys@[m].1 as int)),
            forall|m: int|
                0 <= m < i ==> (#[trigger] out@[m]).tile_position == w.scan_tile(
                    keys@[m].1 as int,
                ) && out@[m] == seen_from(*origin, tiles, out@[m].tile_position),
        decreases keys@.len() - i,
    {
        let (d, k) = keys[i];
        proof {
            lemma_scan_tile(w, k as int);
            assert(0 <= w.min_x + (k as int) / (h as int) < MAP_SIZE);
            assert(0 <= w.min_y + (k as int) % (h as int) < MAP_SIZE);
        }
        let p = TilePosition::new((w.min_x + k as i64 / h) as i32, (w.min_y + k as i64 % h) as i32);
        let kind = tiles.get_tile_type(&p);
        out.push(AgentView::new(d, p, kind));
        i = i + 1;
    }
    proof {
        assert forall|m: int| 0 <= m < out@.len() implies w.contains(
            (#[trigger] out@[m]).tile_position,
        ) && out@[m].tile_position.in_bounds() by {
            lemma_scan_tile(w, keys@[m].1 as int);
        }
        assert forall|p: TilePosition| #[trigger] w.contains(p) implies exists|m: int|
            0 <= m < out@.len() && out@[m].tile_position == p by {
            broadcast use vstd::seq_lib::group_to_multiset_ensures;

            lemma_scan_round_trip(w, p);
            let k = w.scan_index(p);
            assert(unsorted[k].1 == k);
            assert(unsorted.to_multiset().count(unsorted[k]) > 0);
            assert(keys@.contains(unsorted[k]));
            let m = choose|m: int| 0 <= m < keys@.len() && keys@[m] == unsorted[k];
            lemma_scan_tile(w, k);
            assert(w.scan_tile(k) == p);
            assert(out@[m].tile_position == p);
        }
        assert forall|a: int, b: int| 0 <= a < b < out@.len() implies view_before(
            w,
            #[trigger] out@[a],
            #[trigger] out@[b],
        ) by {
            lemma_scan_tile(w, keys@[a].1 as int);
            lemma_scan_tile(w, keys@[b].1 as int);
            assert(pair_le(keys@[a], keys@[b]));
        }
    }
    out
}

} // verus!
