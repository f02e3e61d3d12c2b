//! The ground: four tiles in a two-by-two arrangement round a common peak.
//!
//! With `s` the tile side step, a quarter of the map's side, every tile is a
//! square of side `2 * s` in the x/z plane. The four squares meet at the point
//! `x = s`, `z = -s`, where the ground is raised by `s`; every other corner
//! lies at height zero. Each tile is folded along the diagonal that ends at
//! the peak.

use vstd::prelude::*;
use crate::point::{Point3, Position};
use crate::tile::{Quad, Tile};

verus! {

/// The number of tiles of the ground.
pub const TILE_COUNT: usize = 4;

/// The two lengths that describe the map, in grid units: the side of the
/// square that the ground covers, and the coordinate that texture coordinates
/// are measured from. The side is positive and a multiple of four, so that a
/// quarter of it is a whole number of grid units.
#[derive(Clone, Copy, Debug)]
pub struct MapParams {
    map_side_len: i32,
    min_x: i32,
}

/// Whether `map_side_len` can be the side of a map: it is positive, and a
/// quarter of it is a whole number.
pub open spec fn valid_side_len(map_side_len: int) -> bool {
    map_side_len > 0 && map_side_len % 4 == 0
}

impl MapParams {
    /// The side of the map.
    pub closed spec fn side_len(self) -> int {
        self.map_side_len as int
    }

    /// What holds of every value of this type: its side is valid.
    #[verifier::type_invariant]
    pub open spec fn wf(self) -> bool {
        valid_side_len(self.side_len())
    }

    /// The coordinate that texture coordinates are measured from.
    pub closed spec fn origin(self) -> int {
        self.min_x as int
    }

    /// The tile side step: a quarter of the map's side, half the side of a tile.
    pub open spec fn step(self) -> int {
        self.side_len() / 4
    }

    /// The parameters of a map, or `None` where `map_side_len` is not a
    /// positive multiple of four.
    pub fn new(map_side_len: i32, min_x: i32) -> (r: Option<MapParams>)
        ensures
            r is Some <==> valid_side_len(map_side_len as int),
            r matches Some(p) ==> p.wf() && p.side_len() == map_side_len && p.origin() == min_x,
    {
        if map_side_len > 0 && map_side_len % 4 == 0 {
            Some(MapParams { map_side_len, min_x })
        } else {
            None
        }
    }

    /// The side of the map.
    pub fn map_side_len(&self) -> (len: i32)
        ensures
            len == self.side_len(),
            valid_side_len(len as int),
    {
        proof {
            use_type_invariant(self);
        }
        self.map_side_len
    }

    /// The coordinate that texture coordinates are measured from.
    pub fn min_x(&self) -> (m: i32)
        ensures
            m == self.origin(),
    {
        self.min_x
    }

    /// The tile side step: a quarter of the map's side.
    pub fn tile_side_step(&self) -> (s: i32)
        ensures
            s == self.step(),
            s > 0,
            4 * s == self.side_len(),
    {
        proof {
            use_type_invariant(self);
        }
        self.map_side_len / 2 / 2
    }
}

/// The point at `x` and `z` with height `y`.
pub open spec fn at(x: int, y: int, z: int) -> Position {
    Position { x, y, z }
}

/// The four corners of tile `index` under the names that the construction
/// gives them: it starts from the first tile and moves a full tile width for
/// each further one, handing the raised corner on from one name to the next.
pub open spec fn ground_corners(s: int, index: int) -> Quad {
    if index == 0 {
        Quad { a: at(s, s, -s), b: at(-s, 0, -s), c: at(-s, 0, s), d: at(s, 0, s) }
    } else if index == 1 {
        Quad { a: at(3 * s, 0, -s), b: at(s, s, -s), c: at(s, 0, s), d: at(3 * s, 0, s) }
    } else if index == 2 {
        Quad { a: at(3 * s, 0, -3 * s), b: at(s, 0, -3 * s), c: at(s, s, -s), d: at(3 * s, 0, -s) }
    } else {
        Quad { a: at(s, 0, -3 * s), b: at(-s, 0, -3 * s), c: at(-s, 0, -s), d: at(s, s, -s) }
    }
}

/// Tile `index` of the ground, for `index` from 0 to 3 and tile side step `s`,
/// with its corners in the order in which they are triangulated. Every second
/// tile takes its corners one name further round, which turns its fold.
pub open spec fn ground_tile(s: int, index: int) -> Quad {
    if index % 2 == 1 {
        ground_corners(s, index).rotated()
    } else {
        ground_corners(s, index)
    }
}

/// One step of the construction, from the corners of tile `index - 1` to those
/// of tile `index`: every corner moves a full tile width along x or z, the
/// corner that was raised comes down and the next one goes up.
pub open spec fn construction_step(q: Quad, s: int, index: int) -> Quad {
    if index == 1 {
        Quad {
            a: q.a.moved(2 * s, -s, 0),
            b: q.b.moved(2 * s, s, 0),
            c: q.c.moved(2 * s, 0, 0),
            d: q.d.moved(2 * s, 0, 0),
        }
    } else if index == 2 {
        Quad {
            a: q.a.moved(0, 0, -2 * s),
            b: q.b.moved(0, -s, -2 * s),
            c: q.c.moved(0, s, -2 * s),
            d: q.d.moved(0, 0, -2 * s),
        }
    } else {
        Quad {
            a: q.a.moved(-2 * s, 0, 0),
            b: q.b.moved(-2 * s, 0, 0),
            c: q.c.moved(-2 * s, -s, 0),
            d: q.d.moved(-2 * s, s, 0),
        }
    }
}

/// The corners of each tile after the first are those of the tile before,
/// taken one step of the construction further.
pub proof fn lemma_corners_follow_construction(s: int, index: int)
    requires
        1 <= index <= 3,
    ensures
        ground_corners(s, index) == construction_step(ground_corners(s, index - 1), s, index),
{
}

fn base_corners(s: i32) -> (t: Tile)
    requires
        0 < s,
    ensures
        t@ == ground_corners(s as int, 0),
{
    Tile {
        a: Point3 { x: s, y: s, z: -s },
        b: Point3 { x: -s, y: 0, z: -s },
        c: Point3 { x: -s, y: 0, z: s },
        d: Point3 { x: s, y: 0, z: s },
    }
}

fn moved(p: Point3, dx: i32, dy: i32, dz: i32) -> (r: Point3)
    requires
        i32::MIN <= p.x + dx <= i32::MAX,
        i32::MIN <= p.y + dy <= i32::MAX,
        i32::MIN <= p.z + dz <= i32::MAX,
    ensures
        r@ == p@.moved(dx as int, dy as int, dz as int),
{
    Point3 { x: p.x + dx, y: p.y + dy, z: p.z + dz }
}

fn next_corners(t: Tile, s: i32, index: usize) -> (r: Tile)
    requires
        1 <= index <= 3,
        0 < 4 * s <= i32::MAX,
        t@ == ground_corners(s as int, index - 1),
    ensures
        r@ == construction_step(t@, s as int, index as int),
        r@ == ground_corners(s as int, index as int),
{
    let w: i32 = 2 * s;
    if index == 1 {
        Tile {
            a: moved(t.a, w, -s, 0),
            b: moved(t.b, w, s, 0),
            c: moved(t.c, w, 0, 0),
            d: moved(t.d, w, 0, 0),
        }
    } else if index == 2 {
        Tile {
            a: moved(t.a, 0, 0, -w),
            b: moved(t.b, 0, -s, -w),
            c: moved(t.c, 0, s, -w),
            d: moved(t.d, 0, 0, -w),
        }
    } else {
        Tile {
            a: moved(t.a, -w, 0, 0),
            b: moved(t.b, -w, 0, 0),
            c: moved(t.c, -w, -s, 0),
            d: moved(t.d, -w, s, 0),
        }
    }
}

/// Tile `index` of the ground that `params` describe, or `None` where
/// `index` is not below [`TILE_COUNT`].
pub fn generate_tile(params: &MapParams, index: usize) -> (r: Option<Tile>)
    ensures
        r is Some <==> index < TILE_COUNT,
        r matches Some(tile) ==> tile@ == ground_tile(params.step(), index as int),
{
    if index >= TILE_COUNT {
        return None;
    }
    let s: i32 = params.tile_side_step();
    proof {
        use_type_invariant(params);
    }
    let mut corners = base_corners(s);
    let mut k: usize = 0;
    while k < index
        invariant
            k <= index < 4,
            0 < 4 * s <= i32::MAX,
            corners@ == ground_corners(s as int, k as int),
        decreases index - k,
    {
        k = k + 1;
        corners = next_corners(corners, s, k);
    }
    if index % 2 == 1 {
        Some(corners.rotated())
    } else {
        Some(corners)
    }
}

} // verus!
