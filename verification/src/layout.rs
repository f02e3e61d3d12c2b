//! What holds of the four tiles of the ground together: seen from above they
//! fill a square without gaps or overlaps, every triangle faces upward, no
//! tile is flat, the folds of neighbours cross, and the heights agree where
//! tiles meet.

use vstd::prelude::*;
use crate::ground::{at, ground_tile};
use crate::point::Position;
use crate::projection::{square_covers, square_covers_strictly};

verus! {

/// The least x of the square cell of tile `index`.
pub open spec fn cell_x(s: int, index: int) -> int {
    if index == 0 || index == 3 {
        -s
    } else {
        s
    }
}

/// The least z of the square cell of tile `index`.
pub open spec fn cell_z(s: int, index: int) -> int {
    if index == 0 || index == 1 {
        -s
    } else {
        -3 * s
    }
}

/// Whether the ground, seen from above, holds the point at `x` and `z`: one
/// of the four tiles does.
pub open spec fn ground_covers(s: int, x: real, z: real) -> bool {
    exists|index: int| 0 <= index < 4 && #[trigger] ground_tile(s, index).covers(x, z)
}

/// The peak of the ground: the one raised point, where the four tiles meet.
pub open spec fn peak(s: int) -> Position {
    at(s, s, -s)
}

/// The height of the ground above the grid point at `x` and `z`.
pub open spec fn corner_height(s: int, x: int, z: int) -> int {
    if x == s && z == -s {
        s
    } else {
        0
    }
}

/// Seen from above, a tile of the ground fills exactly its cell: the square
/// of side `2 * s` with least corner at `cell_x` and `cell_z`.
pub proof fn lemma_tile_fills_its_cell(s: int, index: int, x: real, z: real)
    requires
        s > 0,
        0 <= index < 4,
    ensures
        ground_tile(s, index).covers(x, z) <==> square_covers(
            cell_x(s, index),
            cell_z(s, index),
            2 * s,
            x,
            z,
        ),
{
    assert(ground_tile(s, index).covers(x, z) <==> square_covers(
        cell_x(s, index),
        cell_z(s, index),
        2 * s,
        x,
        z,
    )) by (nonlinear_arith)
        requires
            s > 0,
            0 <= index < 4,
    ;
}

/// No gaps: seen from above, the four tiles together fill exactly the square
/// of side `4 * s`, the side of the map, that reaches from `-s` to `3 * s`
/// along x and from `-3 * s` to `s` along z.
pub proof fn lemma_tiles_fill_the_map(s: int, x: real, z: real)
    requires
        s > 0,
    ensures
        ground_covers(s, x, z) <==> square_covers(-s, -3 * s, 4 * s, x, z),
{
    lemma_tile_fills_its_cell(s, 0, x, z);
    lemma_tile_fills_its_cell(s, 1, x, z);
    lemma_tile_fills_its_cell(s, 2, x, z);
    lemma_tile_fills_its_cell(s, 3, x, z);
    if ground_covers(s, x, z) {
        let index = choose|index: int|
            0 <= index < 4 && #[trigger] ground_tile(s, index).covers(x, z);
        lemma_tile_fills_its_cell(s, index, x, z);
    }
    if square_covers(-s, -3 * s, 4 * s, x, z) {
        let index: int = if x <= s as real {
            if z >= (-s) as real {
                0
            } else {
                3
            }
        } else {
            if z >= (-s) as real {
                1
            } else {
                2
            }
        };
        assert(ground_tile(s, index).covers(x, z));
    }
}

/// No overlaps between tiles: a point inside the cell of one tile, and not
/// on its edge, is held by no other tile.
pub proof fn lemma_tiles_do_not_overlap(s: int, i: int, j: int, x: real, z: real)
    requires
        s > 0,
        0 <= i < 4,
        0 <= j < 4,
        i != j,
        square_covers_strictly(cell_x(s, i), cell_z(s, i), 2 * s, x, z),
    ensures
        !ground_tile(s, j).covers(x, z),
{
    lemma_tile_fills_its_cell(s, j, x, z);
}

/// No overlaps within a tile: no point lies inside both triangles of a tile.
pub proof fn lemma_triangles_do_not_overlap(s: int, index: int, x: real, z: real)
    requires
        s > 0,
        0 <= index < 4,
    ensures
        !(ground_tile(s, index).first().covers_strictly(x, z) && ground_tile(
            s,
            index,
        ).second().covers_strictly(x, z)),
{
    assert(!(ground_tile(s, index).first().covers_strictly(x, z) && ground_tile(
        s,
        index,
    ).second().covers_strictly(x, z))) by (nonlinear_arith)
        requires
            s > 0,
            0 <= index < 4,
    ;
}

/// Every triangle of the ground faces upward, and covers, seen from above,
/// half of its tile's cell.
pub proof fn lemma_triangles_face_upward(s: int, index: int)
    requires
        s > 0,
        0 <= index < 4,
    ensures
        ground_tile(s, index).first().upward() == 4 * s * s,
        ground_tile(s, index).second().upward() == 4 * s * s,
        4 * s * s > 0,
{
    assert(ground_tile(s, index).first().upward() == 4 * s * s && ground_tile(
        s,
        index,
    ).second().upward() == 4 * s * s && 4 * s * s > 0) by (nonlinear_arith)
        requires
            s > 0,
            0 <= index < 4,
    ;
}

/// No tile of the ground is flat: its four corners do not lie in one plane.
pub proof fn lemma_tiles_are_folded(s: int, index: int)
    requires
        s > 0,
        0 <= index < 4,
    ensures
        !ground_tile(s, index).is_flat(),
{
    assert(ground_tile(s, index).volume() != 0) by (nonlinear_arith)
        requires
            s > 0,
            0 <= index < 4,
    ;
}

/// The fold of every tile ends at the peak, and the folds of two tiles that
/// share an edge run at right angles to each other.
pub proof fn lemma_folds_alternate(s: int, index: int)
    requires
        0 <= index < 4,
    ensures
        ground_tile(s, index).a == peak(s) || ground_tile(s, index).c == peak(s),
        ground_tile(s, index).fold_crosses(ground_tile(s, (index + 1) % 4)),
{
    assert(ground_tile(s, index).fold_crosses(ground_tile(s, (index + 1) % 4)))
        by (nonlinear_arith)
        requires
            0 <= index < 4,
    ;
}

/// The tiles fit together: every corner of every tile lies at the height of
/// the ground above its grid point, which is `s` at the peak and zero
/// elsewhere. So two tiles that meet at a corner agree on its height.
pub proof fn lemma_corner_heights(s: int, index: int, n: int)
    requires
        s > 0,
        0 <= index < 4,
        0 <= n < 4,
    ensures
        ({
            let p = ground_tile(s, index).corners()[n];
            p.y == corner_height(s, p.x, p.z)
        }),
{
}

} // verus!
