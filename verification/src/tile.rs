//! One tile: four corners, two triangles.

use vstd::prelude::*;
use crate::point::{Point3, Position};
use crate::uv::{get_uv, uv_at, TexCoord, Uv2};

verus! {

/// The model of a [`Tile`]: four corners with unbounded coordinates.
pub struct Quad {
    pub a: Position,
    pub b: Position,
    pub c: Position,
    pub d: Position,
}

/// Four corners, named so that `a`, `b`, `c` make the first triangle and
/// `c`, `d`, `a` the second. The two triangles meet along the diagonal from
/// `a` to `c`, the fold of the tile. The corners need not lie in one plane.
#[derive(Clone, Copy, Debug, PartialEq, Eq, Structural)]
pub struct Tile {
    pub a: Point3,
    pub b: Point3,
    pub c: Point3,
    pub d: Point3,
}

impl View for Tile {
    type V = Quad;

    open spec fn view(&self) -> Quad {
        Quad { a: self.a@, b: self.b@, c: self.c@, d: self.d@ }
    }
}

impl DeepView for Tile {
    type V = Quad;

    open spec fn deep_view(&self) -> Quad {
        self@
    }
}

impl Quad {
    /// The six vertices of the two triangles, in the order in which they are
    /// emitted: `a, b, c` and then `c, d, a`.
    pub open spec fn vertices(self) -> Seq<Position> {
        seq![self.a, self.b, self.c, self.c, self.d, self.a]
    }

    /// The texture coordinates of the six vertices, in the same order.
    pub open spec fn tex_coords(self, map_side_len: int, min_x: int) -> Seq<TexCoord> {
        seq![
            uv_at(self.a, map_side_len, min_x),
            uv_at(self.b, map_side_len, min_x),
            uv_at(self.c, map_side_len, min_x),
            uv_at(self.c, map_side_len, min_x),
            uv_at(self.d, map_side_len, min_x),
            uv_at(self.a, map_side_len, min_x),
        ]
    }

    /// The same four points with the names moved on by one: what was `b` is
    /// now `a`, and so on round. This turns the fold to the other diagonal.
    pub open spec fn rotated(self) -> Quad {
        Quad { a: self.b, b: self.c, c: self.d, d: self.a }
    }
}

impl Tile {
    /// The same four points with the names moved on by one: what was `b` is
    /// now `a`, and so on round.
    pub fn rotated(&self) -> (r: Tile)
        ensures
            r@ == self@.rotated(),
    {
        Tile { a: self.b, b: self.c, c: self.d, d: self.a }
    }
}

/// The vertex positions and texture coordinates of the two triangles of the
/// tile with corners `a`, `b`, `c`, `d`: six of each, vertex `i` belonging to
/// texture coordinate `i`. The first triangle is `a, b, c`, the second
/// `c, d, a`; the order within each fixes which way the triangle faces.
pub fn plane_positions_and_uvs(
    a: Point3,
    b: Point3,
    c: Point3,
    d: Point3,
    map_side_len: i32,
    min_x: i32,
) -> (out: (Vec<Point3>, Vec<Uv2>))
    ensures
        out.0@ == seq![a, b, c, c, d, a],
        out.0.deep_view() == (Quad { a: a@, b: b@, c: c@, d: d@ }).vertices(),
        out.1.deep_view() == (Quad { a: a@, b: b@, c: c@, d: d@ }).tex_coords(
            map_side_len as int,
            min_x as int,
        ),
        out.0@.len() == 6,
        out.1@.len() == 6,
        forall|i: int|
            0 <= i < 6 ==> (#[trigger] out.1@[i])@ == uv_at(
                out.0@[i]@,
                map_side_len as int,
                min_x as int,
            ),
{
    let mut positions: Vec<Point3> = Vec::with_capacity(6);
    let mut uvs: Vec<Uv2> = Vec::with_capacity(6);

    positions.push(a);
    uvs.push(get_uv(a.x, a.z, map_side_len, min_x));

    positions.push(b);
    uvs.push(get_uv(b.x, b.z, map_side_len, min_x));

    positions.push(c);
    uvs.push(get_uv(c.x, c.z, map_side_len, min_x));

    positions.push(c);
    uvs.push(get_uv(c.x, c.z, map_side_len, min_x));

    positions.push(d);
    uvs.push(get_uv(d.x, d.z, map_side_len, min_x));

    positions.push(a);
    uvs.push(get_uv(a.x, a.z, map_side_len, min_x));

    (positions, uvs)
}

} // verus!
