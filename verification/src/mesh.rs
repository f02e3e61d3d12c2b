//! The mesh buffer: the vertices of all triangles in one list, and their
//! texture coordinates in another.

use vstd::prelude::*;
use vstd::math::abs;
use crate::ground::{generate_tile, ground_tile, MapParams, TILE_COUNT};
use crate::point::{Point3, Position};
use crate::tile::{plane_positions_and_uvs, Tile};
use crate::uv::{uv_at, TexCoord, Uv2};

verus! {

/// The number of vertices that one tile adds to a mesh: two triangles.
pub const VERTICES_PER_TILE: usize = 6;

/// The number of vertices of the ground: those of four tiles.
pub const GROUND_VERTICES: usize = 24;

/// The model of a [`MeshBuffer`]: the vertices and their texture coordinates
/// as sequences over unbounded numbers.
pub struct Surface {
    pub vertices: Seq<Position>,
    pub tex_coords: Seq<TexCoord>,
}

/// A list of triangles without an index: every three positions in a row are
/// one triangle, and `uvs[i]` is the texture coordinate of `positions[i]`.
#[derive(Debug, PartialEq, Eq)]
pub struct MeshBuffer {
    pub positions: Vec<Point3>,
    pub uvs: Vec<Uv2>,
}

impl View for MeshBuffer {
    type V = Surface;

    open spec fn view(&self) -> Surface {
        Surface { vertices: self.positions.deep_view(), tex_coords: self.uvs.deep_view() }
    }
}

impl Surface {
    /// Every vertex has its texture coordinate, and the vertices make up
    /// whole triangles.
    pub open spec fn wf(self) -> bool {
        self.vertices.len() == self.tex_coords.len() && self.vertices.len() % 3 == 0
    }
}

/// The vertices of the ground with tile side step `s`: six for each of the
/// four tiles, tile after tile.
pub open spec fn ground_vertices(s: int) -> Seq<Position> {
    Seq::new(24, |i: int| ground_tile(s, i / 6).vertices()[i % 6])
}

/// The texture coordinates of the vertices of the ground.
pub open spec fn ground_tex_coords(s: int, map_side_len: int, min_x: int) -> Seq<TexCoord> {
    Seq::new(24, |i: int| uv_at(ground_vertices(s)[i], map_side_len, min_x))
}

/// The ground as a surface.
pub open spec fn ground_surface(s: int, map_side_len: int, min_x: int) -> Surface {
    Surface {
        vertices: ground_vertices(s),
        tex_coords: ground_tex_coords(s, map_side_len, min_x),
    }
}

impl MeshBuffer {
    /// An empty mesh, with room for the vertices of the ground.
    pub fn new() -> (mesh: MeshBuffer)
        ensures
            mesh@.vertices == Seq::<Position>::empty(),
            mesh@.tex_coords == Seq::<TexCoord>::empty(),
            mesh.positions@.len() == 0,
            mesh.uvs@.len() == 0,
    {
        let mesh = MeshBuffer {
            positions: Vec::with_capacity(GROUND_VERTICES),
            uvs: Vec::with_capacity(GROUND_VERTICES),
        };
        assert(mesh@.vertices =~= Seq::<Position>::empty());
        assert(mesh@.tex_coords =~= Seq::<TexCoord>::empty());
        mesh
    }

    /// Appends the two triangles of `tile`, with the texture coordinates that
    /// their vertices have on a map of side `map_side_len` measured from
    /// `min_x`. What the mesh held stays in place.
    pub fn push_tile(&mut self, tile: &Tile, map_side_len: i32, min_x: i32)
        ensures
            final(self)@.vertices == old(self)@.vertices + tile@.vertices(),
            final(self)@.tex_coords == old(self)@.tex_coords + tile@.tex_coords(
                map_side_len as int,
                min_x as int,
            ),
            final(self).positions@.len() == old(self).positions@.len() + 6,
            final(self).uvs@.len() == old(self).uvs@.len() + 6,
            old(self)@.wf() ==> final(self)@.wf(),
    {
        let (mut positions, mut uvs) = plane_positions_and_uvs(
            tile.a,
            tile.b,
            tile.c,
            tile.d,
            map_side_len,
            min_x,
        );
        let ghost added_vertices = positions.deep_view();
        let ghost added_tex_coords = uvs.deep_view();
        self.positions.append(&mut positions);
        self.uvs.append(&mut uvs);
        assert(self@.vertices =~= old(self)@.vertices + added_vertices);
        assert(self@.tex_coords =~= old(self)@.tex_coords + added_tex_coords);
    }
}

/// The mesh of the ground that `params` describe: 24 vertices and their 24
/// texture coordinates, six for each tile, in the order of the tiles.
pub fn ground_mesh(params: &MapParams) -> (mesh: MeshBuffer)
    ensures
        mesh@ == ground_surface(params.step(), params.side_len(), params.origin()),
        mesh.positions@.len() == 24,
        mesh.uvs@.len() == 24,
        mesh@.wf(),
{
    let map_side_len: i32 = params.map_side_len();
    let min_x: i32 = params.min_x();
    let ghost s = params.step();
    let mut mesh = MeshBuffer::new();
    let mut index: usize = 0;
    while index < TILE_COUNT
        invariant
            index <= TILE_COUNT,
            s == params.step(),
            map_side_len == params.side_len(),
            min_x == params.origin(),
            mesh.positions@.len() == 6 * index,
            mesh.uvs@.len() == 6 * index,
            mesh@.vertices == ground_vertices(s).subrange(0, 6 * index),
            mesh@.tex_coords == ground_tex_coords(s, map_side_len as int, min_x as int).subrange(
                0,
                6 * index,
            ),
        decreases TILE_COUNT - index,
    {
        let tile: Tile = generate_tile(params, index).unwrap();
        mesh.push_tile(&tile, map_side_len, min_x);
        index = index + 1;
        assert(mesh@.vertices =~= ground_vertices(s).subrange(0, 6 * index));
        assert(mesh@.tex_coords =~= ground_tex_coords(
            s,
            map_side_len as int,
            min_x as int,
        ).subrange(0, 6 * index));
    }
    assert(mesh@.vertices =~= ground_vertices(s));
    assert(mesh@.tex_coords =~= ground_tex_coords(s, map_side_len as int, min_x as int));
    mesh
}

/// The ground has 24 vertices and 24 texture coordinates, and each tile holds
/// six of them in a row: its first triangle `a, b, c`, then its second
/// `c, d, a`, so that both triangles share the fold from `a` to `c`.
pub proof fn lemma_ground_tile_by_tile(s: int, map_side_len: int, min_x: int, index: int)
    requires
        0 <= index < 4,
    ensures
        ground_surface(s, map_side_len, min_x).wf(),
        ground_vertices(s).len() == 24,
        ground_tex_coords(s, map_side_len, min_x).len() == 24,
        ground_vertices(s).subrange(6 * index, 6 * index + 6) == ground_tile(s, index).vertices(),
        ground_tex_coords(s, map_side_len, min_x).subrange(6 * index, 6 * index + 6)
            == ground_tile(s, index).tex_coords(map_side_len, min_x),
        ground_vertices(s)[6 * index] == ground_tile(s, index).a,
        ground_vertices(s)[6 * index + 1] == ground_tile(s, index).b,
        ground_vertices(s)[6 * index + 2] == ground_tile(s, index).c,
        ground_vertices(s)[6 * index + 3] == ground_tile(s, index).c,
        ground_vertices(s)[6 * index + 4] == ground_tile(s, index).d,
        ground_vertices(s)[6 * index + 5] == ground_tile(s, index).a,
{
    assert(ground_vertices(s).subrange(6 * index, 6 * index + 6) =~= ground_tile(
        s,
        index,
    ).vertices());
    assert(ground_tex_coords(s, map_side_len, min_x).subrange(6 * index, 6 * index + 6)
        =~= ground_tile(s, index).tex_coords(map_side_len, min_x));
}

/// The texture coordinate of every vertex of the ground follows from where
/// the vertex lies: `u` is `(z + |min_x|) / map_side_len` and `v` is
/// `(x + |min_x|) / map_side_len`, as real numbers.
pub proof fn lemma_ground_uv_values(s: int, map_side_len: int, min_x: int, i: int)
    requires
        0 <= i < 24,
    ensures
        ground_tex_coords(s, map_side_len, min_x)[i].u.value() == (ground_vertices(s)[i].z as real
            + abs(min_x) as real) / (map_side_len as real),
        ground_tex_coords(s, map_side_len, min_x)[i].v.value() == (ground_vertices(s)[i].x as real
            + abs(min_x) as real) / (map_side_len as real),
{
}

/// Building twice gives the same mesh: two meshes with the surface of one
/// ground hold the same positions and the same fractions, entry by entry.
pub proof fn lemma_ground_mesh_is_determined(
    first: MeshBuffer,
    second: MeshBuffer,
    s: int,
    map_side_len: int,
    min_x: int,
)
    requires
        first@ == ground_surface(s, map_side_len, min_x),
        second@ == ground_surface(s, map_side_len, min_x),
    ensures
        first.positions@ == second.positions@,
        first.uvs@ == second.uvs@,
{
    assert(first.positions@.len() == first@.vertices.len());
    assert(second.positions@.len() == second@.vertices.len());
    assert forall|i: int| 0 <= i < first.positions@.len() implies first.positions@[i]
        == second.positions@[i] by {
        assert(first.positions.deep_view()[i] == first.positions@[i].deep_view());
        assert(second.positions.deep_view()[i] == second.positions@[i].deep_view());
        assert(first.positions@[i]@ == second.positions@[i]@);
    }
    assert(first.positions@ =~= second.positions@);
    assert(first.uvs@.len() == first@.tex_coords.len());
    assert(second.uvs@.len() == second@.tex_coords.len());
    assert forall|i: int| 0 <= i < first.uvs@.len() implies first.uvs@[i] == second.uvs@[i] by {
        assert(first.uvs.deep_view()[i] == first.uvs@[i].deep_view());
        assert(second.uvs.deep_view()[i] == second.uvs@[i].deep_view());
        assert(first.uvs@[i]@ == second.uvs@[i]@);
    }
    assert(first.uvs@ =~= second.uvs@);
}

} // verus!
