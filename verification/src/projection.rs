//! The ground seen from above: where triangles and tiles lie in the x/z
//! plane, which way they face, and whether a tile is flat.

use vstd::prelude::*;
use crate::point::Position;
use crate::tile::Quad;

verus! {

/// Which side of the line from `p` through `q` the point at `x` and `z`
/// lies on, seen from above: zero on the line, and of opposite signs on its
/// two sides.
pub open spec fn side(p: Position, q: Position, x: real, z: real) -> real {
    (q.z - p.z) as real * (x - p.x as real) - (q.x - p.x) as real * (z - p.z as real)
}

/// Three vertices in the order in which they are emitted.
pub struct Triangle {
    pub p: Position,
    pub q: Position,
    pub r: Position,
}

impl Triangle {
    /// Whether the triangle, seen from above, holds the point at `x` and `z`,
    /// its edges included.
    pub open spec fn covers(self, x: real, z: real) -> bool {
        let e1 = side(self.p, self.q, x, z);
        let e2 = side(self.q, self.r, x, z);
        let e3 = side(self.r, self.p, x, z);
        let zero = 0 as real;
        (e1 >= zero && e2 >= zero && e3 >= zero) || (e1 <= zero && e2 <= zero && e3 <= zero)
    }

    /// Whether the point at `x` and `z` lies inside the triangle seen from
    /// above, and not on one of its edges.
    pub open spec fn covers_strictly(self, x: real, z: real) -> bool {
        let e1 = side(self.p, self.q, x, z);
        let e2 = side(self.q, self.r, x, z);
        let e3 = side(self.r, self.p, x, z);
        let zero = 0 as real;
        (e1 > zero && e2 > zero && e3 > zero) || (e1 < zero && e2 < zero && e3 < zero)
    }

    /// The height component of the cross product of the edges `p q` and
    /// `p r`: twice the area that the triangle covers seen from above,
    /// positive where the order of the vertices makes it face upward.
    pub open spec fn upward(self) -> int {
        (self.q.z - self.p.z) * (self.r.x - self.p.x) - (self.q.x - self.p.x) * (self.r.z
            - self.p.z)
    }
}

/// Whether the square with least corner at `x0` and `z0` and the given side
/// holds the point at `x` and `z`, its edges included.
pub open spec fn square_covers(x0: int, z0: int, side: int, x: real, z: real) -> bool {
    x0 as real <= x <= (x0 + side) as real && z0 as real <= z <= (z0 + side) as real
}

/// Whether the point at `x` and `z` lies inside the square, and not on one of
/// its edges.
pub open spec fn square_covers_strictly(x0: int, z0: int, side: int, x: real, z: real) -> bool {
    (x0 as real) < x < (x0 + side) as real && (z0 as real) < z < (z0 + side) as real
}

impl Quad {
    /// The first triangle of the tile: `a, b, c`.
    pub open spec fn first(self) -> Triangle {
        Triangle { p: self.a, q: self.b, r: self.c }
    }

    /// The second triangle of the tile: `c, d, a`.
    pub open spec fn second(self) -> Triangle {
        Triangle { p: self.c, q: self.d, r: self.a }
    }

    /// Whether one of the two triangles of the tile, seen from above, holds
    /// the point at `x` and `z`.
    pub open spec fn covers(self, x: real, z: real) -> bool {
        self.first().covers(x, z) || self.second().covers(x, z)
    }

    /// Six times the volume of the tetrahedron that the four corners span,
    /// with a sign.
    pub open spec fn volume(self) -> int {
        let (ux, uy, uz) = (self.b.x - self.a.x, self.b.y - self.a.y, self.b.z - self.a.z);
        let (vx, vy, vz) = (self.c.x - self.a.x, self.c.y - self.a.y, self.c.z - self.a.z);
        let (wx, wy, wz) = (self.d.x - self.a.x, self.d.y - self.a.y, self.d.z - self.a.z);
        ux * (vy * wz - vz * wy) - uy * (vx * wz - vz * wx) + uz * (vx * wy - vy * wx)
    }

    /// Whether the four corners lie in one plane.
    pub open spec fn is_flat(self) -> bool {
        self.volume() == 0
    }

    /// Whether the folds of two tiles, seen from above, run at right angles
    /// to each other.
    pub open spec fn fold_crosses(self, other: Quad) -> bool {
        (self.c.x - self.a.x) * (other.c.x - other.a.x) + (self.c.z - self.a.z) * (other.c.z
            - other.a.z) == 0
    }

    /// The four corners, in the order of their names.
    pub open spec fn corners(self) -> Seq<Position> {
        seq![self.a, self.b, self.c, self.d]
    }
}

} // verus!
