//! Points of the grid.

use vstd::prelude::*;

verus! {

/// The model of a [`Point3`]: a point with unbounded integer coordinates,
/// counted in grid units.
pub struct Position {
    pub x: int,
    pub y: int,
    pub z: int,
}

/// A vertex position, in grid units. `y` is the height.
#[derive(Clone, Copy, Debug, PartialEq, Eq, Structural)]
pub struct Point3 {
    pub x: i32,
    pub y: i32,
    pub z: i32,
}

impl View for Point3 {
    type V = Position;

    open spec fn view(&self) -> Position {
        Position { x: self.x as int, y: self.y as int, z: self.z as int }
    }
}

impl DeepView for Point3 {
    type V = Position;

    open spec fn deep_view(&self) -> Position {
        self@
    }
}

impl Position {
    /// The point moved by `dx`, `dy` and `dz` along the three axes.
    pub open spec fn moved(self, dx: int, dy: int, dz: int) -> Position {
        Position { x: self.x + dx, y: self.y + dy, z: self.z + dz }
    }
}

} // verus!
