//! Exact geometry for a small folded ground: four square tiles around a
//! common peak, each split into two triangles, with a texture coordinate for
//! every vertex.
//!
//! Lengths and coordinates are whole numbers of grid units; the caller decides
//! how long a grid unit is. Texture coordinates are kept as exact fractions,
//! so nothing is rounded anywhere in this crate. Each executable type has a
//! mathematical model (its view) over unbounded integers, and the contracts
//! are stated over those models.

pub mod fraction;
pub mod point;
pub mod uv;
pub mod tile;
pub mod ground;
pub mod projection;
pub mod layout;
pub mod mesh;
