//! A 2D map editor core: an open polyline of boundary points, a collection of
//! closed polygon holes, and the input state machine that grows them, together
//! with persistence of the hole collection.

pub mod geometry;
pub mod input;
pub mod persist;

pub use geometry::GeometryStore;
pub use geometry::Point;
