//! 2D polyline geometry kernel.
//!
//! A polyline is an ordered sequence of vertexes, each carrying a position and
//! a bulge value, together with an open/closed flag. A zero bulge means the
//! segment leaving the vertex is a straight line; a non-zero bulge means it is
//! a circular arc whose included angle and orientation are encoded by the
//! bulge. The kernel offers mutation of the vertex sequence and geometric
//! queries over it: bounding extents, closest point, signed area, path length,
//! winding number, arc linearization and broad-phase spatial index
//! construction.
//!
//! All geometry is generic over an abstract scalar type implementing [`Real`];
//! machine floating point implementations of that trait live outside this
//! library.

pub mod aabb;
pub mod linearize;
pub mod pline_vertex;
pub mod polyline;
pub mod queries;
pub mod scalar;
pub mod seg_math;
pub mod spatial;
pub mod traversal;
pub mod vector2;
pub mod winding;

pub use aabb::AABB;
pub use pline_vertex::PlineVertex;
pub use polyline::Polyline;
pub use queries::ClosestPointResult;
pub use scalar::Real;
pub use spatial::ApproxSpatialIndex;
pub use traversal::PlineSegIndexIterator;
pub use traversal::PlineSegIterator;
pub use vector2::Vector2;
