//! Decision logic of a physically based ray tracer.
//!
//! Shapes, materials and optics compute in floating point; this library
//! holds the choices that follow from those numbers: which collision a
//! composite shape reports, how a fractal's traversal queue is worked off,
//! when the recursive light sampler stops, and how an image is framed.
//!
//! A distance along a ray enters the library as an order key: an `i64` whose
//! order is the order of the distances it stands for (zero stands for a
//! distance of zero, positive keys for positive distances).
pub mod body;
pub mod csg;
pub mod cuboid;
pub mod fractal;
pub mod material;
pub mod monad;
pub mod scene;
