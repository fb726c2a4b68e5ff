//! Discrete core of a Monte Carlo ray tracer.
//!
//! The renderer itself works on `f64` vectors, which this library cannot
//! hold; what stands here is the discrete logic the renderer is built
//! on: axis index maps and value placement for axis-aligned quads and
//! rotations, the face plan of the box composite, texel addressing for
//! image textures, index-triple assembly for triangle meshes, the
//! permutation tables behind lattice noise, the shape of the bounding
//! volume hierarchy, the integrator's bounce decisions, and scene
//! selection.

pub mod axis;
pub mod bvh;
pub mod cube;
pub mod integrator;
pub mod mesh;
pub mod perlin;
pub mod scene;
pub mod texture;
