//! Scene assembly, GPU-layout packing, acceleration-structure checking and
//! frame sequencing for a compute-shader ray tracer.
//!
//! Every floating-point quantity that the scene carries (positions, normals,
//! texture coordinates, colours, bounds) is held here as its IEEE-754 bit
//! pattern in a `u32`. The library never does arithmetic on those values: it
//! moves, packs and checks them, and the decoders and the GPU read them as
//! `f32`.
//!
//! - `geometry`: triangles, spheres, materials and their GPU records.
//! - `model`, `obj`: turning decoded mesh files into triangles with ids.
//! - `assembly`: merging every source into one index-consistent scene.
//! - `bvh`: the flattened hierarchy, its validation and its GPU records.
//! - `binding`, `pipeline`: binding-set declarations and their layouts.
//! - `camera`, `frame`: camera uniforms, input, and the per-frame sequence.
//! - `config`, `shader`: configuration sections and shader parameters.

pub mod assembly;
pub mod binding;
pub mod bvh;
pub mod camera;
pub mod config;
pub mod frame;
pub mod geometry;
pub mod model;
pub mod obj;
pub mod pipeline;
pub mod shader;
