//! A code-generation backend for the WebAssembly Component Model: given a
//! resolved interface-type graph bound into a world, it emits Pascal source
//! implementing the Canonical ABI, the calling convention that lets a
//! WebAssembly core module exchange high-level values with its host across a
//! raw `i32`/`i64`/`f32`/`f64` boundary.

pub mod bindgen;
pub mod casts;
pub mod classify;
pub mod err;
pub mod gen;
pub mod ident;
pub mod names;
pub mod sig;
pub mod source;
pub mod text;
pub mod tyname;
pub mod waitable;
pub mod wit;
pub mod world;
pub mod worldgen;
