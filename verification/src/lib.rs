//! A decoder for the PMX binary model-file format (the 3D character-model
//! format of the MikuMikuDance ecosystem).
//!
//! A PMX file is one tightly packed little-endian byte stream: a header whose
//! "globals" block fixes the string encoding and six index widths for the
//! rest of the file, followed by count-prefixed lists of vertices, faces,
//! textures, materials, bones and morphs.  The decoder reads such a stream in
//! one forward pass and produces an in-memory [`model::Pmx`] value, or a
//! [`error::DecodeError`] describing the first anomaly met.
//!
//! Every numeric field that the format stores as an IEEE-754 `f32` is kept
//! here as its raw 32-bit little-endian bit pattern (`u32`); the decoder
//! never interprets those bits, and a consumer reinterprets them at the edge.

pub mod datablock;
pub mod error;
pub mod globals;
pub mod model;
pub mod morph;
pub mod pmxbone;
pub mod pmxindex;
pub mod pmxmaterial;
pub mod pmxstring;
pub mod reader;
pub mod repeat;
pub mod vecs;
pub mod vertex;
