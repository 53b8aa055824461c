//! Identifiers and groups of scene items, the CPU-side bookkeeping of GPU
//! buffers, and the extraction of path elements from compiled SVG output.

pub mod items;
pub mod utils;
