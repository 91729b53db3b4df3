//! Decoder for a chunk-structured, optionally gzip-wrapped binary scene
//! format.  A stream is a run of records, each introduced by a 12-byte
//! header (type tag, declared payload size, format version); the decoder
//! walks the records, checks that every payload consumes exactly its
//! declared size, and accumulates the results into a document.

pub mod algebra;
pub mod bsp;
pub mod bounding_box;
pub mod chunk;
pub mod color;
pub mod decode;
