//! Bookkeeping of a GPU backend for 2D vector drawing: the append-only vertex,
//! index and primitive regions of a frame, the shelf allocator of the image
//! atlas, the byte layout of the records the GPU reads, and the per-frame
//! protocol that ties them together.
pub mod arena;
pub mod atlas;
pub mod config;
pub mod error;
pub mod frame;
pub mod record;
