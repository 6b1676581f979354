use vstd::prelude::*;

use crate::record::{PRIMITIVE_SIZE, VERTEX_SIZE};

verus! {

/// Bytes in one index of the index region.
pub const INDEX_SIZE: u64 = 2;

/// Sizes of the fixed GPU resources of one renderer.
#[derive(Clone, Copy, Debug)]
pub struct Config {
    /// Bytes in the vertex region.
    pub vertex_buffer_size: u64,
    /// Bytes in the index region.
    pub index_buffer_size: u64,
    /// Width of the atlas texture in pixels.
    pub texture_width: u32,
    /// Height of the atlas texture in pixels.
    pub texture_height: u32,
    /// Bytes in the primitive region.
    pub primitve_buffer_size: u64,
}

impl Default for Config {
    /// Room for 1024 vertices, 4096 indices and 512 primitives, and a
    /// 2048 x 512 atlas.
    fn default() -> (r: Config)
        ensures
            r.vertex_buffer_size == VERTEX_SIZE * 1024,
            r.index_buffer_size == INDEX_SIZE * 4096,
            r.texture_width == 2048,
            r.texture_height == 512,
            r.primitve_buffer_size == PRIMITIVE_SIZE * 512,
    {
        Config {
            vertex_buffer_size: VERTEX_SIZE * 1024,
            index_buffer_size: INDEX_SIZE * 4096,
            texture_width: 2048,
            texture_height: 512,
            primitve_buffer_size: PRIMITIVE_SIZE * 512,
        }
    }
}

} // verus!
