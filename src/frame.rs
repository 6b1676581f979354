//! The per-frame protocol of the renderer: draw calls are recorded into the
//! arena and the atlas, and `finish` hands one indexed draw over everything
//! recorded to the presentation layer.
use vstd::prelude::*;

use crate::arena::{
    slots, ArenaModel, BufferArena, Mesh, MAX_INDEXED_VERTICES, MAX_INDICES, MAX_PRIMITIVES,
};
use crate::atlas::{AtlasModel, AtlasRect, BufferLayout2D};
use crate::config::{Config, INDEX_SIZE};
use crate::error::{PietWgpuError, Region};
use crate::record::{
    halves_le, primitive_bytes_of, vertex_bytes_of, Primitive, Vertex, PRIMITIVE_SIZE, VERTEX_SIZE,
};

verus! {

/// Bit pattern of the `f64` value `1.0`.
pub const ONE_BITS_F64: u64 = 0x3FF0_0000_0000_0000;

/// Where a frame stands.
#[derive(Clone, Copy, Debug, PartialEq, Eq, Structural)]
pub enum Phase {
    /// Draw calls are being accepted; what was recorded has not been presented.
    Recording,
    /// What was recorded has been presented.
    Submitted,
}

/// A color as the bit patterns of four `f64` components.
#[derive(Clone, Copy, Debug, PartialEq, Eq, Structural)]
pub struct ClearColor {
    pub r: u64,
    pub g: u64,
    pub b: u64,
    pub a: u64,
}

/// The abstract state of a renderer between frames.
pub ghost struct FrameModel {
    pub arena: ArenaModel,
    pub atlas: AtlasModel,
    pub width: u32,
    pub height: u32,
    /// Bit pattern of the `f32` scale factor.
    pub scale_bits: u32,
    pub clear_color: ClearColor,
    pub phase: Phase,
    /// The presentation surface must be configured to `width x height` before
    /// the next frame is presented.
    pub surface_stale: bool,
}

impl FrameModel {
    pub open spec fn wf(self) -> bool {
        self.arena.wf() && self.atlas.wf()
    }

    /// The state after the canvas was set to `w x h`: unchanged when it
    /// already has that size.
    pub open spec fn resized(self, w: u32, h: u32) -> FrameModel {
        if w == self.width && h == self.height {
            self
        } else {
            FrameModel { width: w, height: h, surface_stale: true, ..self }
        }
    }

    /// The state after `clear_all`: empty regions, a free atlas, the new
    /// clear color, and recording again.
    pub open spec fn cleared(self, color: ClearColor) -> FrameModel {
        FrameModel {
            arena: self.arena.cleared(),
            atlas: AtlasModel {
                cursor_x: 0,
                shelf_y: 0,
                shelf_height: 0,
                rects: Seq::empty(),
                ..self.atlas
            },
            clear_color: color,
            phase: Phase::Recording,
            ..self
        }
    }

    /// Indices that the next frame draws.
    pub open spec fn draw_count(self) -> int {
        self.arena.indices.len() as int
    }

    /// What filling a mesh of `nv` vertices and `ni` indices returns. A mesh
    /// without triangles is no draw call at all.
    pub open spec fn fill_result(self, nv: int, ni: int) -> Result<(), PietWgpuError> {
        if ni == 0 {
            Ok(())
        } else {
            match self.arena.draw_shortfall(nv, ni) {
                Some(region) => Err(PietWgpuError::CapacityExceeded(region)),
                None => Ok(()),
            }
        }
    }

    /// The state after filling the mesh with the record.
    pub open spec fn filled(self, vs: Seq<Vertex>, is: Seq<u16>, p: Primitive) -> FrameModel {
        if self.fill_result(vs.len() as int, is.len() as int) is Ok && is.len() > 0 {
            FrameModel {
                arena: self.arena.with_primitive(p).with_mesh(vs, is),
                phase: Phase::Recording,
                ..self
            }
        } else {
            self
        }
    }

    /// What drawing an image of `w x h` pixels over a mesh of `nv` vertices
    /// and `ni` indices returns: its atlas rectangle, `None` for an empty
    /// image or mesh, or the first region that lacks room, the primitive
    /// region first, then the atlas, then the vertex and index regions.
    pub open spec fn image_result(self, w: int, h: int, nv: int, ni: int) -> Result<
        Option<AtlasRect>,
        PietWgpuError,
    > {
        if w == 0 || h == 0 || ni == 0 {
            Ok(None)
        } else if self.arena.primitives.len() + 1 > self.arena.primitive_capacity {
            Err(PietWgpuError::CapacityExceeded(Region::Primitive))
        } else if self.atlas.place(w, h) is None {
            Err(PietWgpuError::CapacityExceeded(Region::Atlas))
        } else {
            match self.arena.mesh_shortfall(nv, ni) {
                Some(region) => Err(PietWgpuError::CapacityExceeded(region)),
                None => Ok(self.atlas.place(w, h)),
            }
        }
    }

    /// The state after drawing the image.
    pub open spec fn image_drawn(
        self,
        w: int,
        h: int,
        vs: Seq<Vertex>,
        is: Seq<u16>,
        p: Primitive,
    ) -> FrameModel {
        match self.image_result(w, h, vs.len() as int, is.len() as int) {
            Ok(Some(_)) => FrameModel {
                arena: self.arena.with_primitive(p).with_mesh(vs, is),
                atlas: self.atlas.allocate(w, h),
                phase: Phase::Recording,
                ..self
            },
            _ => self,
        }
    }
}

/// Setting the same size twice leaves the renderer as setting it once does.
pub proof fn lemma_set_size_idempotent(f: FrameModel, w: u32, h: u32)
    ensures
        f.resized(w, h).resized(w, h) == f.resized(w, h),
{
}

/// After `clear_all`, whatever was drawn before, all three cursors are zero and
/// the next frame draws nothing.
pub proof fn lemma_clear_all_empties(f: FrameModel, color: ClearColor)
    requires
        f.wf(),
    ensures
        f.cleared(color).wf(),
        f.cleared(color).arena.vertices.len() == 0,
        f.cleared(color).arena.indices.len() == 0,
        f.cleared(color).arena.primitives.len() == 0,
        f.cleared(color).draw_count() == 0,
{
}

/// An image wider or taller than the atlas is refused as exceeding a capacity,
/// and leaves the renderer as it was.
pub proof fn lemma_oversize_image_refused(
    f: FrameModel,
    w: int,
    h: int,
    vs: Seq<Vertex>,
    is: Seq<u16>,
    p: Primitive,
)
    requires
        f.wf(),
        w > 0,
        h > 0,
        is.len() > 0,
        w > f.atlas.width || h > f.atlas.height,
    ensures
        f.image_result(w, h, vs.len() as int, is.len() as int) is Err,
        f.image_result(w, h, vs.len() as int, is.len() as int)->Err_0 is CapacityExceeded,
        f.image_drawn(w, h, vs, is, p) == f,
{
}

/// What `finish` hands to the presentation layer: the surface size when it
/// must be configured first, the globals, the clear color, the three regions
/// as bytes, and how many indices to draw.
pub struct FramePlan {
    pub reconfigure: Option<(u32, u32)>,
    pub width: u32,
    pub height: u32,
    pub scale_bits: u32,
    pub clear_color: ClearColor,
    pub vertex_bytes: Vec<u8>,
    pub index_bytes: Vec<u8>,
    pub primitive_bytes: Vec<u8>,
    pub index_count: u32,
}

/// The state of one renderer: its regions, its atlas, the canvas size and the
/// frame's phase.
pub struct FrameRecorder {
    arena: BufferArena,
    atlas: BufferLayout2D,
    width: u32,
    height: u32,
    scale_bits: u32,
    clear_color: ClearColor,
    phase: Phase,
    surface_stale: bool,
}

impl View for FrameRecorder {
    type V = FrameModel;

    closed spec fn view(&self) -> FrameModel {
        FrameModel {
            arena: self.arena@,
            atlas: self.atlas@,
            width: self.width,
            height: self.height,
            scale_bits: self.scale_bits,
            clear_color: self.clear_color,
            phase: self.phase,
            surface_stale: self.surface_stale,
        }
    }
}

impl FrameRecorder {
    /// A renderer with empty regions and a free atlas sized by `config`, a
    /// canvas of `width x height` whose surface is yet to be configured, and a
    /// white clear color.
    pub fn new(config: &Config, width: u32, height: u32, scale_bits: u32) -> (r: FrameRecorder)
        ensures
            r@.wf(),
            r@.arena.vertices.len() == 0,
            r@.arena.indices.len() == 0,
            r@.arena.primitives.len() == 0,
            r@.arena.vertex_capacity == slots(
                config.vertex_buffer_size,
                VERTEX_SIZE,
                MAX_INDEXED_VERTICES,
            ),
            r@.arena.index_capacity == slots(config.index_buffer_size, INDEX_SIZE, MAX_INDICES),
            r@.arena.primitive_capacity == slots(
                config.primitve_buffer_size,
                PRIMITIVE_SIZE,
                MAX_PRIMITIVES,
            ),
            r@.atlas.rects.len() == 0,
            r@.atlas.cursor_x == 0,
            r@.atlas.shelf_y == 0,
            r@.atlas.shelf_height == 0,
            r@.atlas.width == config.texture_width,
            r@.atlas.height == config.texture_height,
            r@.width == width,
            r@.height == height,
            r@.scale_bits == scale_bits,
            r@.clear_color == (ClearColor {
                r: ONE_BITS_F64,
                g: ONE_BITS_F64,
                b: ONE_BITS_F64,
                a: ONE_BITS_F64,
            }),
            r@.phase == Phase::Recording,
            r@.surface_stale,
    {
        FrameRecorder {
            arena: BufferArena::new(config),
            atlas: BufferLayout2D::new(config),
            width,
            height,
            scale_bits,
            clear_color: ClearColor { r: ONE_BITS_F64, g: ONE_BITS_F64, b: ONE_BITS_F64, a: ONE_BITS_F64 },
            phase: Phase::Recording,
            surface_stale: true,
        }
    }

    /// The regions.
    pub fn arena(&self) -> (r: &BufferArena)
        ensures
            r@ == self@.arena,
    {
        &self.arena
    }

    /// The atlas allocator.
    pub fn atlas(&self) -> (r: &BufferLayout2D)
        ensures
            r@ == self@.atlas,
    {
        &self.atlas
    }

    pub fn phase(&self) -> (r: Phase)
        ensures
            r == self@.phase,
    {
        self.phase
    }

    /// The slot that the next draw call's record takes; the tessellator stamps
    /// the call's vertices with it.
    pub fn next_prim_index(&self) -> (r: u32)
        requires
            self@.wf(),
        ensures
            r == self@.arena.primitives.len(),
    {
        self.arena.primitive_count()
    }

    /// Sets the canvas size; the surface is configured to it before the next
    /// frame is presented. Setting the current size changes nothing.
    pub fn set_size(&mut self, width: u32, height: u32)
        ensures
            final(self)@ == old(self)@.resized(width, height),
    {
        if width != self.width || height != self.height {
            self.width = width;
            self.height = height;
            self.surface_stale = true;
        }
    }

    /// Stores the scale factor that the globals carry; geometry is unaffected.
    pub fn set_scale(&mut self, scale_bits: u32)
        ensures
            final(self)@ == (FrameModel { scale_bits, ..old(self)@ }),
    {
        self.scale_bits = scale_bits;
    }

    /// Records a filled shape: its record and its tessellated mesh, whose
    /// vertices carry the next slot. A mesh without triangles records nothing.
    /// Fails, recording nothing, when a region lacks room.
    pub fn fill(&mut self, mesh: &Mesh, primitive: Primitive) -> (r: Result<(), PietWgpuError>)
        requires
            old(self)@.wf(),
            mesh.wf_for(old(self)@.arena.primitives.len() as int),
        ensures
            final(self)@.wf(),
            r == old(self)@.fill_result(mesh.vertices@.len() as int, mesh.indices@.len() as int),
            final(self)@ == old(self)@.filled(mesh.vertices@, mesh.indices@, primitive),
    {
        if mesh.indices.len() == 0 {
            return Ok(());
        }
        match self.arena.append_draw(mesh, primitive) {
            Ok(()) => {
                self.phase = Phase::Recording;
                Ok(())
            },
            Err(e) => Err(e),
        }
    }

    /// Where an image of `width x height` pixels would be placed in the atlas;
    /// its record's texture coordinates are taken from this rectangle.
    pub fn image_slot(&self, width: u32, height: u32) -> (r: Option<AtlasRect>)
        requires
            self@.wf(),
        ensures
            r == self@.atlas.place(width as int, height as int),
    {
        self.atlas.search(width, height)
    }

    /// Records an image of `width x height` pixels drawn over the mesh: places
    /// it in the atlas, then records the record and the mesh. Returns the atlas
    /// rectangle, into which the pixels are to be written; `None`, recording
    /// nothing, for an empty image or mesh. Fails, recording nothing and
    /// placing nothing, when the atlas or a region lacks room.
    pub fn draw_image(&mut self, width: u32, height: u32, mesh: &Mesh, primitive: Primitive) -> (r:
        Result<Option<AtlasRect>, PietWgpuError>)
        requires
            old(self)@.wf(),
            mesh.wf_for(old(self)@.arena.primitives.len() as int),
        ensures
            final(self)@.wf(),
            r == old(self)@.image_result(
                width as int,
                height as int,
                mesh.vertices@.len() as int,
                mesh.indices@.len() as int,
            ),
            final(self)@ == old(self)@.image_drawn(
                width as int,
                height as int,
                mesh.vertices@,
                mesh.indices@,
                primitive,
            ),
    {
        if width == 0 || height == 0 || mesh.indices.len() == 0 {
            return Ok(None);
        }
        if self.arena.primitive_count() as u64 >= self.arena.primitive_capacity() {
            return Err(PietWgpuError::CapacityExceeded(Region::Primitive));
        }
        match self.atlas.search(width, height) {
            None => Err(PietWgpuError::CapacityExceeded(Region::Atlas)),
            Some(_) => {
                match self.arena.append_draw(mesh, primitive) {
                    Err(e) => Err(e),
                    Ok(()) => {
                        let placed = self.atlas.search_and_allocate(width, height);
                        self.phase = Phase::Recording;
                        Ok(placed)
                    },
                }
            },
        }
    }

    /// Starts an empty frame: resets all cursors, frees the atlas and stores
    /// the color that the next frame is cleared to.
    pub fn clear_all(&mut self, color: ClearColor)
        requires
            old(self)@.wf(),
        ensures
            final(self)@.wf(),
            final(self)@ == old(self)@.cleared(color),
    {
        self.arena.clear();
        self.atlas.reset();
        self.clear_color = color;
        self.phase = Phase::Recording;
    }

    /// What the presentation layer needs to draw the frame: one indexed draw
    /// over every index recorded, after configuring the surface if its size
    /// changed.
    pub fn frame_plan(&self) -> (r: FramePlan)
        requires
            self@.wf(),
        ensures
            r.reconfigure == (if self@.surface_stale {
                Some((self@.width, self@.height))
            } else {
                None
            }),
            r.width == self@.width,
            r.height == self@.height,
            r.scale_bits == self@.scale_bits,
            r.clear_color == self@.clear_color,
            r.vertex_bytes@ == vertex_bytes_of(self@.arena.vertices),
            r.index_bytes@ == halves_le(self@.arena.indices),
            r.primitive_bytes@ == primitive_bytes_of(self@.arena.primitives),
            r.index_count == self@.draw_count(),
    {
        let count = self.arena.index_count();
        FramePlan {
            reconfigure: if self.surface_stale {
                Some((self.width, self.height))
            } else {
                None
            },
            width: self.width,
            height: self.height,
            scale_bits: self.scale_bits,
            clear_color: self.clear_color,
            vertex_bytes: self.arena.vertex_bytes(),
            index_bytes: self.arena.index_bytes(),
            primitive_bytes: self.arena.primitive_bytes(),
            index_count: count as u32,
        }
    }

    /// Records that the frame of `frame_plan` was presented: the surface is
    /// configured and the frame is submitted. The recorded contents stay, so
    /// that the frame can be presented again.
    pub fn presented(&mut self)
        ensures
            final(self)@ == (FrameModel {
                phase: Phase::Submitted,
                surface_stale: false,
                ..old(self)@
            }),
    {
        self.phase = Phase::Submitted;
        self.surface_stale = false;
    }
}

} // verus!
