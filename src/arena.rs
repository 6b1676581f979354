//! The three append-only GPU regions of one frame: vertices, indices and
//! primitive records. Each region has a fixed capacity and a write cursor;
//! nothing is ever reallocated, and all cursors go back to zero together.
use vstd::prelude::*;

use crate::config::{Config, INDEX_SIZE};
use crate::error::{PietWgpuError, Region};
use crate::record::{
    halves_le, index_bytes, primitive_bytes, primitive_bytes_of, vertex_bytes, vertex_bytes_of,
    Primitive, Vertex, PRIMITIVE_SIZE, VERTEX_SIZE,
};

verus! {

/// Vertices that a 16-bit index can reach.
pub const MAX_INDEXED_VERTICES: u64 = 65536;

/// Indices that one 32-bit draw range can cover.
pub const MAX_INDICES: u64 = 0xFFFF_FFFF;

/// Primitive slots that a 32-bit slot number can name.
pub const MAX_PRIMITIVES: u64 = 0xFFFF_FFFF;

/// A tessellated draw call: a vertex list and a triangle list of 16-bit
/// indices into it.
#[derive(Clone, Debug)]
pub struct Mesh {
    pub vertices: Vec<Vertex>,
    pub indices: Vec<u16>,
}

/// Every index refers to a vertex of the list.
pub open spec fn indices_in_range(vertices: Seq<Vertex>, indices: Seq<u16>) -> bool {
    forall|i: int| 0 <= i < indices.len() ==> (#[trigger] indices[i] as int) < vertices.len()
}

/// Every vertex carries the primitive slot `slot`.
pub open spec fn stamped(vertices: Seq<Vertex>, slot: int) -> bool {
    forall|i: int| 0 <= i < vertices.len() ==> (#[trigger] vertices[i]).prim_index == slot
}

/// Each index moved up by `base`, so that it refers to the same vertex once the
/// mesh sits after `base` earlier vertices.
pub open spec fn biased(indices: Seq<u16>, base: int) -> Seq<u16> {
    Seq::new(indices.len(), |i: int| (indices[i] + base) as u16)
}

impl Mesh {
    pub open spec fn wf_for(&self, slot: int) -> bool {
        indices_in_range(self.vertices@, self.indices@) && stamped(self.vertices@, slot)
    }

    /// Whether every index refers to a vertex of the mesh and every vertex
    /// carries the slot `slot`.
    pub fn is_valid_for(&self, slot: u32) -> (r: bool)
        ensures
            r == self.wf_for(slot as int),
    {
        let n = self.vertices.len();
        let mut i: usize = 0;
        while i < self.indices.len()
            invariant
                i <= self.indices@.len(),
                n == self.vertices@.len(),
                forall|k: int| 0 <= k < i ==> (#[trigger] self.indices@[k] as int) < n,
            decreases self.indices@.len() - i,
        {
            if self.indices[i] as usize >= n {
                return false;
            }
            i = i + 1;
        }
        let mut j: usize = 0;
        while j < n
            invariant
                j <= n,
                n == self.vertices@.len(),
                indices_in_range(self.vertices@, self.indices@),
                forall|k: int| 0 <= k < j ==> (#[trigger] self.vertices@[k]).prim_index == slot,
            decreases n - j,
        {
            if self.vertices[j].prim_index != slot {
                return false;
            }
            j = j + 1;
        }
        true
    }
}

/// The abstract contents of the three regions.
pub ghost struct ArenaModel {
    pub vertices: Seq<Vertex>,
    pub indices: Seq<u16>,
    pub primitives: Seq<Primitive>,
    /// Vertex slots in the vertex region.
    pub vertex_capacity: int,
    /// Index slots in the index region.
    pub index_capacity: int,
    /// Record slots in the primitive region.
    pub primitive_capacity: int,
}

impl ArenaModel {
    pub open spec fn wf(self) -> bool {
        &&& 0 <= self.vertex_capacity <= MAX_INDEXED_VERTICES
        &&& 0 <= self.index_capacity <= MAX_INDICES
        &&& 0 <= self.primitive_capacity <= MAX_PRIMITIVES
        &&& self.vertices.len() <= self.vertex_capacity
        &&& self.indices.len() <= self.index_capacity
        &&& self.primitives.len() <= self.primitive_capacity
        &&& indices_in_range(self.vertices, self.indices)
        &&& forall|i: int|
            0 <= i < self.vertices.len() ==> (#[trigger] self.vertices[i]).prim_index
                < self.primitives.len()
    }

    /// The region that lacks room for `nv` more vertices and `ni` more
    /// indices, the vertex region first; `None` when both fit.
    pub open spec fn mesh_shortfall(self, nv: int, ni: int) -> Option<Region> {
        if self.vertices.len() + nv > self.vertex_capacity {
            Some(Region::Vertex)
        } else if self.indices.len() + ni > self.index_capacity {
            Some(Region::Index)
        } else {
            None
        }
    }

    /// A draw call of `nv` vertices and `ni` indices lacks room: the primitive
    /// region first, then as `mesh_shortfall` says.
    pub open spec fn draw_shortfall(self, nv: int, ni: int) -> Option<Region> {
        if self.primitives.len() + 1 > self.primitive_capacity {
            Some(Region::Primitive)
        } else {
            self.mesh_shortfall(nv, ni)
        }
    }

    /// The contents after the mesh was copied in at the cursors.
    pub open spec fn with_mesh(self, vertices: Seq<Vertex>, indices: Seq<u16>) -> ArenaModel {
        ArenaModel {
            vertices: self.vertices + vertices,
            indices: self.indices + biased(indices, self.vertices.len() as int),
            ..self
        }
    }

    /// The contents after the record was copied in at the cursor.
    pub open spec fn with_primitive(self, p: Primitive) -> ArenaModel {
        ArenaModel { primitives: self.primitives.push(p), ..self }
    }

    /// All three regions empty, capacities kept.
    pub open spec fn cleared(self) -> ArenaModel {
        ArenaModel {
            vertices: Seq::empty(),
            indices: Seq::empty(),
            primitives: Seq::empty(),
            ..self
        }
    }
}

/// Copying a mesh whose indices refer to its own vertices, and whose vertices
/// name existing records, keeps every index of the index region below the
/// number of vertices in the vertex region.
pub proof fn lemma_with_mesh_wf(a: ArenaModel, vs: Seq<Vertex>, is: Seq<u16>)
    requires
        a.wf(),
        a.mesh_shortfall(vs.len() as int, is.len() as int) is None,
        indices_in_range(vs, is),
        forall|i: int| 0 <= i < vs.len() ==> (#[trigger] vs[i]).prim_index < a.primitives.len(),
    ensures
        a.with_mesh(vs, is).wf(),
        forall|i: int|
            0 <= i < is.len() ==> a.with_mesh(vs, is).indices[a.indices.len() + i] as int
                == is[i] as int + a.vertices.len(),
{
    let n = a.with_mesh(vs, is);
    let base = a.vertices.len() as int;
    assert forall|i: int| 0 <= i < is.len() implies (#[trigger] biased(is, base)[i]) as int
        == is[i] as int + base by {
        assert(is[i] as int + base < MAX_INDEXED_VERTICES);
    }
    assert forall|i: int| 0 <= i < n.indices.len() implies (#[trigger] n.indices[i] as int)
        < n.vertices.len() by {
        if i >= a.indices.len() {
            assert(n.indices[i] == biased(is, base)[i - a.indices.len()]);
        }
    }
    assert forall|i: int| 0 <= i < n.vertices.len() implies (#[trigger] n.vertices[i]).prim_index
        < n.primitives.len() by {
        if i >= base {
            assert(n.vertices[i] == vs[i - base]);
        }
    }
    assert forall|i: int| 0 <= i < is.len() implies n.indices[a.indices.len() + i] as int == is[i]
        as int + base by {
        assert(n.indices[a.indices.len() + i] == biased(is, base)[i]);
    }
}

/// The contents after a sequence of meshes was copied in, one after another.
pub open spec fn with_meshes(a: ArenaModel, meshes: Seq<(Seq<Vertex>, Seq<u16>)>) -> ArenaModel
    decreases meshes.len(),
{
    if meshes.len() == 0 {
        a
    } else {
        let m = meshes.last();
        with_meshes(a, meshes.drop_last()).with_mesh(m.0, m.1)
    }
}

/// Total vertices and indices of a sequence of meshes.
pub open spec fn total_vertices(meshes: Seq<(Seq<Vertex>, Seq<u16>)>) -> int
    decreases meshes.len(),
{
    if meshes.len() == 0 {
        0
    } else {
        total_vertices(meshes.drop_last()) + meshes.last().0.len()
    }
}

pub open spec fn total_indices(meshes: Seq<(Seq<Vertex>, Seq<u16>)>) -> int
    decreases meshes.len(),
{
    if meshes.len() == 0 {
        0
    } else {
        total_indices(meshes.drop_last()) + meshes.last().1.len()
    }
}

/// For any sequence of appends whose cumulative size stays within the
/// capacities, every biased index of the index region stays below the
/// cumulative vertex count.
pub proof fn lemma_appends_keep_indices_in_range(
    a: ArenaModel,
    meshes: Seq<(Seq<Vertex>, Seq<u16>)>,
)
    requires
        a.wf(),
        a.vertices.len() + total_vertices(meshes) <= a.vertex_capacity,
        a.indices.len() + total_indices(meshes) <= a.index_capacity,
        forall|k: int| 0 <= k < meshes.len() ==> indices_in_range(#[trigger] meshes[k].0, meshes[k].1),
        forall|k: int, i: int|
            0 <= k < meshes.len() && 0 <= i < meshes[k].0.len() ==> (#[trigger] meshes[k].0[i]).prim_index
                < a.primitives.len(),
    ensures
        with_meshes(a, meshes).wf(),
        with_meshes(a, meshes).vertices.len() == a.vertices.len() + total_vertices(meshes),
        forall|i: int|
            0 <= i < with_meshes(a, meshes).indices.len() ==> (#[trigger] with_meshes(
                a,
                meshes,
            ).indices[i] as int) < with_meshes(a, meshes).vertices.len(),
    decreases meshes.len(),
{
    if meshes.len() > 0 {
        let init = meshes.drop_last();
        let m = meshes.last();
        assert forall|k: int| 0 <= k < init.len() implies indices_in_range(
            #[trigger] init[k].0,
            init[k].1,
        ) by {
            assert(init[k] == meshes[k]);
        }
        assert forall|k: int, i: int|
            0 <= k < init.len() && 0 <= i < init[k].0.len() implies (
            #[trigger] init[k].0[i]).prim_index < a.primitives.len() by {
            assert(init[k] == meshes[k]);
        }
        assert(total_vertices(init) >= 0) by {
            lemma_totals_nonneg(init);
        }
        lemma_appends_keep_indices_in_range(a, init);
        let b = with_meshes(a, init);
        lemma_with_meshes_keeps_primitives(a, init);
        lemma_with_meshes_indices_len(a, init);
        assert(total_vertices(meshes) == total_vertices(init) + m.0.len());
        assert(total_indices(meshes) == total_indices(init) + m.1.len());
        assert(indices_in_range(meshes[meshes.len() - 1].0, meshes[meshes.len() - 1].1));
        assert forall|i: int| 0 <= i < m.0.len() implies (#[trigger] m.0[i]).prim_index
            < b.primitives.len() by {
            assert(meshes[meshes.len() - 1].0[i] == m.0[i]);
        }
        lemma_with_mesh_wf(b, m.0, m.1);
    } else {
        assert(with_meshes(a, meshes) == a);
    }
}

proof fn lemma_totals_nonneg(meshes: Seq<(Seq<Vertex>, Seq<u16>)>)
    ensures
        total_vertices(meshes) >= 0,
        total_indices(meshes) >= 0,
    decreases meshes.len(),
{
    if meshes.len() > 0 {
        lemma_totals_nonneg(meshes.drop_last());
    }
}

proof fn lemma_with_meshes_keeps_primitives(a: ArenaModel, meshes: Seq<(Seq<Vertex>, Seq<u16>)>)
    ensures
        with_meshes(a, meshes).primitives == a.primitives,
        with_meshes(a, meshes).vertex_capacity == a.vertex_capacity,
        with_meshes(a, meshes).index_capacity == a.index_capacity,
        with_meshes(a, meshes).primitive_capacity == a.primitive_capacity,
    decreases meshes.len(),
{
    if meshes.len() > 0 {
        lemma_with_meshes_keeps_primitives(a, meshes.drop_last());
    }
}

proof fn lemma_with_meshes_indices_len(a: ArenaModel, meshes: Seq<(Seq<Vertex>, Seq<u16>)>)
    ensures
        with_meshes(a, meshes).indices.len() == a.indices.len() + total_indices(meshes),
        with_meshes(a, meshes).vertices.len() == a.vertices.len() + total_vertices(meshes),
    decreases meshes.len(),
{
    if meshes.len() > 0 {
        lemma_with_meshes_indices_len(a, meshes.drop_last());
    }
}

/// The vertex, index and primitive regions of one frame, with their cursors.
pub struct BufferArena {
    vertices: Vec<Vertex>,
    indices: Vec<u16>,
    primitives: Vec<Primitive>,
    vertex_capacity: u64,
    index_capacity: u64,
    primitive_capacity: u64,
}

impl View for BufferArena {
    type V = ArenaModel;

    closed spec fn view(&self) -> ArenaModel {
        ArenaModel {
            vertices: self.vertices@,
            indices: self.indices@,
            primitives: self.primitives@,
            vertex_capacity: self.vertex_capacity as int,
            index_capacity: self.index_capacity as int,
            primitive_capacity: self.primitive_capacity as int,
        }
    }
}

/// Whole records of `size` bytes that fit in `bytes` bytes, at most `limit`.
pub open spec fn slots(bytes: u64, size: u64, limit: u64) -> int {
    if bytes / size > limit {
        limit as int
    } else {
        (bytes / size) as int
    }
}

impl BufferArena {
    /// Empty regions of the byte sizes that `config` gives. The vertex region
    /// holds at most as many vertices as a 16-bit index can reach.
    pub fn new(config: &Config) -> (r: BufferArena)
        ensures
            r@.wf(),
            r@.vertices.len() == 0,
            r@.indices.len() == 0,
            r@.primitives.len() == 0,
            r@.vertex_capacity == slots(config.vertex_buffer_size, VERTEX_SIZE, MAX_INDEXED_VERTICES),
            r@.index_capacity == slots(config.index_buffer_size, INDEX_SIZE, MAX_INDICES),
            r@.primitive_capacity == slots(config.primitve_buffer_size, PRIMITIVE_SIZE, MAX_PRIMITIVES),
    {
        let v = config.vertex_buffer_size / VERTEX_SIZE;
        let x = config.index_buffer_size / INDEX_SIZE;
        let p = config.primitve_buffer_size / PRIMITIVE_SIZE;
        BufferArena {
            vertices: Vec::new(),
            indices: Vec::new(),
            primitives: Vec::new(),
            vertex_capacity: if v > MAX_INDEXED_VERTICES {
                MAX_INDEXED_VERTICES
            } else {
                v
            },
            index_capacity: if x > MAX_INDICES {
                MAX_INDICES
            } else {
                x
            },
            primitive_capacity: if p > MAX_PRIMITIVES {
                MAX_PRIMITIVES
            } else {
                p
            },
        }
    }

    /// Vertex cursor: vertices written since the last clear.
    pub fn vertex_count(&self) -> (r: u64)
        ensures
            r == self@.vertices.len(),
    {
        self.vertices.len() as u64
    }

    /// Index cursor: indices written since the last clear.
    pub fn index_count(&self) -> (r: u64)
        ensures
            r == self@.indices.len(),
    {
        self.indices.len() as u64
    }

    /// Primitive cursor: records written since the last clear.
    pub fn primitive_count(&self) -> (r: u32)
        requires
            self@.wf(),
        ensures
            r == self@.primitives.len(),
    {
        self.primitives.len() as u32
    }

    /// Record slots in the primitive region.
    pub fn primitive_capacity(&self) -> (r: u64)
        ensures
            r == self@.primitive_capacity,
    {
        self.primitive_capacity
    }

    /// Vertex slots in the vertex region.
    pub fn vertex_capacity(&self) -> (r: u64)
        ensures
            r == self@.vertex_capacity,
    {
        self.vertex_capacity
    }

    /// Index slots in the index region.
    pub fn index_capacity(&self) -> (r: u64)
        ensures
            r == self@.index_capacity,
    {
        self.index_capacity
    }

    /// Which region lacks room for a mesh of `nv` vertices and `ni` indices.
    fn mesh_shortfall(&self, nv: usize, ni: usize) -> (r: Option<Region>)
        requires
            self@.wf(),
        ensures
            r == self@.mesh_shortfall(nv as int, ni as int),
    {
        if nv as u64 > self.vertex_capacity - self.vertices.len() as u64 {
            Some(Region::Vertex)
        } else if ni as u64 > self.index_capacity - self.indices.len() as u64 {
            Some(Region::Index)
        } else {
            None
        }
    }

    /// Copies the mesh in at the cursors, each index raised by the vertex
    /// cursor so that it refers to the same vertex in the whole region.
    /// Fails, writing nothing, when a region lacks room.
    pub fn append(&mut self, mesh: &Mesh) -> (r: Result<(), PietWgpuError>)
        requires
            old(self)@.wf(),
            indices_in_range(mesh.vertices@, mesh.indices@),
            forall|i: int|
                0 <= i < mesh.vertices@.len() ==> (#[trigger] mesh.vertices@[i]).prim_index
                    < old(self)@.primitives.len(),
        ensures
            final(self)@.wf(),
            match old(self)@.mesh_shortfall(mesh.vertices@.len() as int, mesh.indices@.len() as int) {
                Some(region) => r == Err::<(), PietWgpuError>(PietWgpuError::CapacityExceeded(region))
                    && final(self)@ == old(self)@,
                None => r is Ok && final(self)@ == old(self)@.with_mesh(mesh.vertices@, mesh.indices@),
            },
    {
        match self.mesh_shortfall(mesh.vertices.len(), mesh.indices.len()) {
            Some(region) => Err(PietWgpuError::CapacityExceeded(region)),
            None => {
                self.copy_mesh(mesh);
                Ok(())
            },
        }
    }

    /// Copies the mesh in; the caller has checked the room.
    fn copy_mesh(&mut self, mesh: &Mesh)
        requires
            old(self)@.wf(),
            old(self)@.mesh_shortfall(mesh.vertices@.len() as int, mesh.indices@.len() as int) is None,
            indices_in_range(mesh.vertices@, mesh.indices@),
            forall|i: int|
                0 <= i < mesh.vertices@.len() ==> (#[trigger] mesh.vertices@[i]).prim_index
                    < old(self)@.primitives.len(),
        ensures
            final(self)@.wf(),
            final(self)@ == old(self)@.with_mesh(mesh.vertices@, mesh.indices@),
    {
        proof {
            lemma_with_mesh_wf(self@, mesh.vertices@, mesh.indices@);
        }
        let ghost before = self@;
        let base = self.vertices.len();
        let mut i: usize = 0;
        while i < mesh.indices.len()
            invariant
                self@ == (ArenaModel {
                    indices: before.indices + biased(mesh.indices@, base as int).take(i as int),
                    ..before
                }),
                before.wf(),
                base == before.vertices.len(),
                i <= mesh.indices@.len(),
                before.mesh_shortfall(mesh.vertices@.len() as int, mesh.indices@.len() as int) is None,
                indices_in_range(mesh.vertices@, mesh.indices@),
            decreases mesh.indices@.len() - i,
        {
            let idx = mesh.indices[i];
            assert(idx < mesh.vertices@.len());
            let moved = (idx as usize + base) as u16;
            self.indices.push(moved);
            proof {
                assert(biased(mesh.indices@, base as int).take(i as int + 1) =~= biased(
                    mesh.indices@,
                    base as int,
                ).take(i as int).push(moved));
                assert(self.indices@ =~= before.indices + biased(mesh.indices@, base as int).take(
                    i as int + 1,
                ));
            }
            i = i + 1;
        }
        assert(biased(mesh.indices@, base as int).take(mesh.indices@.len() as int) =~= biased(
            mesh.indices@,
            base as int,
        ));
        let mut j: usize = 0;
        while j < mesh.vertices.len()
            invariant
                self@ == (ArenaModel {
                    vertices: before.vertices + mesh.vertices@.take(j as int),
                    indices: before.indices + biased(mesh.indices@, base as int),
                    ..before
                }),
                j <= mesh.vertices@.len(),
            decreases mesh.vertices@.len() - j,
        {
            self.vertices.push(mesh.vertices[j]);
            proof {
                assert(mesh.vertices@.take(j as int + 1) =~= mesh.vertices@.take(j as int).push(
                    mesh.vertices@[j as int],
                ));
                assert(self.vertices@ =~= before.vertices + mesh.vertices@.take(j as int + 1));
            }
            j = j + 1;
        }
        assert(mesh.vertices@.take(mesh.vertices@.len() as int) =~= mesh.vertices@);
    }

    /// Copies one record in at the primitive cursor and returns its slot.
    /// Fails, writing nothing, when the primitive region is full.
    pub fn append_primitive(&mut self, primitive: Primitive) -> (r: Result<u32, PietWgpuError>)
        requires
            old(self)@.wf(),
        ensures
            final(self)@.wf(),
            old(self)@.primitives.len() + 1 > old(self)@.primitive_capacity ==> r == Err::<
                u32,
                PietWgpuError,
            >(PietWgpuError::CapacityExceeded(Region::Primitive)) && final(self)@ == old(self)@,
            old(self)@.primitives.len() + 1 <= old(self)@.primitive_capacity ==> r == Ok::<
                u32,
                PietWgpuError,
            >(old(self)@.primitives.len() as u32) && final(self)@ == old(self)@.with_primitive(
                primitive,
            ),
    {
        if self.primitives.len() as u64 >= self.primitive_capacity {
            return Err(PietWgpuError::CapacityExceeded(Region::Primitive));
        }
        let slot = self.primitives.len() as u32;
        self.primitives.push(primitive);
        proof {
            let n = self@;
            assert forall|i: int| 0 <= i < n.vertices.len() implies (
            #[trigger] n.vertices[i]).prim_index < n.primitives.len() by {
                assert(old(self)@.vertices[i] == n.vertices[i]);
            }
        }
        Ok(slot)
    }

    /// Copies a whole draw call in: its record at the primitive cursor, then its
    /// mesh, whose vertices carry that record's slot. Checks all three regions
    /// first, so that it writes either everything or nothing.
    pub fn append_draw(&mut self, mesh: &Mesh, primitive: Primitive) -> (r: Result<
        (),
        PietWgpuError,
    >)
        requires
            old(self)@.wf(),
            mesh.wf_for(old(self)@.primitives.len() as int),
        ensures
            final(self)@.wf(),
            match old(self)@.draw_shortfall(mesh.vertices@.len() as int, mesh.indices@.len() as int) {
                Some(region) => r == Err::<(), PietWgpuError>(PietWgpuError::CapacityExceeded(region))
                    && final(self)@ == old(self)@,
                None => r is Ok && final(self)@ == old(self)@.with_primitive(primitive).with_mesh(
                    mesh.vertices@,
                    mesh.indices@,
                ),
            },
    {
        if self.primitives.len() as u64 >= self.primitive_capacity {
            return Err(PietWgpuError::CapacityExceeded(Region::Primitive));
        }
        match self.mesh_shortfall(mesh.vertices.len(), mesh.indices.len()) {
            Some(region) => Err(PietWgpuError::CapacityExceeded(region)),
            None => {
                let _ = self.append_primitive(primitive);
                self.copy_mesh(mesh);
                Ok(())
            },
        }
    }

    /// Resets all three cursors to zero; the capacities stay.
    pub fn clear(&mut self)
        requires
            old(self)@.wf(),
        ensures
            final(self)@.wf(),
            final(self)@ == old(self)@.cleared(),
    {
        self.vertices.clear();
        self.indices.clear();
        self.primitives.clear();
        assert(self@ =~= old(self)@.cleared());
    }

    /// The vertex region's contents, as bytes.
    pub fn vertex_bytes(&self) -> (r: Vec<u8>)
        ensures
            r@ == vertex_bytes_of(self@.vertices),
    {
        vertex_bytes(&self.vertices)
    }

    /// The index region's contents, as bytes.
    pub fn index_bytes(&self) -> (r: Vec<u8>)
        ensures
            r@ == halves_le(self@.indices),
    {
        index_bytes(&self.indices)
    }

    /// The primitive region's contents, as bytes.
    pub fn primitive_bytes(&self) -> (r: Vec<u8>)
        ensures
            r@ == primitive_bytes_of(self@.primitives),
    {
        primitive_bytes(&self.primitives)
    }

    /// The index region's contents.
    pub fn indices(&self) -> (r: &Vec<u16>)
        ensures
            r@ == self@.indices,
    {
        &self.indices
    }

    /// The vertex region's contents.
    pub fn vertices(&self) -> (r: &Vec<Vertex>)
        ensures
            r@ == self@.vertices,
    {
        &self.vertices
    }

    /// The primitive region's contents.
    pub fn primitives(&self) -> (r: &Vec<Primitive>)
        ensures
            r@ == self@.primitives,
    {
        &self.primitives
    }
}

} // verus!
