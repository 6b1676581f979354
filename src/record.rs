//! The fixed-size records that the GPU reads, and their byte layout.
//!
//! Every `f32` field of a record is held as its IEEE-754 bit pattern
//! (`f32::to_bits`), so that a record is plain integers; each 32-bit field is
//! laid out little-endian, in field order, as the shader expects.
use vstd::prelude::*;

verus! {

/// Bytes in one vertex record.
pub const VERTEX_SIZE: u64 = 16;

/// Bytes in one primitive record.
pub const PRIMITIVE_SIZE: u64 = 80;

/// Bytes in the globals record.
pub const GLOBALS_SIZE: u64 = 16;

/// Bit pattern of the `f32` value `1.0`.
pub const ONE_BITS: u32 = 0x3F80_0000;

/// The four bytes of `w`, least significant first.
pub open spec fn le_bytes(w: u32) -> Seq<u8> {
    seq![
        (w % 256) as u8,
        ((w / 256) % 256) as u8,
        ((w / 65536) % 256) as u8,
        (w / 16777216) as u8,
    ]
}

/// The two bytes of `h`, least significant first.
pub open spec fn le_bytes16(h: u16) -> Seq<u8> {
    seq![(h % 256) as u8, (h / 256) as u8]
}

/// The bytes of a sequence of words, each little-endian, in order.
pub open spec fn words_le(ws: Seq<u32>) -> Seq<u8>
    decreases ws.len(),
{
    if ws.len() == 0 {
        Seq::empty()
    } else {
        words_le(ws.drop_last()) + le_bytes(ws.last())
    }
}

/// The bytes of a sequence of 16-bit indices, each little-endian, in order.
pub open spec fn halves_le(hs: Seq<u16>) -> Seq<u8>
    decreases hs.len(),
{
    if hs.len() == 0 {
        Seq::empty()
    } else {
        halves_le(hs.drop_last()) + le_bytes16(hs.last())
    }
}

/// Appends the four little-endian bytes of `w`.
fn push_word(out: &mut Vec<u8>, w: u32)
    ensures
        final(out)@ == old(out)@ + le_bytes(w),
{
    out.push((w % 256) as u8);
    out.push(((w / 256) % 256) as u8);
    out.push(((w / 65536) % 256) as u8);
    out.push((w / 16777216) as u8);
    assert(final(out)@ =~= old(out)@ + le_bytes(w));
}

/// Appends the little-endian bytes of each word of `ws`, in order.
pub fn push_words(out: &mut Vec<u8>, ws: &Vec<u32>)
    ensures
        final(out)@ == old(out)@ + words_le(ws@),
{
    let mut i: usize = 0;
    while i < ws.len()
        invariant
            i <= ws@.len(),
            out@ == old(out)@ + words_le(ws@.take(i as int)),
        decreases ws@.len() - i,
    {
        let w = ws[i];
        push_word(out, w);
        proof {
            let t = ws@.take(i as int + 1);
            assert(t.drop_last() == ws@.take(i as int));
            assert(t.last() == w);
            assert(old(out)@ + words_le(ws@.take(i as int)) + le_bytes(w) == old(out)@ + (words_le(
                ws@.take(i as int),
            ) + le_bytes(w)));
        }
        i = i + 1;
    }
    assert(ws@.take(ws@.len() as int) == ws@);
}

/// The little-endian bytes of every index of `hs`, in order.
pub fn index_bytes(hs: &Vec<u16>) -> (r: Vec<u8>)
    ensures
        r@ == halves_le(hs@),
{
    let mut out: Vec<u8> = Vec::new();
    let mut i: usize = 0;
    while i < hs.len()
        invariant
            i <= hs@.len(),
            out@ == halves_le(hs@.take(i as int)),
        decreases hs@.len() - i,
    {
        let h = hs[i];
        out.push((h % 256) as u8);
        out.push((h / 256) as u8);
        proof {
            let t = hs@.take(i as int + 1);
            assert(t.drop_last() == hs@.take(i as int));
            assert(t.last() == h);
            assert(out@ =~= halves_le(t));
        }
        i = i + 1;
    }
    assert(hs@.take(hs@.len() as int) == hs@);
    out
}

/// One corner of the tessellated geometry: a position in canvas space and the
/// slot of the primitive record that styles it.
#[derive(Clone, Copy, Debug, PartialEq, Eq, Structural)]
pub struct Vertex {
    /// Bit pattern of the `f32` x coordinate.
    pub x_bits: u32,
    /// Bit pattern of the `f32` y coordinate.
    pub y_bits: u32,
    pub prim_index: u32,
}

impl Vertex {
    /// The record's words: position, primitive slot, and one word of padding.
    pub open spec fn words(self) -> Seq<u32> {
        seq![self.x_bits, self.y_bits, self.prim_index, 0u32]
    }
}

/// The words of a run of vertex records, in order.
pub open spec fn vertices_words(vs: Seq<Vertex>) -> Seq<u32>
    decreases vs.len(),
{
    if vs.len() == 0 {
        Seq::empty()
    } else {
        vertices_words(vs.drop_last()) + vs.last().words()
    }
}

/// The bytes of a run of vertex records, in order.
pub open spec fn vertex_bytes_of(vs: Seq<Vertex>) -> Seq<u8> {
    words_le(vertices_words(vs))
}

/// The bytes of every vertex of `vs`, as the vertex region holds them.
pub fn vertex_bytes(vs: &Vec<Vertex>) -> (r: Vec<u8>)
    ensures
        r@ == vertex_bytes_of(vs@),
{
    let mut ws: Vec<u32> = Vec::new();
    let mut i: usize = 0;
    while i < vs.len()
        invariant
            i <= vs@.len(),
            ws@ == vertices_words(vs@.take(i as int)),
        decreases vs@.len() - i,
    {
        let v = vs[i];
        ws.push(v.x_bits);
        ws.push(v.y_bits);
        ws.push(v.prim_index);
        ws.push(0);
        proof {
            let t = vs@.take(i as int + 1);
            assert(t.drop_last() == vs@.take(i as int));
            assert(t.last() == v);
            assert(ws@ =~= vertices_words(t));
        }
        i = i + 1;
    }
    assert(vs@.take(vs@.len() as int) == vs@);
    let mut out: Vec<u8> = Vec::new();
    push_words(&mut out, &ws);
    assert(out@ =~= vertex_bytes_of(vs@));
    out
}

/// Stamps every vertex that the tessellator emits for one draw call with the
/// slot of that call's primitive record.
#[derive(Clone, Copy, Debug)]
pub struct VertexBuilder {
    pub prim_index: u32,
}

impl VertexBuilder {
    /// The vertex at the given position, stamped with this builder's slot.
    pub fn new_vertex(&self, x_bits: u32, y_bits: u32) -> (r: Vertex)
        ensures
            r == (Vertex { x_bits, y_bits, prim_index: self.prim_index }),
    {
        Vertex { x_bits, y_bits, prim_index: self.prim_index }
    }
}

/// A vertex record with a normal, for pipelines that offset along it.
#[derive(Clone, Copy, Debug)]
pub struct GpuVertex {
    /// Bit patterns of the `f32` coordinates.
    pub position: [u32; 2],
    /// Bit patterns of the `f32` normal components.
    pub normal: [u32; 2],
    pub prim_id: u32,
}

/// Stamps each vertex with a primitive slot, with a zero normal.
#[derive(Clone, Copy, Debug)]
pub struct WithId(pub u32);

impl WithId {
    /// The vertex at the given position, with a zero normal, stamped with this
    /// builder's slot.
    pub fn new_vertex(&self, x_bits: u32, y_bits: u32) -> (r: GpuVertex)
        ensures
            r.position@ == seq![x_bits, y_bits],
            r.normal@ == seq![0u32, 0u32],
            r.prim_id == self.0,
    {
        let r = GpuVertex { position: [x_bits, y_bits], normal: [0, 0], prim_id: self.0 };
        assert(r.position@ =~= seq![x_bits, y_bits]);
        assert(r.normal@ =~= seq![0u32, 0u32]);
        r
    }
}

/// The styling and placement shared by every vertex of one draw call.
#[derive(Clone, Copy, Debug)]
pub struct Primitive {
    /// Bit patterns of the `f32` top-left corner of the drawn area.
    pub lower_bound: [u32; 2],
    /// Bit patterns of the `f32` bottom-right corner of the drawn area.
    pub upper_bound: [u32; 2],
    /// Bit patterns of the `f32` red, green, blue and alpha components.
    pub color: [u32; 4],
    /// Bit patterns of the `f32` atlas region, normalized: left, top, width,
    /// height.
    pub tex_coords: [u32; 4],
    /// Bit patterns of the `f32` translation.
    pub translate: [u32; 2],
    /// Bit pattern of the `f32` rotation angle.
    pub angle: u32,
    /// Bit pattern of the `f32` uniform scale.
    pub scale: u32,
    pub z_index: i32,
}

impl Primitive {
    /// The record's twenty words in layout order; the last three are padding.
    pub open spec fn words(self) -> Seq<u32> {
        seq![
            self.lower_bound[0], self.lower_bound[1],
            self.upper_bound[0], self.upper_bound[1],
            self.color[0], self.color[1], self.color[2], self.color[3],
            self.tex_coords[0], self.tex_coords[1], self.tex_coords[2], self.tex_coords[3],
            self.translate[0], self.translate[1],
            self.angle, self.scale, self.z_index as u32,
            0u32, 0u32, 0u32,
        ]
    }

    /// Opaque black, no texture, no translation or rotation, unit scale.
    pub open spec fn is_default(self) -> bool {
        &&& self.lower_bound@ == seq![0u32, 0u32]
        &&& self.upper_bound@ == seq![0u32, 0u32]
        &&& self.color@ == seq![0u32, 0u32, 0u32, ONE_BITS]
        &&& self.tex_coords@ == seq![0u32, 0u32, 0u32, 0u32]
        &&& self.translate@ == seq![0u32, 0u32]
        &&& self.angle == 0
        &&& self.scale == ONE_BITS
        &&& self.z_index == 0
    }

    /// The record's words in layout order.
    pub fn to_words(&self) -> (r: Vec<u32>)
        ensures
            r@ == self.words(),
    {
        let r = vec![
            self.lower_bound[0], self.lower_bound[1],
            self.upper_bound[0], self.upper_bound[1],
            self.color[0], self.color[1], self.color[2], self.color[3],
            self.tex_coords[0], self.tex_coords[1], self.tex_coords[2], self.tex_coords[3],
            self.translate[0], self.translate[1],
            self.angle, self.scale, self.z_index as u32,
            0u32, 0u32, 0u32,
        ];
        assert(r@ =~= self.words());
        r
    }
}

impl Default for Primitive {
    fn default() -> (r: Primitive)
        ensures
            r.is_default(),
    {
        let r = Primitive {
            lower_bound: [0, 0],
            upper_bound: [0, 0],
            color: [0, 0, 0, ONE_BITS],
            tex_coords: [0, 0, 0, 0],
            translate: [0, 0],
            angle: 0,
            scale: ONE_BITS,
            z_index: 0,
        };
        assert(r.lower_bound@ =~= seq![0u32, 0u32]);
        assert(r.upper_bound@ =~= seq![0u32, 0u32]);
        assert(r.color@ =~= seq![0u32, 0u32, 0u32, ONE_BITS]);
        assert(r.tex_coords@ =~= seq![0u32, 0u32, 0u32, 0u32]);
        assert(r.translate@ =~= seq![0u32, 0u32]);
        r
    }
}

/// The words of a run of primitive records, in order.
pub open spec fn primitives_words(ps: Seq<Primitive>) -> Seq<u32>
    decreases ps.len(),
{
    if ps.len() == 0 {
        Seq::empty()
    } else {
        primitives_words(ps.drop_last()) + ps.last().words()
    }
}

/// The bytes of a run of primitive records, in order.
pub open spec fn primitive_bytes_of(ps: Seq<Primitive>) -> Seq<u8> {
    words_le(primitives_words(ps))
}

/// The bytes of every primitive of `ps`, as the primitive region holds them.
pub fn primitive_bytes(ps: &Vec<Primitive>) -> (r: Vec<u8>)
    ensures
        r@ == primitive_bytes_of(ps@),
{
    let mut ws: Vec<u32> = Vec::new();
    let mut i: usize = 0;
    while i < ps.len()
        invariant
            i <= ps@.len(),
            ws@ == primitives_words(ps@.take(i as int)),
        decreases ps@.len() - i,
    {
        let p = ps[i];
        let mut pw = p.to_words();
        ws.append(&mut pw);
        proof {
            let t = ps@.take(i as int + 1);
            assert(t.drop_last() == ps@.take(i as int));
            assert(t.last() == p);
            assert(ws@ =~= primitives_words(t));
        }
        i = i + 1;
    }
    assert(ps@.take(ps@.len() as int) == ps@);
    let mut out: Vec<u8> = Vec::new();
    push_words(&mut out, &ws);
    assert(out@ =~= primitive_bytes_of(ps@));
    out
}

/// The per-frame uniform record.
#[derive(Clone, Copy, Debug, PartialEq, Eq, Structural)]
pub struct Globals {
    /// Bit pattern of the `f32` canvas width in pixels.
    pub width_bits: u32,
    /// Bit pattern of the `f32` canvas height in pixels.
    pub height_bits: u32,
    /// Bit pattern of the `f32` scale factor.
    pub scale_factor: u32,
}

impl Globals {
    /// The record's words: resolution, scale factor, and one word of padding.
    pub open spec fn words(self) -> Seq<u32> {
        seq![self.width_bits, self.height_bits, self.scale_factor, 0u32]
    }

    /// The record's bytes, as the globals buffer holds them.
    pub fn to_bytes(&self) -> (r: Vec<u8>)
        ensures
            r@ == words_le(self.words()),
    {
        let ws = vec![self.width_bits, self.height_bits, self.scale_factor, 0u32];
        assert(ws@ =~= self.words());
        let mut out: Vec<u8> = Vec::new();
        push_words(&mut out, &ws);
        assert(out@ =~= words_le(self.words()));
        out
    }
}

} // verus!
