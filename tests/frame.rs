use lyon::math::point;
use lyon::path::Path;
use lyon::tessellation::{
    BuffersBuilder, FillOptions, FillRule, FillTessellator, FillVertex, FillVertexConstructor,
    VertexBuffers,
};
use piet_wgpu::arena::Mesh;
use piet_wgpu::atlas::AtlasRect;
use piet_wgpu::config::Config;
use piet_wgpu::error::{PietWgpuError, Region};
use piet_wgpu::frame::{ClearColor, FrameRecorder, Phase};
use piet_wgpu::record::{Primitive, Vertex, VertexBuilder};

struct Stamp(VertexBuilder);

impl FillVertexConstructor<Vertex> for Stamp {
    fn new_vertex(&mut self, vertex: FillVertex) -> Vertex {
        let p = vertex.position();
        self.0.new_vertex(p.x.to_bits(), p.y.to_bits())
    }
}

fn rect_mesh(x0: f32, y0: f32, x1: f32, y1: f32, prim_index: u32) -> Mesh {
    let mut builder = Path::builder();
    builder.begin(point(x0, y0));
    builder.line_to(point(x0, y1));
    builder.line_to(point(x1, y1));
    builder.line_to(point(x1, y0));
    builder.close();
    let path = builder.build();
    let mut buffers: VertexBuffers<Vertex, u16> = VertexBuffers::new();
    FillTessellator::new()
        .tessellate(
            &path,
            &FillOptions::tolerance(0.02).with_fill_rule(FillRule::NonZero),
            &mut BuffersBuilder::new(&mut buffers, Stamp(VertexBuilder { prim_index })),
        )
        .unwrap();
    Mesh { vertices: buffers.vertices, indices: buffers.indices }
}

fn triangles_area(mesh: &Mesh) -> f64 {
    let pos = |i: u16| {
        let v = mesh.vertices[i as usize];
        (f32::from_bits(v.x_bits) as f64, f32::from_bits(v.y_bits) as f64)
    };
    mesh.indices
        .chunks(3)
        .map(|t| {
            let (a, b, c) = (pos(t[0]), pos(t[1]), pos(t[2]));
            ((b.0 - a.0) * (c.1 - a.1) - (c.0 - a.0) * (b.1 - a.1)).abs() / 2.0
        })
        .sum()
}

fn red() -> Primitive {
    Primitive { color: [1.0f32.to_bits(), 0, 0, 1.0f32.to_bits()], ..Primitive::default() }
}

fn recorder() -> FrameRecorder {
    FrameRecorder::new(&Config::default(), 600, 400, 1.0f32.to_bits())
}

#[test]
fn test_init() {
    let mut renderer = recorder();
    let mesh = rect_mesh(10.0, 10.0, 30.0, 30.0, renderer.next_prim_index());
    assert!(mesh.is_valid_for(0));
    assert_eq!(renderer.fill(&mesh, red()), Ok(()));
    assert_eq!(renderer.next_prim_index(), 1);
}

#[test]
fn rect_tessellation_covers_rect() {
    for &(x0, y0, x1, y1) in &[(0.0, 0.0, 200.0, 200.0), (10.0, 10.0, 30.0, 30.0), (-1.0, -1.0, -0.5, -0.5)] {
        let mesh = rect_mesh(x0, y0, x1, y1, 4);
        assert!(mesh.is_valid_for(4));
        assert_eq!(mesh.indices.len() % 3, 0);
        let expected = ((x1 - x0) * (y1 - y0)) as f64;
        assert!((triangles_area(&mesh) - expected).abs() <= 1e-6 * expected.max(1.0));
    }
}

#[test]
fn zero_area_rect_records_nothing() {
    let mut renderer = recorder();
    let mesh = rect_mesh(5.0, 5.0, 5.0, 40.0, 0);
    assert!(mesh.indices.is_empty());
    assert_eq!(renderer.fill(&mesh, red()), Ok(()));
    assert_eq!(renderer.next_prim_index(), 0);
    assert_eq!(renderer.frame_plan().index_count, 0);
}

#[test]
fn fill_red_rect_plans_one_draw() {
    let mut renderer = recorder();
    let mesh = rect_mesh(0.0, 0.0, 200.0, 200.0, renderer.next_prim_index());
    let n = mesh.indices.len();
    assert_eq!(renderer.fill(&mesh, red()), Ok(()));
    let plan = renderer.frame_plan();
    assert_eq!(plan.index_count as usize, n);
    assert_eq!(plan.index_bytes.len(), 2 * n);
    assert_eq!(plan.vertex_bytes.len(), 16 * mesh.vertices.len());
    assert_eq!(plan.primitive_bytes.len(), 80);
    // red, opaque
    assert_eq!(&plan.primitive_bytes[16..32], &[0, 0, 0x80, 0x3F, 0, 0, 0, 0, 0, 0, 0, 0, 0, 0, 0x80, 0x3F]);
    let white = 1.0f64.to_bits();
    assert_eq!(plan.clear_color, ClearColor { r: white, g: white, b: white, a: white });
    assert_eq!(plan.reconfigure, Some((600, 400)));
}

#[test]
fn clear_all_then_finish_draws_nothing() {
    let mut renderer = recorder();
    for _ in 0..3 {
        let mesh = rect_mesh(0.0, 0.0, 10.0, 10.0, renderer.next_prim_index());
        assert_eq!(renderer.fill(&mesh, red()), Ok(()));
    }
    assert_eq!(renderer.next_prim_index(), 3);
    let black = ClearColor { r: 0, g: 0, b: 0, a: 1.0f64.to_bits() };
    renderer.clear_all(black);
    assert_eq!(renderer.arena().vertex_count(), 0);
    assert_eq!(renderer.arena().index_count(), 0);
    assert_eq!(renderer.arena().primitive_count(), 0);
    let plan = renderer.frame_plan();
    assert_eq!(plan.index_count, 0);
    assert!(plan.index_bytes.is_empty());
    assert_eq!(plan.clear_color, black);
    assert_eq!(renderer.phase(), Phase::Recording);
}

#[test]
fn set_size_twice_is_set_size_once() {
    let mut once = recorder();
    once.presented();
    let mut twice = recorder();
    twice.presented();
    once.set_size(800, 600);
    twice.set_size(800, 600);
    twice.set_size(800, 600);
    assert_eq!(once.frame_plan().reconfigure, Some((800, 600)));
    assert_eq!(twice.frame_plan().reconfigure, Some((800, 600)));
    assert_eq!(once.frame_plan().width, twice.frame_plan().width);
    assert_eq!(once.frame_plan().height, twice.frame_plan().height);
}

#[test]
fn set_same_size_keeps_surface() {
    let mut renderer = recorder();
    renderer.presented();
    renderer.set_size(600, 400);
    assert_eq!(renderer.frame_plan().reconfigure, None);
    assert_eq!(renderer.phase(), Phase::Submitted);
}

#[test]
fn set_scale_reaches_globals() {
    let mut renderer = recorder();
    renderer.set_scale(2.0f32.to_bits());
    assert_eq!(renderer.frame_plan().scale_bits, 2.0f32.to_bits());
}

#[test]
fn draw_image_places_in_atlas() {
    let mut renderer = recorder();
    assert_eq!(renderer.image_slot(64, 64), Some(AtlasRect { x0: 0, y0: 0, x1: 64, y1: 64 }));
    let mesh = rect_mesh(0.0, 0.0, 64.0, 64.0, renderer.next_prim_index());
    assert_eq!(
        renderer.draw_image(64, 64, &mesh, Primitive::default()),
        Ok(Some(AtlasRect { x0: 0, y0: 0, x1: 64, y1: 64 }))
    );
    let mesh = rect_mesh(0.0, 0.0, 128.0, 32.0, renderer.next_prim_index());
    assert_eq!(
        renderer.draw_image(128, 32, &mesh, Primitive::default()),
        Ok(Some(AtlasRect { x0: 64, y0: 0, x1: 192, y1: 32 }))
    );
    assert_eq!(renderer.next_prim_index(), 2);
    assert_eq!(renderer.atlas().allocated().len(), 2);
}

#[test]
fn oversize_image_fails_untouched() {
    let mut renderer = recorder();
    let mesh = rect_mesh(0.0, 0.0, 10.0, 10.0, renderer.next_prim_index());
    assert_eq!(
        renderer.draw_image(4096, 16, &mesh, Primitive::default()),
        Err(PietWgpuError::CapacityExceeded(Region::Atlas))
    );
    assert_eq!(
        renderer.draw_image(16, 1024, &mesh, Primitive::default()),
        Err(PietWgpuError::CapacityExceeded(Region::Atlas))
    );
    assert!(renderer.atlas().allocated().is_empty());
    assert_eq!(renderer.next_prim_index(), 0);
    assert_eq!(renderer.frame_plan().index_count, 0);
}

#[test]
fn empty_image_records_nothing() {
    let mut renderer = recorder();
    let mesh = rect_mesh(0.0, 0.0, 10.0, 10.0, 0);
    assert_eq!(renderer.draw_image(0, 16, &mesh, Primitive::default()), Ok(None));
    assert_eq!(renderer.next_prim_index(), 0);
}

#[test]
fn image_with_primitives_full_fails() {
    let config = Config { primitve_buffer_size: 80, ..Config::default() };
    let mut renderer = FrameRecorder::new(&config, 10, 10, 0);
    let mesh = rect_mesh(0.0, 0.0, 10.0, 10.0, 0);
    assert_eq!(renderer.fill(&mesh, red()), Ok(()));
    let mesh = rect_mesh(0.0, 0.0, 10.0, 10.0, 1);
    assert_eq!(
        renderer.draw_image(8, 8, &mesh, Primitive::default()),
        Err(PietWgpuError::CapacityExceeded(Region::Primitive))
    );
    assert_eq!(renderer.fill(&mesh, red()), Err(PietWgpuError::CapacityExceeded(Region::Primitive)));
    assert!(renderer.atlas().allocated().is_empty());
}

#[test]
fn image_without_vertex_room_keeps_atlas_free() {
    let config = Config { vertex_buffer_size: 16 * 2, ..Config::default() };
    let mut renderer = FrameRecorder::new(&config, 10, 10, 0);
    let mesh = rect_mesh(0.0, 0.0, 10.0, 10.0, 0);
    assert_eq!(
        renderer.draw_image(8, 8, &mesh, Primitive::default()),
        Err(PietWgpuError::CapacityExceeded(Region::Vertex))
    );
    assert!(renderer.atlas().allocated().is_empty());
}

#[test]
fn presented_frame_can_be_presented_again() {
    let mut renderer = recorder();
    let mesh = rect_mesh(0.0, 0.0, 10.0, 10.0, 0);
    assert_eq!(renderer.fill(&mesh, red()), Ok(()));
    let first = renderer.frame_plan().index_count;
    renderer.presented();
    assert_eq!(renderer.phase(), Phase::Submitted);
    assert_eq!(renderer.frame_plan().reconfigure, None);
    assert_eq!(renderer.frame_plan().index_count, first);
}
