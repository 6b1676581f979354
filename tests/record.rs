use piet_wgpu::record::{
    index_bytes, primitive_bytes, vertex_bytes, Globals, Primitive, Vertex, VertexBuilder, WithId,
    ONE_BITS,
};

#[test]
fn one_bits_is_one() {
    assert_eq!(f32::from_bits(ONE_BITS), 1.0);
}

#[test]
fn vertex_builder_stamps_slot() {
    let builder = VertexBuilder { prim_index: 7 };
    let v = builder.new_vertex(2.5f32.to_bits(), (-1.0f32).to_bits());
    assert_eq!(v.prim_index, 7);
    assert_eq!(f32::from_bits(v.x_bits), 2.5);
    assert_eq!(f32::from_bits(v.y_bits), -1.0);
}

#[test]
fn with_id_stamps_slot_and_zero_normal() {
    let v = WithId(3).new_vertex(5, 6);
    assert_eq!(v.position, [5, 6]);
    assert_eq!(v.normal, [0, 0]);
    assert_eq!(v.prim_id, 3);
}

#[test]
fn vertex_record_layout() {
    let v = Vertex { x_bits: 1.0f32.to_bits(), y_bits: 0x1122_3344, prim_index: 0x0102 };
    let b = vertex_bytes(&vec![v]);
    assert_eq!(b, vec![0, 0, 0x80, 0x3F, 0x44, 0x33, 0x22, 0x11, 2, 1, 0, 0, 0, 0, 0, 0]);
    assert!(vertex_bytes(&vec![]).is_empty());
}

#[test]
fn index_layout() {
    assert_eq!(index_bytes(&vec![1, 0x0203, 65535]), vec![1, 0, 3, 2, 255, 255]);
}

#[test]
fn default_primitive_record() {
    let p = Primitive::default();
    assert_eq!(p.color, [0, 0, 0, 1.0f32.to_bits()]);
    assert_eq!(p.scale, 1.0f32.to_bits());
    let b = primitive_bytes(&vec![p]);
    assert_eq!(b.len(), 80);
    let mut expected = vec![0u8; 80];
    // color alpha at bytes 28..32, scale at bytes 60..64
    expected[30] = 0x80;
    expected[31] = 0x3F;
    expected[62] = 0x80;
    expected[63] = 0x3F;
    assert_eq!(b, expected);
}

#[test]
fn primitive_record_layout() {
    let p = Primitive {
        lower_bound: [1, 2],
        upper_bound: [3, 4],
        color: [5, 6, 7, 8],
        tex_coords: [9, 10, 11, 12],
        translate: [13, 14],
        angle: 15,
        scale: 16,
        z_index: -1,
    };
    assert_eq!(p.to_words(), vec![
        1, 2, 3, 4, 5, 6, 7, 8, 9, 10, 11, 12, 13, 14, 15, 16, 0xFFFF_FFFF, 0, 0, 0
    ]);
    let b = primitive_bytes(&vec![p, p]);
    assert_eq!(b.len(), 160);
    assert_eq!(&b[0..4], &[1, 0, 0, 0]);
    assert_eq!(&b[64..68], &[255, 255, 255, 255]);
    assert_eq!(&b[80..84], &[1, 0, 0, 0]);
}

#[test]
fn globals_record_layout() {
    let g = Globals {
        width_bits: 600.0f32.to_bits(),
        height_bits: 400.0f32.to_bits(),
        scale_factor: 2.0f32.to_bits(),
    };
    let b = g.to_bytes();
    assert_eq!(b.len(), 16);
    assert_eq!(f32::from_le_bytes([b[0], b[1], b[2], b[3]]), 600.0);
    assert_eq!(f32::from_le_bytes([b[4], b[5], b[6], b[7]]), 400.0);
    assert_eq!(f32::from_le_bytes([b[8], b[9], b[10], b[11]]), 2.0);
    assert_eq!(&b[12..], &[0, 0, 0, 0]);
}
