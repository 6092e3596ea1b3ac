use quad_render::{
    constant_buffer_spec, index_buffer_spec, input_layout, quad_indices, quad_vertices,
    twice_signed_area, vertex_buffer_spec, BufferBinding, BufferUsage, Corner, ElementFormat,
    Semantic, Tint, CONSTANT_BUFFER_BYTES, MATRIX_BYTES, VERTEX_STRIDE,
};

#[test]
fn index_list_is_two_triangles() {
    assert_eq!(quad_indices(), vec![0u32, 1, 2, 3, 1, 0]);
}

#[test]
fn quad_vertices_are_the_four_corners() {
    let v = quad_vertices();
    assert_eq!(v.len(), 4);
    assert_eq!(v[0].corner, Corner { x: -1, y: 1 });
    assert_eq!(v[1].corner, Corner { x: 1, y: -1 });
    assert_eq!(v[2].corner, Corner { x: -1, y: -1 });
    assert_eq!(v[3].corner, Corner { x: 1, y: 1 });
    assert_eq!(v[0].tint, Tint::Red);
    assert_eq!(v[1].tint, Tint::Green);
    assert_eq!(v[2].tint, Tint::Blue);
    assert_eq!(v[3].tint, Tint::Yellow);
}

#[test]
fn no_triangle_is_degenerate() {
    let v = quad_vertices();
    let ix = quad_indices();
    for t in 0..2 {
        let a = v[ix[3 * t] as usize].corner;
        let b = v[ix[3 * t + 1] as usize].corner;
        let c = v[ix[3 * t + 2] as usize].corner;
        assert_eq!(twice_signed_area(a, b, c), -4);
    }
}

#[test]
fn triangles_share_the_edge_from_one_to_zero() {
    let ix = quad_indices();
    assert!(ix[0..3].contains(&0) && ix[0..3].contains(&1));
    assert!(ix[3..6].contains(&0) && ix[3..6].contains(&1));
}

#[test]
fn signed_area_of_known_triangles() {
    let o = Corner { x: 0, y: 0 };
    let e = Corner { x: 3, y: 0 };
    let n = Corner { x: 0, y: 2 };
    assert_eq!(twice_signed_area(o, e, n), 6);
    assert_eq!(twice_signed_area(o, n, e), -6);
    assert_eq!(twice_signed_area(o, e, Corner { x: 6, y: 0 }), 0);
    let big = Corner { x: i32::MAX, y: i32::MIN };
    let small = Corner { x: i32::MIN, y: i32::MAX };
    assert_eq!(
        twice_signed_area(small, big, Corner { x: i32::MIN, y: i32::MIN }),
        {
            let dx = i32::MAX as i128 - i32::MIN as i128;
            let dy = i32::MIN as i128 - i32::MAX as i128;
            dx * dy
        }
    );
}

#[test]
fn buffer_descriptions() {
    let vb = vertex_buffer_spec();
    assert_eq!(vb.binding, BufferBinding::Vertex);
    assert_eq!(vb.usage, BufferUsage::Dynamic);
    assert_eq!(vb.byte_width, 128);
    assert!(vb.cpu_write);
    let ib = index_buffer_spec();
    assert_eq!(ib.binding, BufferBinding::Index);
    assert_eq!(ib.usage, BufferUsage::Immutable);
    assert_eq!(ib.byte_width, 24);
    assert!(!ib.cpu_write);
    let cb = constant_buffer_spec();
    assert_eq!(cb.binding, BufferBinding::Constant);
    assert_eq!(cb.usage, BufferUsage::Dynamic);
    assert_eq!(cb.byte_width, 128);
    assert!(cb.cpu_write);
    assert_eq!(CONSTANT_BUFFER_BYTES, 128);
    assert_eq!(MATRIX_BYTES, 64);
}

#[test]
fn input_layout_matches_vertex() {
    let l = input_layout();
    assert_eq!(l.len(), 2);
    assert_eq!(l[0].semantic, Semantic::Position);
    assert_eq!(l[0].format, ElementFormat::Float3);
    assert_eq!(l[0].offset, 0);
    assert_eq!(l[1].semantic, Semantic::Color);
    assert_eq!(l[1].format, ElementFormat::Float4);
    assert_eq!(l[1].offset, 16);
    assert_eq!(VERTEX_STRIDE, 32);
}
