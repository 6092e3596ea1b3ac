use vstd::prelude::*;

verus! {

/// A quad corner on the integer grid of the model plane (z = 0, w = 1).
#[derive(Clone, Copy, Debug, PartialEq, Eq, Structural)]
pub struct Corner {
    pub x: i32,
    pub y: i32,
}

/// The fully saturated colour given to a corner (alpha is always opaque).
#[derive(Clone, Copy, Debug, PartialEq, Eq, Structural)]
pub enum Tint {
    Red,
    Green,
    Blue,
    Yellow,
}

/// One vertex of the quad: where it is and what colour it carries.
#[derive(Clone, Copy, Debug, PartialEq, Eq, Structural)]
pub struct QuadVertex {
    pub corner: Corner,
    pub tint: Tint,
}

/// Bytes of one vertex: a 4-float position followed by a 4-float colour.
pub const VERTEX_STRIDE: u32 = 32;

/// Bytes of one index (32-bit unsigned).
pub const INDEX_BYTES: u32 = 4;

/// Bytes of the per-frame transform: a 4x4 matrix of 32-bit floats.
pub const MATRIX_BYTES: u32 = 64;

/// Bytes reserved for the constant buffer that holds the transform.
pub const CONSTANT_BUFFER_BYTES: u32 = 128;

pub open spec fn vertex(x: i32, y: i32, tint: Tint) -> QuadVertex {
    QuadVertex { corner: Corner { x, y }, tint }
}

/// The four vertices of the quad, in buffer order.
pub open spec fn quad_vertex_seq() -> Seq<QuadVertex> {
    seq![
        vertex(-1i32, 1i32, Tint::Red),
        vertex(1i32, -1i32, Tint::Green),
        vertex(-1i32, -1i32, Tint::Blue),
        vertex(1i32, 1i32, Tint::Yellow),
    ]
}

/// The six indices of the quad: two triangles sharing the edge from
/// vertex 1 to vertex 0.
pub open spec fn quad_index_seq() -> Seq<u32> {
    seq![0, 1, 2, 3, 1, 0]
}

/// Twice the signed area of the triangle `a`, `b`, `c` (negative when the
/// corners run clockwise in a y-up plane).
pub open spec fn twice_area(a: Corner, b: Corner, c: Corner) -> int {
    (b.x - a.x) * (c.y - a.y) - (b.y - a.y) * (c.x - a.x)
}

/// The corner that index `k` of the index list names.
pub open spec fn indexed_corner(k: int) -> Corner {
    quad_vertex_seq()[quad_index_seq()[k] as int].corner
}

/// Twice the signed area of triangle `t` of the quad.
pub open spec fn triangle_area(t: int) -> int {
    twice_area(indexed_corner(3 * t), indexed_corner(3 * t + 1), indexed_corner(3 * t + 2))
}

/// The vertices of the quad, in the order the vertex buffer holds them.
pub fn quad_vertices() -> (r: Vec<QuadVertex>)
    ensures
        r@ == quad_vertex_seq(),
{
    let r = vec![
        QuadVertex { corner: Corner { x: -1, y: 1 }, tint: Tint::Red },
        QuadVertex { corner: Corner { x: 1, y: -1 }, tint: Tint::Green },
        QuadVertex { corner: Corner { x: -1, y: -1 }, tint: Tint::Blue },
        QuadVertex { corner: Corner { x: 1, y: 1 }, tint: Tint::Yellow },
    ];
    assert(r@ =~= quad_vertex_seq());
    r
}

/// The indices of the quad as a triangle list.
pub fn quad_indices() -> (r: Vec<u32>)
    ensures
        r@ == quad_index_seq(),
{
    let r = vec![0u32, 1, 2, 3, 1, 0];
    assert(r@ =~= quad_index_seq());
    r
}

/// Twice the signed area of the triangle `a`, `b`, `c`.
pub fn twice_signed_area(a: Corner, b: Corner, c: Corner) -> (r: i128)
    ensures
        r == twice_area(a, b, c),
{
    let abx = b.x as i128 - a.x as i128;
    let aby = b.y as i128 - a.y as i128;
    let acx = c.x as i128 - a.x as i128;
    let acy = c.y as i128 - a.y as i128;
    assert(-0x1_0000_0000_0000_0000 <= abx * acy <= 0x1_0000_0000_0000_0000) by (nonlinear_arith)
        requires
            -0x1_0000_0000 <= abx <= 0x1_0000_0000,
            -0x1_0000_0000 <= acy <= 0x1_0000_0000,
    ;
    assert(-0x1_0000_0000_0000_0000 <= aby * acx <= 0x1_0000_0000_0000_0000) by (nonlinear_arith)
        requires
            -0x1_0000_0000 <= aby <= 0x1_0000_0000,
            -0x1_0000_0000 <= acx <= 0x1_0000_0000,
    ;
    abx * acy - aby * acx
}

/// The index list always names vertices that exist, forms exactly two
/// triangles that share the edge between vertices 1 and 0, and neither
/// triangle is degenerate: both have the same non-zero (clockwise) area.
pub proof fn lemma_quad_triangles()
    ensures
        quad_index_seq().len() == 6,
        forall|k: int| 0 <= k < 6 ==> #[trigger] quad_index_seq()[k] < quad_vertex_seq().len(),
        quad_index_seq()[0] == 0 && quad_index_seq()[1] == 1,
        quad_index_seq()[4] == 1 && quad_index_seq()[5] == 0,
        triangle_area(0) == -4,
        triangle_area(1) == -4,
{
    let v = quad_vertex_seq();
    let ix = quad_index_seq();
    assert(ix[0] == 0 && ix[1] == 1 && ix[2] == 2 && ix[3] == 3 && ix[4] == 1 && ix[5] == 0);
    assert(v[0].corner.x == -1 && v[0].corner.y == 1);
    assert(v[1].corner.x == 1 && v[1].corner.y == -1);
    assert(v[2].corner.x == -1 && v[2].corner.y == -1);
    assert(v[3].corner.x == 1 && v[3].corner.y == 1);
    assert(indexed_corner(0) == v[0].corner);
    assert(indexed_corner(1) == v[1].corner);
    assert(indexed_corner(2) == v[2].corner);
    assert(triangle_area(0) == twice_area(v[0].corner, v[1].corner, v[2].corner));
    assert(indexed_corner(3) == v[3].corner);
    assert(indexed_corner(4) == v[1].corner);
    assert(indexed_corner(5) == v[0].corner);
    assert(triangle_area(1) == twice_area(v[3].corner, v[1].corner, v[0].corner));
}

} // verus!
