use vstd::prelude::*;

verus! {

/// A corner of the full-screen quad in normalized device coordinates; each
/// coordinate is -1 or 1. The GPU layer uploads it as two 32-bit floats.
#[derive(Clone, Copy, Debug, PartialEq, Eq, Structural)]
pub struct Corner {
    pub x: i8,
    pub y: i8,
}

impl Corner {
    pub open spec fn wf(&self) -> bool {
        (self.x == -1 || self.x == 1) && (self.y == -1 || self.y == 1)
    }
}

/// Number of vertices of the quad.
pub const VERTEX_COUNT: u32 = 4;

/// Number of indices of its two triangles.
pub const INDEX_COUNT: u32 = 6;

/// The quad's corners, in vertex-buffer order.
pub open spec fn spec_quad_vertices() -> Seq<Corner> {
    seq![
        Corner { x: -1i8, y: -1i8 },
        Corner { x: -1i8, y: 1i8 },
        Corner { x: 1i8, y: 1i8 },
        Corner { x: 1i8, y: -1i8 },
    ]
}

/// The triangulation of the quad, three indices per triangle.
pub open spec fn spec_quad_indices() -> Seq<u16> {
    seq![2u16, 1u16, 0u16, 3u16, 2u16, 0u16]
}

/// Twice the signed area of the triangle `a, b, c`: positive exactly when
/// the corners run counter-clockwise.
pub open spec fn twice_signed_area(a: Corner, b: Corner, c: Corner) -> int {
    (b.x - a.x) * (c.y - a.y) - (b.y - a.y) * (c.x - a.x)
}

/// Twice the signed area of triangle `t` of an index list over `verts`.
pub open spec fn triangle_area(verts: Seq<Corner>, idx: Seq<u16>, t: int) -> int {
    twice_signed_area(
        verts[idx[3 * t] as int],
        verts[idx[3 * t + 1] as int],
        verts[idx[3 * t + 2] as int],
    )
}

/// The quad's corners.
pub fn quad_vertices() -> (r: [Corner; 4])
    ensures
        r@ == spec_quad_vertices(),
        forall|i: int| 0 <= i < 4 ==> #[trigger] r@[i].wf(),
{
    let r = [
        Corner { x: -1, y: -1 },
        Corner { x: -1, y: 1 },
        Corner { x: 1, y: 1 },
        Corner { x: 1, y: -1 },
    ];
    assert(r@ =~= spec_quad_vertices());
    r
}

/// The quad's index list: two triangles, every index naming a vertex.
pub fn quad_indices() -> (r: [u16; 6])
    ensures
        r@ == spec_quad_indices(),
        forall|i: int| 0 <= i < 6 ==> #[trigger] r@[i] < VERTEX_COUNT,
{
    let r = [2u16, 1, 0, 3, 2, 0];
    assert(r@ =~= spec_quad_indices());
    r
}

/// Both triangles of the quad are counter-clockwise (front-facing under
/// back-face culling), and together they cover the quad's area, which is 4.
pub proof fn lemma_quad_triangles_ccw_and_cover()
    ensures
        triangle_area(spec_quad_vertices(), spec_quad_indices(), 0) > 0,
        triangle_area(spec_quad_vertices(), spec_quad_indices(), 1) > 0,
        triangle_area(spec_quad_vertices(), spec_quad_indices(), 0)
            + triangle_area(spec_quad_vertices(), spec_quad_indices(), 1) == 2 * 4,
{
    let v = spec_quad_vertices();
    let ix = spec_quad_indices();
    assert(ix[0] == 2 && ix[1] == 1 && ix[2] == 0 && ix[3] == 3 && ix[4] == 2 && ix[5] == 0);
    assert(v[0] == Corner { x: -1i8, y: -1i8 } && v[1] == Corner { x: -1i8, y: 1i8 });
    assert(v[2] == Corner { x: 1i8, y: 1i8 } && v[3] == Corner { x: 1i8, y: -1i8 });
    assert(twice_signed_area(v[2], v[1], v[0]) == 4) by (nonlinear_arith)
        requires
            v[2].x == 1 && v[2].y == 1 && v[1].x == -1 && v[1].y == 1,
            v[0].x == -1 && v[0].y == -1,
    ;
    assert(twice_signed_area(v[3], v[2], v[0]) == 4) by (nonlinear_arith)
        requires
            v[3].x == 1 && v[3].y == -1 && v[2].x == 1 && v[2].y == 1,
            v[0].x == -1 && v[0].y == -1,
    ;
}

/// Whether `bytes` holds each of `vals` as two little-endian bytes.
pub open spec fn le_u16s(vals: Seq<u16>, bytes: Seq<u8>) -> bool {
    &&& bytes.len() == 2 * vals.len()
    &&& forall|i: int| 0 <= i < vals.len() ==>
        #[trigger] vals[i] == bytes[2 * i] as int + 256 * bytes[2 * i + 1] as int
}

/// Whether `bytes` holds each of `vals` as two big-endian bytes.
pub open spec fn be_u16s(vals: Seq<u16>, bytes: Seq<u8>) -> bool {
    &&& bytes.len() == 2 * vals.len()
    &&& forall|i: int| 0 <= i < vals.len() ==>
        #[trigger] vals[i] == 256 * bytes[2 * i] as int + bytes[2 * i + 1] as int
}

/// Relies on bytemuck::cast_slice from `u16` to `u8`: it never fails for
/// this pair of types and yields the values' in-memory bytes, two per value
/// in the machine's byte order.
#[verifier::external_body]
fn cast_u16s_to_bytes(vals: &[u16]) -> (r: Vec<u8>)
    ensures
        le_u16s(vals@, r@) || be_u16s(vals@, r@),
{
    bytemuck::cast_slice::<u16, u8>(vals).to_vec()
}

/// The bytes uploaded to the index buffer: the quad's indices in the
/// machine's byte order.
pub fn index_buffer_bytes() -> (r: Vec<u8>)
    ensures
        r@.len() == 2 * INDEX_COUNT,
        le_u16s(spec_quad_indices(), r@) || be_u16s(spec_quad_indices(), r@),
{
    let idx = quad_indices();
    cast_u16s_to_bytes(&idx)
}

} // verus!
