use crate::binding::BufferUsages;
use crate::primitives::vertex::Vertex;
use vstd::prelude::*;

verus! {

/// A cube with corners at plus and minus one, textured on every face.
///
/// The four side faces share the eight corner vertices of the front and the
/// back; the top and the bottom have four vertices each of their own, with
/// texture coordinates that face upwards and downwards.
pub struct Cube;

/// A vertex given by its three coordinates and its two texture coordinates.
pub open spec fn vertex(x: int, y: int, z: int, u: int, v: int) -> Vertex {
    Vertex { position: (x as i32, y as i32, z as i32), tex_coords: (u as i32, v as i32) }
}

/// The little-endian bytes of `words`: of each word first the low byte, then
/// the high byte.
pub open spec fn le_bytes(words: Seq<u16>) -> Seq<u8> {
    Seq::new(
        2 * words.len(),
        |i: int| if i % 2 == 0 {
            (words[i / 2] % 256) as u8
        } else {
            (words[i / 2] / 256) as u8
        },
    )
}

/// The big-endian bytes of `words`: of each word first the high byte, then
/// the low byte.
pub open spec fn be_bytes(words: Seq<u16>) -> Seq<u8> {
    Seq::new(
        2 * words.len(),
        |i: int| if i % 2 == 0 {
            (words[i / 2] / 256) as u8
        } else {
            (words[i / 2] % 256) as u8
        },
    )
}

/// Whether `bytes` holds `words` as the machine lays them out in memory, in
/// one of the two byte orders.
pub open spec fn is_memory_of(bytes: Seq<u8>, words: Seq<u16>) -> bool {
    bytes == le_bytes(words) || bytes == be_bytes(words)
}

/// The bytes of `words` as they lie in memory, by `bytemuck::cast_slice`
/// from `u16` to `u8`. That cast cannot fail: a byte has no alignment to
/// respect and every length in bytes is a whole number of bytes. It reads
/// the same memory, so each word gives two bytes, in the byte order of the
/// machine.
#[verifier::external_body]
fn words_as_bytes(words: &[u16; 36]) -> (bytes: Vec<u8>)
    ensures
        is_memory_of(bytes@, words@),
{
    bytemuck::cast_slice::<u16, u8>(words).to_vec()
}

impl Cube {
    /// The vertices of the cube, in the order in which the indices name them.
    pub open spec fn vertices() -> Seq<Vertex> {
        seq![
            vertex(-1, -1, 1, 0, 1),
            vertex(-1, 1, 1, 0, 0),
            vertex(1, 1, 1, 1, 0),
            vertex(1, -1, 1, 1, 1),
            vertex(-1, -1, -1, 1, 1),
            vertex(-1, 1, -1, 1, 0),
            vertex(1, 1, -1, 0, 0),
            vertex(1, -1, -1, 0, 1),
            vertex(-1, 1, 1, 0, 0),
            vertex(1, 1, 1, 1, 0),
            vertex(-1, 1, -1, 0, 1),
            vertex(1, 1, -1, 1, 1),
            vertex(-1, -1, 1, 0, 0),
            vertex(1, -1, 1, 1, 0),
            vertex(-1, -1, -1, 0, 1),
            vertex(1, -1, -1, 1, 1),
        ]
    }

    /// The triangle list of the cube: two triangles for each of the front,
    /// back, right, left, top and bottom face.
    pub open spec fn indices() -> Seq<u16> {
        seq![
            0, 1, 2, 0, 2, 3,
            7, 6, 5, 7, 5, 4,
            3, 2, 6, 3, 6, 7,
            4, 5, 1, 4, 1, 0,
            8, 10, 11, 8, 11, 9,
            15, 14, 12, 13, 15, 12,
        ]
    }

    pub fn get_vertices() -> (r: [Vertex; 16])
        ensures
            r@ == Self::vertices(),
    {
        let r = [
            Vertex::new((-1, -1, 1), (0, 1)),
            Vertex::new((-1, 1, 1), (0, 0)),
            Vertex::new((1, 1, 1), (1, 0)),
            Vertex::new((1, -1, 1), (1, 1)),
            Vertex::new((-1, -1, -1), (1, 1)),
            Vertex::new((-1, 1, -1), (1, 0)),
            Vertex::new((1, 1, -1), (0, 0)),
            Vertex::new((1, -1, -1), (0, 1)),
            Vertex::new((-1, 1, 1), (0, 0)),
            Vertex::new((1, 1, 1), (1, 0)),
            Vertex::new((-1, 1, -1), (0, 1)),
            Vertex::new((1, 1, -1), (1, 1)),
            Vertex::new((-1, -1, 1), (0, 0)),
            Vertex::new((1, -1, 1), (1, 0)),
            Vertex::new((-1, -1, -1), (0, 1)),
            Vertex::new((1, -1, -1), (1, 1)),
        ];
        assert(r@ =~= Self::vertices());
        r
    }

    pub fn get_indices() -> (r: [u16; 36])
        ensures
            r@ == Self::indices(),
    {
        let r: [u16; 36] = [
            0, 1, 2, 0, 2, 3,
            7, 6, 5, 7, 5, 4,
            3, 2, 6, 3, 6, 7,
            4, 5, 1, 4, 1, 0,
            8, 10, 11, 8, 11, 9,
            15, 14, 12, 13, 15, 12,
        ];
        assert(r@ =~= Self::indices());
        r
    }

    /// The contents of the index buffer: the indices as they lie in memory,
    /// two bytes each.
    pub fn index_data() -> (bytes: Vec<u8>)
        ensures
            is_memory_of(bytes@, Self::indices()),
            bytes@.len() == 72,
    {
        let indices = Self::get_indices();
        words_as_bytes(&indices)
    }

    /// What the vertex buffer is used for.
    pub fn vertex_buffer_usage() -> (r: BufferUsages)
        ensures
            r == (BufferUsages { uniform: false, copy_dst: false, vertex: true, index: false }),
    {
        BufferUsages { uniform: false, copy_dst: false, vertex: true, index: false }
    }

    /// What the index buffer is used for.
    pub fn index_buffer_usage() -> (r: BufferUsages)
        ensures
            r == (BufferUsages { uniform: false, copy_dst: false, vertex: false, index: true }),
    {
        BufferUsages { uniform: false, copy_dst: false, vertex: false, index: true }
    }

    pub fn get_vertices_len() -> (n: u32)
        ensures
            n == Self::vertices().len(),
    {
        16
    }

    pub fn get_indices_len() -> (n: u32)
        ensures
            n == Self::indices().len(),
    {
        36
    }
}

/// The position of the vertex that the index at place `i` of the triangle
/// list names.
pub open spec fn corner(i: int) -> (int, int, int) {
    let p = Cube::vertices()[Cube::indices()[i] as int].position;
    (p.0 as int, p.1 as int, p.2 as int)
}

/// The right-handed normal of the triangle `a`, `b`, `c`: the cross product
/// of its edges `b - a` and `c - a`.
pub open spec fn normal(a: (int, int, int), b: (int, int, int), c: (int, int, int)) -> (
    int,
    int,
    int,
) {
    let u = (b.0 - a.0, b.1 - a.1, b.2 - a.2);
    let v = (c.0 - a.0, c.1 - a.1, c.2 - a.2);
    (u.1 * v.2 - u.2 * v.1, u.2 * v.0 - u.0 * v.2, u.0 * v.1 - u.1 * v.0)
}

/// Whether the triangle `a`, `b`, `c` turns clockwise for a viewer who has
/// it between them and the origin: its right-handed normal then points from
/// the triangle to the origin.
pub open spec fn turns_clockwise(a: (int, int, int), b: (int, int, int), c: (int, int, int)) -> bool {
    let n = normal(a, b, c);
    n.0 * a.0 + n.1 * a.1 + n.2 * a.2 < 0
}

/// Whether triangle `t` of the list turns clockwise for a viewer outside the
/// cube, whose centre is the origin.
pub open spec fn wound_clockwise(t: int) -> bool {
    turns_clockwise(corner(3 * t), corner(3 * t + 1), corner(3 * t + 2))
}

/// Every index names a vertex of the cube, and the list is a whole number of
/// triangles.
pub proof fn lemma_indices_in_range()
    ensures
        Cube::indices().len() == 36,
        Cube::vertices().len() == 16,
        forall|i: int| 0 <= i < 36 ==> #[trigger] Cube::indices()[i] < 16,
{
}

/// Every triangle of the cube is wound clockwise as seen from outside, which
/// is the side that the pipeline takes for the front.
pub proof fn lemma_triangles_face_outwards()
    ensures
        forall|t: int| 0 <= t < 12 ==> #[trigger] wound_clockwise(t),
{
    assert(wound_clockwise(0)) by {
        assert(corner(0) == (-1int, -1int, 1int));
        assert(corner(1) == (-1int, 1int, 1int));
        assert(corner(2) == (1int, 1int, 1int));
        assert(turns_clockwise((-1int, -1int, 1int), (-1int, 1int, 1int), (1int, 1int, 1int))) by (nonlinear_arith);
    }
    assert(wound_clockwise(1)) by {
        assert(corner(3) == (-1int, -1int, 1int));
        assert(corner(4) == (1int, 1int, 1int));
        assert(corner(5) == (1int, -1int, 1int));
        assert(turns_clockwise((-1int, -1int, 1int), (1int, 1int, 1int), (1int, -1int, 1int))) by (nonlinear_arith);
    }
    assert(wound_clockwise(2)) by {
        assert(corner(6) == (1int, -1int, -1int));
        assert(corner(7) == (1int, 1int, -1int));
        assert(corner(8) == (-1int, 1int, -1int));
        assert(turns_clockwise((1int, -1int, -1int), (1int, 1int, -1int), (-1int, 1int, -1int))) by (nonlinear_arith);
    }
    assert(wound_clockwise(3)) by {
        assert(corner(9) == (1int, -1int, -1int));
        assert(corner(10) == (-1int, 1int, -1int));
        assert(corner(11) == (-1int, -1int, -1int));
        assert(turns_clockwise((1int, -1int, -1int), (-1int, 1int, -1int), (-1int, -1int, -1int))) by (nonlinear_arith);
    }
    assert(wound_clockwise(4)) by {
        assert(corner(12) == (1int, -1int, 1int));
        assert(corner(13) == (1int, 1int, 1int));
        assert(corner(14) == (1int, 1int, -1int));
        assert(turns_clockwise((1int, -1int, 1int), (1int, 1int, 1int), (1int, 1int, -1int))) by (nonlinear_arith);
    }
    assert(wound_clockwise(5)) by {
        assert(corner(15) == (1int, -1int, 1int));
        assert(corner(16) == (1int, 1int, -1int));
        assert(corner(17) == (1int, -1int, -1int));
        assert(turns_clockwise((1int, -1int, 1int), (1int, 1int, -1int), (1int, -1int, -1int))) by (nonlinear_arith);
    }
    assert(wound_clockwise(6)) by {
        assert(corner(18) == (-1int, -1int, -1int));
        assert(corner(19) == (-1int, 1int, -1int));
        assert(corner(20) == (-1int, 1int, 1int));
        assert(turns_clockwise((-1int, -1int, -1int), (-1int, 1int, -1int), (-1int, 1int, 1int))) by (nonlinear_arith);
    }
    assert(wound_clockwise(7)) by {
        assert(corner(21) == (-1int, -1int, -1int));
        assert(corner(22) == (-1int, 1int, 1int));
        assert(corner(23) == (-1int, -1int, 1int));
        assert(turns_clockwise((-1int, -1int, -1int), (-1int, 1int, 1int), (-1int, -1int, 1int))) by (nonlinear_arith);
    }
    assert(wound_clockwise(8)) by {
        assert(corner(24) == (-1int, 1int, 1int));
        assert(corner(25) == (-1int, 1int, -1int));
        assert(corner(26) == (1int, 1int, -1int));
        assert(turns_clockwise((-1int, 1int, 1int), (-1int, 1int, -1int), (1int, 1int, -1int))) by (nonlinear_arith);
    }
    assert(wound_clockwise(9)) by {
        assert(corner(27) == (-1int, 1int, 1int));
        assert(corner(28) == (1int, 1int, -1int));
        assert(corner(29) == (1int, 1int, 1int));
        assert(turns_clockwise((-1int, 1int, 1int), (1int, 1int, -1int), (1int, 1int, 1int))) by (nonlinear_arith);
    }
    assert(wound_clockwise(10)) by {
        assert(corner(30) == (1int, -1int, -1int));
        assert(corner(31) == (-1int, -1int, -1int));
        assert(corner(32) == (-1int, -1int, 1int));
        assert(turns_clockwise((1int, -1int, -1int), (-1int, -1int, -1int), (-1int, -1int, 1int))) by (nonlinear_arith);
    }
    assert(wound_clockwise(11)) by {
        assert(corner(33) == (1int, -1int, 1int));
        assert(corner(34) == (1int, -1int, -1int));
        assert(corner(35) == (-1int, -1int, 1int));
        assert(turns_clockwise((1int, -1int, 1int), (1int, -1int, -1int), (-1int, -1int, 1int))) by (nonlinear_arith);
    }
}

} // verus!
