use vstd::prelude::*;

verus! {

/// The format of one vertex attribute: one to four single-precision numbers.
#[derive(Clone, Copy, Debug, PartialEq, Eq, Structural)]
pub enum VertexFormat {
    Float32,
    Float32x2,
    Float32x3,
    Float32x4,
}

impl VertexFormat {
    /// The number of bytes that an attribute of this format takes.
    pub open spec fn spec_size(self) -> int {
        match self {
            VertexFormat::Float32 => 4,
            VertexFormat::Float32x2 => 8,
            VertexFormat::Float32x3 => 12,
            VertexFormat::Float32x4 => 16,
        }
    }

    /// The number of bytes that an attribute of this format takes.
    pub fn size(&self) -> (r: u64)
        ensures
            r == self.spec_size(),
    {
        match self {
            VertexFormat::Float32 => 4,
            VertexFormat::Float32x2 => 8,
            VertexFormat::Float32x3 => 12,
            VertexFormat::Float32x4 => 16,
        }
    }
}

/// Where one attribute lies within a vertex, and where the shader finds it.
#[derive(Clone, Copy, Debug, PartialEq, Eq, Structural)]
pub struct VertexAttribute {
    pub offset: u64,
    pub shader_location: u32,
    pub format: VertexFormat,
}

/// How often the vertex buffer steps forward.
#[derive(Clone, Copy, Debug, PartialEq, Eq, Structural)]
pub enum VertexStepMode {
    Vertex,
    Instance,
}

/// The layout of one vertex buffer.
pub struct VertexBufferLayout {
    pub array_stride: u64,
    pub step_mode: VertexStepMode,
    pub attributes: Vec<VertexAttribute>,
}

/// The bytes that the first `n` of `formats` take together.
pub open spec fn bytes_before(formats: Seq<VertexFormat>, n: int) -> int
    decreases n,
{
    if n <= 0 {
        0
    } else {
        bytes_before(formats, n - 1) + formats[n - 1].spec_size()
    }
}

/// The attributes of an interleaved vertex whose fields have the formats
/// `formats` and follow each other without gaps: the attribute at index `i`
/// is read at shader location `i` and starts where its predecessor ends.
pub open spec fn packed_attributes(formats: Seq<VertexFormat>) -> Seq<VertexAttribute> {
    Seq::new(
        formats.len(),
        |i: int|
            VertexAttribute {
                offset: bytes_before(formats, i) as u64,
                shader_location: i as u32,
                format: formats[i],
            },
    )
}

/// `n` attributes take at most 16 bytes each.
pub proof fn lemma_bytes_before_bounds(formats: Seq<VertexFormat>, n: int)
    requires
        0 <= n <= formats.len(),
    ensures
        0 <= bytes_before(formats, n) <= 16 * n,
        n > 0 ==> bytes_before(formats, n - 1) <= bytes_before(formats, n),
    decreases n,
{
    if n > 0 {
        lemma_bytes_before_bounds(formats, n - 1);
    }
}

impl VertexBufferLayout {
    /// Whether the layout is the gapless per-vertex layout of `formats`.
    pub open spec fn is_packed(self, formats: Seq<VertexFormat>) -> bool {
        &&& self.array_stride == bytes_before(formats, formats.len() as int)
        &&& self.step_mode == VertexStepMode::Vertex
        &&& self.attributes@ == packed_attributes(formats)
    }

    /// Lays out a vertex whose fields have the given formats without gaps:
    /// the stride is the sum of the attribute sizes.
    pub fn packed(formats: &Vec<VertexFormat>) -> (layout: Self)
        requires
            formats@.len() <= u32::MAX,
        ensures
            layout.is_packed(formats@),
    {
        let mut attributes: Vec<VertexAttribute> = Vec::new();
        let mut offset: u64 = 0;
        let mut i: usize = 0;
        while i < formats.len()
            invariant
                i <= formats@.len() <= u32::MAX,
                offset == bytes_before(formats@, i as int),
                attributes@.len() == i,
                forall|j: int| 0 <= j < i ==> attributes@[j] == packed_attributes(formats@)[j],
            decreases formats@.len() - i,
        {
            let format = formats[i];
            proof {
                lemma_bytes_before_bounds(formats@, i as int);
                lemma_bytes_before_bounds(formats@, i as int + 1);
            }
            attributes.push(VertexAttribute { offset, shader_location: i as u32, format });
            offset = offset + format.size();
            i += 1;
        }
        assert(attributes@ =~= packed_attributes(formats@));
        VertexBufferLayout { array_stride: offset, step_mode: VertexStepMode::Vertex, attributes }
    }
}

/// One corner of a mesh: its position on the integer lattice and the point
/// of the texture that is pinned to it. Both are whole numbers; they are
/// widened to single precision where the vertex buffer is filled.
#[derive(Clone, Copy, Debug, PartialEq, Eq)]
pub struct Vertex {
    pub position: (i32, i32, i32),
    pub tex_coords: (i32, i32),
}

impl Vertex {
    /// The formats of a vertex's fields in buffer order: position, then
    /// texture coordinates.
    pub open spec fn formats() -> Seq<VertexFormat> {
        seq![VertexFormat::Float32x3, VertexFormat::Float32x2]
    }

    pub fn new(position: (i32, i32, i32), tex_coords: (i32, i32)) -> (v: Self)
        ensures
            v.position == position,
            v.tex_coords == tex_coords,
    {
        Vertex { position, tex_coords }
    }

    /// The layout of a buffer of vertices: 20 bytes each, the position at
    /// offset 0 and location 0, the texture coordinates at offset 12 and
    /// location 1.
    pub fn get_buffer_layout() -> (layout: VertexBufferLayout)
        ensures
            layout.is_packed(Self::formats()),
            layout.array_stride == 20,
            layout.step_mode == VertexStepMode::Vertex,
            layout.attributes@ == seq![
                VertexAttribute { offset: 0, shader_location: 0, format: VertexFormat::Float32x3 },
                VertexAttribute { offset: 12, shader_location: 1, format: VertexFormat::Float32x2 },
            ],
    {
        let mut formats: Vec<VertexFormat> = Vec::new();
        formats.push(VertexFormat::Float32x3);
        formats.push(VertexFormat::Float32x2);
        assert(formats@ =~= Self::formats());
        let layout = VertexBufferLayout::packed(&formats);
        proof {
            let f = Self::formats();
            assert(bytes_before(f, 0) == 0);
            assert(bytes_before(f, 1) == 12) by {
                reveal_with_fuel(bytes_before, 2);
            }
            assert(bytes_before(f, 2) == 20) by {
                reveal_with_fuel(bytes_before, 3);
            }
            assert(layout.attributes@ =~= seq![
                VertexAttribute { offset: 0, shader_location: 0, format: VertexFormat::Float32x3 },
                VertexAttribute { offset: 12, shader_location: 1, format: VertexFormat::Float32x2 },
            ]);
        }
        layout
    }
}

} // verus!
