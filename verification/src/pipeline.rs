use crate::binding::BindGroupKind;
use crate::primitives::vertex::{Vertex, VertexBufferLayout};
use vstd::prelude::*;

verus! {

/// How vertices are assembled into primitives.
#[derive(Clone, Copy, Debug, PartialEq, Eq, Structural)]
pub enum PrimitiveTopology {
    PointList,
    LineList,
    LineStrip,
    TriangleList,
    TriangleStrip,
}

/// The winding that marks the front of a triangle.
#[derive(Clone, Copy, Debug, PartialEq, Eq, Structural)]
pub enum FrontFace {
    Ccw,
    Cw,
}

/// A side of a triangle.
#[derive(Clone, Copy, Debug, PartialEq, Eq, Structural)]
pub enum Face {
    Front,
    Back,
}

/// How the inside of a polygon is rasterised.
#[derive(Clone, Copy, Debug, PartialEq, Eq, Structural)]
pub enum PolygonMode {
    Fill,
    Line,
    Point,
}

/// The width of the indices in an index buffer.
#[derive(Clone, Copy, Debug, PartialEq, Eq, Structural)]
pub enum IndexFormat {
    Uint16,
    Uint32,
}

/// How primitives are assembled and which of them are drawn.
#[derive(Clone, Copy, Debug, PartialEq, Eq, Structural)]
pub struct PrimitiveState {
    pub topology: PrimitiveTopology,
    pub strip_index_format: Option<IndexFormat>,
    pub front_face: FrontFace,
    pub cull_mode: Option<Face>,
    pub polygon_mode: PolygonMode,
    pub unclipped_depth: bool,
    pub conservative: bool,
}

/// How many samples a pixel has and which of them are written.
#[derive(Clone, Copy, Debug, PartialEq, Eq, Structural)]
pub struct MultisampleState {
    pub count: u32,
    pub mask: u64,
    pub alpha_to_coverage_enabled: bool,
}

/// Everything that the render pipeline is built from, besides the compiled
/// shader and the pipeline layout. A pipeline is built once and never
/// changed.
pub struct RenderPipelineDescriptor {
    /// Name of the shader's vertex-stage entry point.
    pub vertex_entry_point: &'static str,
    /// Name of the shader's fragment-stage entry point.
    pub fragment_entry_point: &'static str,
    /// The layouts of the vertex buffers, by slot.
    pub buffers: Vec<VertexBufferLayout>,
    /// The format of the one colour target.
    pub target_format: wgpu::TextureFormat,
    pub primitive: PrimitiveState,
    /// Whether the pipeline has a depth and stencil attachment.
    pub depth_stencil: bool,
    pub multisample: MultisampleState,
}

/// The bind groups of the pipeline, by group index: the texture's group
/// comes first where there is a texture, and the camera's group is always
/// the last.
pub open spec fn bind_groups(textured: bool) -> Seq<BindGroupKind> {
    if textured {
        seq![BindGroupKind::Texture, BindGroupKind::Camera]
    } else {
        seq![BindGroupKind::Camera]
    }
}

/// Triangle lists whose clockwise side is the front and whose back is not
/// drawn, filled.
pub open spec fn primitive_state() -> PrimitiveState {
    PrimitiveState {
        topology: PrimitiveTopology::TriangleList,
        strip_index_format: None,
        front_face: FrontFace::Cw,
        cull_mode: Some(Face::Back),
        polygon_mode: PolygonMode::Fill,
        unclipped_depth: false,
        conservative: false,
    }
}

/// One sample per pixel, always written.
pub open spec fn multisample_state() -> MultisampleState {
    MultisampleState { count: 1, mask: u64::MAX, alpha_to_coverage_enabled: false }
}

/// The bind groups that the pipeline layout is made of, by group index.
pub fn create_pipeline_layout(textured: bool) -> (groups: Vec<BindGroupKind>)
    ensures
        groups@ == bind_groups(textured),
{
    let mut groups: Vec<BindGroupKind> = Vec::new();
    if textured {
        groups.push(BindGroupKind::Texture);
    }
    groups.push(BindGroupKind::Camera);
    assert(groups@ =~= bind_groups(textured));
    groups
}

/// Describes the pipeline that draws textured vertices to a target of the
/// format `swapchain_format`.
pub fn create_render_pipeline(swapchain_format: wgpu::TextureFormat) -> (desc:
    RenderPipelineDescriptor)
    ensures
        desc.vertex_entry_point@ == "vs_main"@,
        desc.fragment_entry_point@ == "fs_main"@,
        desc.buffers@.len() == 1,
        desc.buffers@[0].is_packed(Vertex::formats()),
        desc.buffers@[0].array_stride == 20,
        desc.target_format == swapchain_format,
        desc.primitive == primitive_state(),
        !desc.depth_stencil,
        desc.multisample == multisample_state(),
{
    let mut buffers: Vec<VertexBufferLayout> = Vec::new();
    buffers.push(Vertex::get_buffer_layout());
    RenderPipelineDescriptor {
        vertex_entry_point: "vs_main",
        fragment_entry_point: "fs_main",
        buffers,
        target_format: swapchain_format,
        primitive: PrimitiveState {
            topology: PrimitiveTopology::TriangleList,
            strip_index_format: None,
            front_face: FrontFace::Cw,
            cull_mode: Some(Face::Back),
            polygon_mode: PolygonMode::Fill,
            unclipped_depth: false,
            conservative: false,
        },
        depth_stencil: false,
        multisample: MultisampleState {
            count: 1,
            mask: 0xffff_ffff_ffff_ffff,
            alpha_to_coverage_enabled: false,
        },
    }
}

/// Wherever there is a texture, the camera is bound one group after it;
/// either way the camera's group is the last of the layout.
pub proof fn lemma_camera_group_is_last(textured: bool)
    ensures
        bind_groups(textured).len() == if textured { 2int } else { 1int },
        bind_groups(textured).last() == BindGroupKind::Camera,
        textured ==> bind_groups(textured)[0] == BindGroupKind::Texture,
{
}

} // verus!
