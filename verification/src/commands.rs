use crate::binding::BindGroupKind;
use crate::pipeline::{bind_groups, create_pipeline_layout, IndexFormat};
use vstd::prelude::*;

verus! {

/// The colour that the target is cleared to.
#[derive(Clone, Copy, Debug, PartialEq, Eq, Structural)]
pub enum ClearColor {
    Black,
}

/// The vertices, and where the mesh is indexed the indices, that one draw
/// call covers.
#[derive(Clone, Copy, Debug, PartialEq, Eq, Structural)]
pub struct Geometry {
    pub vertex_count: u32,
    /// The number of 16-bit indices, for an indexed mesh.
    pub index_count: Option<u32>,
}

/// One command of a render pass.
#[derive(Clone, Copy, Debug, PartialEq, Eq, Structural)]
pub enum RenderCommand {
    /// Begin a pass on the acquired image: clear it, and keep what is drawn.
    BeginRenderPass { clear: ClearColor, store: bool },
    /// Bind the render pipeline.
    SetPipeline,
    /// Bind a bind group at a group index of the pipeline layout.
    SetBindGroup { index: u32, group: BindGroupKind },
    /// Bind the whole vertex buffer of the geometry at a slot.
    SetVertexBuffer { slot: u32 },
    /// Bind the whole index buffer of the geometry.
    SetIndexBuffer { format: IndexFormat },
    /// Draw one instance of the first `vertex_count` vertices.
    Draw { vertex_count: u32 },
    /// Draw one instance of the first `index_count` indices.
    DrawIndexed { index_count: u32 },
    /// End the pass.
    EndRenderPass,
}

/// The commands that bind the groups `groups`, each at its own place in the
/// sequence.
pub open spec fn bind_commands(groups: Seq<BindGroupKind>) -> Seq<RenderCommand> {
    Seq::new(
        groups.len(),
        |i: int| RenderCommand::SetBindGroup { index: i as u32, group: groups[i] },
    )
}

/// The commands that bind the buffers of `geometry` and draw all of it.
pub open spec fn draw_commands(geometry: Geometry) -> Seq<RenderCommand> {
    match geometry.index_count {
        Some(index_count) => seq![
            RenderCommand::SetVertexBuffer { slot: 0 },
            RenderCommand::SetIndexBuffer { format: IndexFormat::Uint16 },
            RenderCommand::DrawIndexed { index_count },
        ],
        None => seq![
            RenderCommand::SetVertexBuffer { slot: 0 },
            RenderCommand::Draw { vertex_count: geometry.vertex_count },
        ],
    }
}

/// The render pass of one frame: clear to black, bind the pipeline, bind
/// every group of the pipeline layout at its index, bind the buffers, draw.
pub open spec fn render_pass(textured: bool, geometry: Geometry) -> Seq<RenderCommand> {
    seq![
        RenderCommand::BeginRenderPass { clear: ClearColor::Black, store: true },
        RenderCommand::SetPipeline,
    ] + bind_commands(bind_groups(textured)) + draw_commands(geometry) + seq![
        RenderCommand::EndRenderPass,
    ]
}

/// Records the render pass of one frame.
pub fn record_commands(textured: bool, geometry: Geometry) -> (commands: Vec<RenderCommand>)
    ensures
        commands@ == render_pass(textured, geometry),
{
    let groups = create_pipeline_layout(textured);
    let mut commands: Vec<RenderCommand> = Vec::new();
    commands.push(RenderCommand::BeginRenderPass { clear: ClearColor::Black, store: true });
    commands.push(RenderCommand::SetPipeline);
    let ghost head = commands@;
    let mut i: usize = 0;
    while i < groups.len()
        invariant
            i <= groups@.len() <= 2,
            groups@ == bind_groups(textured),
            commands@.len() == head.len() + i,
            commands@.subrange(0, head.len() as int) == head,
            forall|j: int| 0 <= j < i ==> commands@[head.len() + j] == bind_commands(groups@)[j],
        decreases groups@.len() - i,
    {
        commands.push(RenderCommand::SetBindGroup { index: i as u32, group: groups[i] });
        i += 1;
    }
    assert(commands@ =~= head + bind_commands(bind_groups(textured)));
    commands.push(RenderCommand::SetVertexBuffer { slot: 0 });
    match geometry.index_count {
        Some(index_count) => {
            commands.push(RenderCommand::SetIndexBuffer { format: IndexFormat::Uint16 });
            commands.push(RenderCommand::DrawIndexed { index_count });
        },
        None => {
            commands.push(RenderCommand::Draw { vertex_count: geometry.vertex_count });
        },
    }
    commands.push(RenderCommand::EndRenderPass);
    assert(commands@ =~= render_pass(textured, geometry));
    commands
}

/// The pass binds each group of the pipeline layout at the index that the
/// layout gives it, after the pipeline and before anything is drawn.
pub proof fn lemma_groups_bound_as_laid_out(textured: bool, geometry: Geometry, i: int)
    requires
        0 <= i < bind_groups(textured).len(),
    ensures
        render_pass(textured, geometry)[1] == RenderCommand::SetPipeline,
        render_pass(textured, geometry)[2 + i] == (RenderCommand::SetBindGroup {
            index: i as u32,
            group: bind_groups(textured)[i],
        }),
{
}

/// A pass begins with the clear and ends with the end of the pass, and the
/// draw call is the last command before the end.
pub proof fn lemma_draw_is_last(textured: bool, geometry: Geometry)
    ensures
        ({
            let pass = render_pass(textured, geometry);
            &&& pass.len() >= 6
            &&& pass[0] == (RenderCommand::BeginRenderPass { clear: ClearColor::Black, store: true })
            &&& pass.last() == RenderCommand::EndRenderPass
            &&& match geometry.index_count {
                Some(index_count) => pass[pass.len() - 2] == (RenderCommand::DrawIndexed {
                    index_count,
                }),
                None => pass[pass.len() - 2] == (RenderCommand::Draw {
                    vertex_count: geometry.vertex_count,
                }),
            }
        }),
{
}

} // verus!
