//! The debug pass, which draws a texture onto a target for inspection.

use vstd::prelude::*;
use crate::command::{ColorAttachment, ColorLoad, Command, CommandEncoder};
use crate::geometry::PLANE_INDEX_COUNT;
use crate::resource::{BindGroupId, BufferId, PipelineId, Span, TextureViewId};

verus! {

/// The quad and the pipeline of the debug pass.
#[derive(Clone, Copy, Debug, PartialEq, Eq, Structural)]
pub struct DebugPass {
    pub vertex_buffer: BufferId,
    pub index_buffer: BufferId,
    pub pipeline: PipelineId,
}

impl DebugPass {
    pub fn new(vertex_buffer: BufferId, index_buffer: BufferId, pipeline: PipelineId) -> (pass:
        Self)
        ensures
            pass == (DebugPass { vertex_buffer, index_buffer, pipeline }),
    {
        DebugPass { vertex_buffer, index_buffer, pipeline }
    }

    /// The commands that draw the texture of `texture_bind_group` over the
    /// whole of `output`: a pass that keeps what is there, and one quad.
    pub open spec fn spec_render(
        &self,
        output: TextureViewId,
        texture_bind_group: BindGroupId,
    ) -> Seq<Command> {
        seq![
            Command::BeginRenderPass {
                color: Some(ColorAttachment { view: output, load: ColorLoad::Load }),
                depth: None,
            },
            Command::SetPipeline { pipeline: self.pipeline },
            Command::SetVertexBuffer { slot: 0, buffer: self.vertex_buffer },
            Command::SetIndexBuffer { buffer: self.index_buffer },
            Command::SetBindGroup { index: 0, group: texture_bind_group, offset: None },
            Command::DrawIndexed {
                indices: Span { start: 0, end: PLANE_INDEX_COUNT },
                base_vertex: 0,
                instances: Span { start: 0, end: 1 },
            },
        ]
    }

    /// Records the drawing of a texture onto `output`.
    pub fn render(
        &self,
        encoder: &mut CommandEncoder,
        output: TextureViewId,
        texture_bind_group: BindGroupId,
    )
        ensures
            final(encoder)@ == old(encoder)@ + self.spec_render(output, texture_bind_group),
    {
        encoder.begin_render_pass(
            Some(ColorAttachment { view: output, load: ColorLoad::Load }),
            None,
        );
        encoder.set_pipeline(self.pipeline);
        encoder.set_vertex_buffer(0, self.vertex_buffer);
        encoder.set_index_buffer(self.index_buffer);
        encoder.set_bind_group(0, texture_bind_group, None);
        encoder.draw_indexed(
            Span { start: 0, end: PLANE_INDEX_COUNT },
            0,
            Span { start: 0, end: 1 },
        );
        assert(encoder@ =~= old(encoder)@ + self.spec_render(output, texture_bind_group));
    }
}

} // verus!
