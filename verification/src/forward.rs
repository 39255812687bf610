//! The forward pass: one colour and depth pass that draws the lit scene.

use vstd::prelude::*;
use crate::command::{
    Color, ColorAttachment, ColorLoad, Command, CommandEncoder, DepthAttachment, DepthLoad, Payload,
};
use crate::math::{Matrix4, Scalar, Vector4, ONE};
use crate::resource::{BindGroupId, BindGroupLayoutId, BufferId, PipelineId, TextureViewId};
use crate::texture::Texture;

verus! {

/// What the forward shaders read of the camera: where it stands, and the
/// transform from world space to clip space.
#[derive(Clone, Copy, Debug, PartialEq, Eq, Structural)]
pub struct Uniforms {
    pub view_position: Vector4,
    pub view_proj: Matrix4,
}

impl Uniforms {
    /// The number of bytes of the camera uniforms: four numbers of the
    /// position and sixteen of the transform, four bytes each.
    pub open spec fn spec_size() -> nat {
        80
    }

    pub fn size() -> (n: u64)
        ensures
            n == Self::spec_size(),
    {
        80
    }

    /// Camera uniforms with the position at the origin and the identity as
    /// transform.
    pub fn new() -> (uniforms: Self)
        ensures
            uniforms.view_position == Vector4::spec_zero(),
            uniforms.view_proj == Matrix4::spec_identity(),
    {
        Uniforms { view_position: Vector4::zero(), view_proj: Matrix4::identity() }
    }

    /// Takes over the camera's position and its combined projection and view
    /// transform.
    pub fn update_view_proj(&mut self, view_position: Vector4, view_proj: Matrix4)
        ensures
            final(self).view_position == view_position,
            final(self).view_proj == view_proj,
    {
        self.view_position = view_position;
        self.view_proj = view_proj;
    }

    /// The numbers of the uniforms in the order in which the GPU reads them:
    /// the position, then the transform.
    pub open spec fn spec_words(self) -> Seq<Scalar> {
        self.view_position.spec_words() + self.view_proj.spec_words()
    }

    /// The numbers of the uniforms in the order in which the GPU reads them.
    pub fn words(&self) -> (words: Vec<Scalar>)
        ensures
            words@ == self.spec_words(),
            words@.len() * 4 == Self::spec_size(),
    {
        let mut words = Vec::new();
        self.view_position.push_words(&mut words);
        self.view_proj.push_words(&mut words);
        assert(words@ =~= self.spec_words());
        words
    }
}

/// The background to which the colour target is cleared: red 0.1, green 0.2,
/// blue 0.3, opaque.
pub open spec fn spec_background() -> Color {
    Color {
        r: 0x3fb9_9999_9999_999a,
        g: 0x3fc9_9999_9999_999a,
        b: 0x3fd3_3333_3333_3333,
        a: 0x3ff0_0000_0000_0000,
    }
}

/// The background to which the colour target is cleared.
pub fn background() -> (color: Color)
    ensures
        color == spec_background(),
{
    Color {
        r: 0x3fb9_9999_9999_999a,
        g: 0x3fc9_9999_9999_999a,
        b: 0x3fd3_3333_3333_3333,
        a: 0x3ff0_0000_0000_0000,
    }
}

/// The GPU resources of the forward pass, and the camera uniforms that it
/// uploads.
pub struct ForwardPass {
    pub texture_bind_group_layout: BindGroupLayoutId,
    pub uniform_bind_group_layout: BindGroupLayoutId,
    pub uniforms: Uniforms,
    pub uniform_buffer: BufferId,
    pub uniform_bind_group: BindGroupId,
    pub depth_texture: Texture,
    pub pipeline: PipelineId,
    pub billboard_pipeline: PipelineId,
}

impl ForwardPass {
    /// A forward pass on the given resources, with fresh camera uniforms.
    pub fn new(
        texture_bind_group_layout: BindGroupLayoutId,
        uniform_bind_group_layout: BindGroupLayoutId,
        uniform_buffer: BufferId,
        uniform_bind_group: BindGroupId,
        depth_texture: Texture,
        pipeline: PipelineId,
        billboard_pipeline: PipelineId,
    ) -> (pass: Self)
        ensures
            pass.texture_bind_group_layout == texture_bind_group_layout,
            pass.uniform_bind_group_layout == uniform_bind_group_layout,
            pass.uniforms.view_position == Vector4::spec_zero(),
            pass.uniforms.view_proj == Matrix4::spec_identity(),
            pass.uniform_buffer == uniform_buffer,
            pass.uniform_bind_group == uniform_bind_group,
            pass.depth_texture == depth_texture,
            pass.pipeline == pipeline,
            pass.billboard_pipeline == billboard_pipeline,
    {
        ForwardPass {
            texture_bind_group_layout,
            uniform_bind_group_layout,
            uniforms: Uniforms::new(),
            uniform_buffer,
            uniform_bind_group,
            depth_texture,
            pipeline,
            billboard_pipeline,
        }
    }

    /// The two hold the same resources but for the depth texture and the
    /// camera uniforms.
    pub open spec fn same_resources(&self, other: ForwardPass) -> bool {
        &&& self.texture_bind_group_layout == other.texture_bind_group_layout
        &&& self.uniform_bind_group_layout == other.uniform_bind_group_layout
        &&& self.uniform_buffer == other.uniform_buffer
        &&& self.uniform_bind_group == other.uniform_bind_group
        &&& self.pipeline == other.pipeline
        &&& self.billboard_pipeline == other.billboard_pipeline
    }

    /// The staged copy of the camera uniforms into their buffer.
    pub open spec fn spec_upload_uniforms(&self) -> Command {
        Command::StageBuffer {
            destination: self.uniform_buffer,
            data: Payload::Uniforms(self.uniforms),
        }
    }

    /// Records the upload of the camera uniforms: they are staged and copied,
    /// never written into a buffer that a pass may still read.
    pub fn upload_uniforms(&self, encoder: &mut CommandEncoder)
        ensures
            final(encoder)@ == old(encoder)@.push(self.spec_upload_uniforms()),
    {
        encoder.stage_buffer(self.uniform_buffer, Payload::Uniforms(self.uniforms));
    }

    /// Takes over the depth texture that was made for the new size of the
    /// output.
    pub fn resize(&mut self, depth_texture: Texture)
        ensures
            final(self).depth_texture == depth_texture,
            final(self).uniforms == old(self).uniforms,
            final(self).same_resources(*old(self)),
    {
        self.depth_texture = depth_texture;
    }

    /// The beginning of the forward pass on `output`: colour is cleared to
    /// the background and depth to the far plane.
    pub open spec fn spec_begin(&self, output: TextureViewId) -> Command {
        Command::BeginRenderPass {
            color: Some(ColorAttachment { view: output, load: ColorLoad::Clear(spec_background()) }),
            depth: Some(
                DepthAttachment { view: self.depth_texture.view, load: DepthLoad::Clear(ONE) },
            ),
        }
    }

    /// Begins the forward pass: one pass with `output` as colour target and
    /// the pass's own depth texture as depth target, both cleared.
    pub fn begin(&self, output: TextureViewId, encoder: &mut CommandEncoder)
        ensures
            final(encoder)@ == old(encoder)@.push(self.spec_begin(output)),
    {
        encoder.begin_render_pass(
            Some(ColorAttachment { view: output, load: ColorLoad::Clear(background()) }),
            Some(DepthAttachment { view: self.depth_texture.view, load: DepthLoad::Clear(ONE) }),
        );
    }
}

} // verus!
