//! The GPU commands of a frame, recorded in the order in which they are to
//! be carried out.

use vstd::prelude::*;
use crate::forward::Uniforms;
use crate::light::{LightConfigRaw, LightsRaw};
use crate::math::Scalar;
use crate::model::InstanceRaw;
use crate::resource::{
    BindGroupId, BufferId, Extent3d, PipelineId, Span, TextureId, TextureViewId,
};
use crate::shadow::ShadowUniforms;

verus! {

/// A colour whose four components are double-precision numbers, held as
/// their IEEE 754 bit patterns.
#[derive(Clone, Copy, Debug, PartialEq, Eq, Structural)]
pub struct Color {
    pub r: u64,
    pub g: u64,
    pub b: u64,
    pub a: u64,
}

/// What a render pass does with the colour target before it draws.
#[derive(Clone, Copy, Debug, PartialEq, Eq, Structural)]
pub enum ColorLoad {
    Clear(Color),
    Load,
}

/// What a render pass does with the depth target before it draws.
#[derive(Clone, Copy, Debug, PartialEq, Eq, Structural)]
pub enum DepthLoad {
    Clear(Scalar),
    Load,
}

#[derive(Clone, Copy, Debug, PartialEq, Eq, Structural)]
pub struct ColorAttachment {
    pub view: TextureViewId,
    pub load: ColorLoad,
}

#[derive(Clone, Copy, Debug, PartialEq, Eq, Structural)]
pub struct DepthAttachment {
    pub view: TextureViewId,
    pub load: DepthLoad,
}

/// The data of a buffer write.
#[derive(Clone, Copy, Debug, PartialEq, Eq)]
pub enum Payload {
    Uniforms(Uniforms),
    Lights(LightsRaw),
    LightConfig(LightConfigRaw),
    Shadow(ShadowUniforms),
    Instance(InstanceRaw),
}

impl Payload {
    /// The number of bytes that the data occupies in a buffer.
    pub open spec fn spec_size(self) -> nat {
        match self {
            Payload::Uniforms(_) => Uniforms::spec_size(),
            Payload::Lights(_) => LightsRaw::spec_size(),
            Payload::LightConfig(_) => LightConfigRaw::spec_size(),
            Payload::Shadow(_) => ShadowUniforms::spec_size(),
            Payload::Instance(_) => InstanceRaw::spec_size(),
        }
    }

    pub fn size(&self) -> (n: u64)
        ensures
            n == self.spec_size(),
    {
        match self {
            Payload::Uniforms(_) => Uniforms::size(),
            Payload::Lights(_) => LightsRaw::size(),
            Payload::LightConfig(_) => 4,
            Payload::Shadow(_) => ShadowUniforms::size(),
            Payload::Instance(_) => InstanceRaw::size(),
        }
    }
}

/// `bytes` holds the numbers of `words` one after the other, four bytes for
/// each: the least significant byte first where `little_endian` is set, the
/// most significant first where it is not.
pub open spec fn is_byte_image(words: Seq<Scalar>, bytes: Seq<u8>, little_endian: bool) -> bool {
    &&& bytes.len() == 4 * words.len()
    &&& forall|i: int|
        0 <= i < words.len() ==> #[trigger] bytes.subrange(4 * i, 4 * i + 4) == (if little_endian {
            vstd::bytes::spec_u32_to_le_bytes(words[i])
        } else {
            vstd::bytes::spec_u32_to_le_bytes(words[i]).reverse()
        })
}

/// `bytes` holds the numbers of `words` in the byte order of some machine:
/// all of them least significant byte first, or all of them most significant
/// byte first.
pub open spec fn is_native_image(words: Seq<Scalar>, bytes: Seq<u8>) -> bool {
    is_byte_image(words, bytes, true) || is_byte_image(words, bytes, false)
}

/// Calls `bytemuck::cast_slice` to read the numbers in `words` as bytes, and
/// copies them out. The cast from four-byte numbers to bytes never fails, and
/// it hands back the same memory: four bytes for each number, in the byte
/// order of the machine, which is one of the two that there are.
#[verifier::external_body]
fn words_as_bytes(words: &Vec<Scalar>) -> (bytes: Vec<u8>)
    ensures
        is_native_image(words@, bytes@),
{
    bytemuck::cast_slice::<Scalar, u8>(words.as_slice()).to_vec()
}

impl Payload {
    /// The numbers of the data in the order in which the GPU reads them; the
    /// light configuration, which is made of bytes, has none.
    pub open spec fn spec_words(self) -> Seq<Scalar> {
        match self {
            Payload::Uniforms(uniforms) => uniforms.spec_words(),
            Payload::Lights(lights) => lights.spec_words(),
            Payload::LightConfig(_) => Seq::empty(),
            Payload::Shadow(uniforms) => uniforms.spec_words(),
            Payload::Instance(instance) => instance.spec_words(),
        }
    }

    /// The bytes to put into the buffer. For the light configuration they
    /// are its four bytes; for every other payload they are its numbers in
    /// the order in which the GPU reads them, each in the byte order of the
    /// machine.
    pub fn to_bytes(&self) -> (bytes: Vec<u8>)
        ensures
            bytes@.len() == self.spec_size(),
            match *self {
                Payload::LightConfig(raw) => bytes@ == raw.spec_bytes(),
                _ => is_native_image(self.spec_words(), bytes@),
            },
    {
        match self {
            Payload::Uniforms(uniforms) => words_as_bytes(&uniforms.words()),
            Payload::Lights(lights) => words_as_bytes(&lights.words()),
            Payload::LightConfig(config) => config.bytes(),
            Payload::Shadow(uniforms) => words_as_bytes(&uniforms.words()),
            Payload::Instance(instance) => words_as_bytes(&instance.words()),
        }
    }
}

/// One GPU command. A render pass begins with `BeginRenderPass` and lasts
/// until the next command that is not one of `SetPipeline`,
/// `SetVertexBuffer`, `SetIndexBuffer`, `SetBindGroup` and `DrawIndexed`.
#[derive(Clone, Copy, Debug, PartialEq, Eq)]
pub enum Command {
    /// Write `data` into `buffer`, starting `offset` bytes into it.
    WriteBuffer { buffer: BufferId, offset: u64, data: Payload },
    /// Put `data` into a staging buffer and copy it from there to the start
    /// of `destination`.
    StageBuffer { destination: BufferId, data: Payload },
    /// Begin a render pass on the given targets; what is drawn is stored.
    BeginRenderPass { color: Option<ColorAttachment>, depth: Option<DepthAttachment> },
    SetPipeline { pipeline: PipelineId },
    SetVertexBuffer { slot: u32, buffer: BufferId },
    SetIndexBuffer { buffer: BufferId },
    /// Bind `group` at `index`, with a dynamic offset where the group has a
    /// dynamically offset buffer.
    SetBindGroup { index: u32, group: BindGroupId, offset: Option<u32> },
    DrawIndexed { indices: Span, base_vertex: i32, instances: Span },
    /// Copy the first layer and mip level of `source` into layer `layer` of
    /// `destination`, over `extent`.
    CopyTextureToTexture { source: TextureId, destination: TextureId, layer: u32, extent: Extent3d },
    /// Draw the debug overlay onto `target`.
    RenderUi { target: TextureViewId },
    /// Hand everything recorded since the last `Submit` to the GPU.
    Submit,
}

impl Command {
    /// The command belongs to the render pass that is under way: it sets
    /// something for the draws that follow, or draws.
    pub open spec fn is_pass_scoped(self) -> bool {
        ||| self is SetPipeline
        ||| self is SetVertexBuffer
        ||| self is SetIndexBuffer
        ||| self is SetBindGroup
        ||| self is DrawIndexed
    }

    /// Whether the command belongs to the render pass that is under way.
    pub fn in_pass(&self) -> (scoped: bool)
        ensures
            scoped == self.is_pass_scoped(),
    {
        match self {
            Command::SetPipeline { .. } => true,
            Command::SetVertexBuffer { .. } => true,
            Command::SetIndexBuffer { .. } => true,
            Command::SetBindGroup { .. } => true,
            Command::DrawIndexed { .. } => true,
            _ => false,
        }
    }

    /// The command begins a render pass with a depth target and no colour
    /// target, as the passes of the shadow faces are.
    pub open spec fn is_depth_only_pass(self) -> bool {
        self matches Command::BeginRenderPass { color, depth } && color is None && depth is Some
    }

    /// The command is part of making a shadow map: it begins a depth-only
    /// pass, belongs to a pass, or copies a texture.
    pub open spec fn is_shadow_work(self) -> bool {
        self.is_depth_only_pass() || self.is_pass_scoped() || self is CopyTextureToTexture
    }

    /// The command begins the pass that draws the scene: it has a colour
    /// target and a depth target.
    pub open spec fn is_scene_pass(self) -> bool {
        self matches Command::BeginRenderPass { color, depth } && color is Some && depth is Some
    }

    /// The command is part of drawing the overlay: it begins a pass without
    /// a depth target, belongs to a pass, or draws the overlay itself.
    pub open spec fn is_overlay_work(self) -> bool {
        ||| self matches Command::BeginRenderPass { color, depth } && color is Some && depth
            is None
        ||| self.is_pass_scoped()
        ||| self is RenderUi
    }

    /// The command uploads data or submits: it draws nothing.
    pub open spec fn is_upload(self) -> bool {
        self is WriteBuffer || self is StageBuffer || self is Submit
    }
}

/// Every command of `commands` belongs to a render pass.
pub open spec fn all_pass_scoped(commands: Seq<Command>) -> bool {
    forall|k: int| 0 <= k < commands.len() ==> (#[trigger] commands[k]).is_pass_scoped()
}

/// Every command of `commands` is part of making a shadow map.
pub open spec fn all_shadow_work(commands: Seq<Command>) -> bool {
    forall|k: int| 0 <= k < commands.len() ==> (#[trigger] commands[k]).is_shadow_work()
}

/// Every command of `commands` uploads or submits.
pub open spec fn all_uploads(commands: Seq<Command>) -> bool {
    forall|k: int| 0 <= k < commands.len() ==> (#[trigger] commands[k]).is_upload()
}

/// Records the commands of a frame.
pub struct CommandEncoder {
    commands: Vec<Command>,
}

impl View for CommandEncoder {
    type V = Seq<Command>;

    closed spec fn view(&self) -> Seq<Command> {
        self.commands@
    }
}

impl CommandEncoder {
    /// An encoder that has recorded nothing.
    pub fn new() -> (encoder: Self)
        ensures
            encoder@ == Seq::<Command>::empty(),
    {
        CommandEncoder { commands: Vec::new() }
    }

    /// The commands recorded, first to last.
    pub fn finish(self) -> (commands: Vec<Command>)
        ensures
            commands@ == self@,
    {
        self.commands
    }

    /// The number of commands recorded.
    pub fn len(&self) -> (n: usize)
        ensures
            n == self@.len(),
    {
        self.commands.len()
    }

    /// Records `command` after all that was recorded before.
    pub fn record(&mut self, command: Command)
        ensures
            final(self)@ == old(self)@.push(command),
    {
        self.commands.push(command);
    }

    pub fn write_buffer(&mut self, buffer: BufferId, offset: u64, data: Payload)
        ensures
            final(self)@ == old(self)@.push(Command::WriteBuffer { buffer, offset, data }),
    {
        self.commands.push(Command::WriteBuffer { buffer, offset, data });
    }

    pub fn stage_buffer(&mut self, destination: BufferId, data: Payload)
        ensures
            final(self)@ == old(self)@.push(Command::StageBuffer { destination, data }),
    {
        self.commands.push(Command::StageBuffer { destination, data });
    }

    pub fn begin_render_pass(
        &mut self,
        color: Option<ColorAttachment>,
        depth: Option<DepthAttachment>,
    )
        ensures
            final(self)@ == old(self)@.push(Command::BeginRenderPass { color, depth }),
    {
        self.commands.push(Command::BeginRenderPass { color, depth });
    }

    pub fn set_pipeline(&mut self, pipeline: PipelineId)
        ensures
            final(self)@ == old(self)@.push(Command::SetPipeline { pipeline }),
    {
        self.commands.push(Command::SetPipeline { pipeline });
    }

    pub fn set_vertex_buffer(&mut self, slot: u32, buffer: BufferId)
        ensures
            final(self)@ == old(self)@.push(Command::SetVertexBuffer { slot, buffer }),
    {
        self.commands.push(Command::SetVertexBuffer { slot, buffer });
    }

    pub fn set_index_buffer(&mut self, buffer: BufferId)
        ensures
            final(self)@ == old(self)@.push(Command::SetIndexBuffer { buffer }),
    {
        self.commands.push(Command::SetIndexBuffer { buffer });
    }

    pub fn set_bind_group(&mut self, index: u32, group: BindGroupId, offset: Option<u32>)
        ensures
            final(self)@ == old(self)@.push(Command::SetBindGroup { index, group, offset }),
    {
        self.commands.push(Command::SetBindGroup { index, group, offset });
    }

    pub fn draw_indexed(&mut self, indices: Span, base_vertex: i32, instances: Span)
        ensures
            final(self)@ == old(self)@.push(
                Command::DrawIndexed { indices, base_vertex, instances },
            ),
    {
        self.commands.push(Command::DrawIndexed { indices, base_vertex, instances });
    }

    pub fn copy_texture_to_texture(
        &mut self,
        source: TextureId,
        destination: TextureId,
        layer: u32,
        extent: Extent3d,
    )
        ensures
            final(self)@ == old(self)@.push(
                Command::CopyTextureToTexture { source, destination, layer, extent },
            ),
    {
        self.commands.push(Command::CopyTextureToTexture { source, destination, layer, extent });
    }

    pub fn render_ui(&mut self, target: TextureViewId)
        ensures
            final(self)@ == old(self)@.push(Command::RenderUi { target }),
    {
        self.commands.push(Command::RenderUi { target });
    }

    pub fn submit(&mut self)
        ensures
            final(self)@ == old(self)@.push(Command::Submit),
    {
        self.commands.push(Command::Submit);
    }
}

} // verus!
