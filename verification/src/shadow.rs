//! The shadow pass: the cube-face convention, the layout of the uniform
//! buffer that holds one transform per light and face, and the commands that
//! render the six depth faces of a light and copy them into its cube map.

use vstd::prelude::*;
use crate::command::{Command, CommandEncoder, DepthAttachment, DepthLoad, Payload};
use crate::light::{Light, LightType, MAX_LIGHTS};
use crate::math::{Matrix4, Scalar, Vector3, ONE};
use crate::model::Mesh;
use crate::resource::{
    BindGroupId, BindGroupLayoutId, BufferId, Extent3d, PipelineId, SamplerId, Span, TextureId,
    TextureViewId,
};

verus! {

/// The number of faces of a cube map.
pub const CUBE_FACES: usize = 6;

/// The width and the height, in texels, of one face of a shadow map.
pub const SHADOW_MAP_SIZE: u32 = 1024;

/// The distance in bytes between two entries of a uniform buffer that is
/// bound with a dynamic offset.
pub open spec fn spec_alignment() -> nat {
    256
}

/// Reads `wgpu::BIND_BUFFER_ALIGNMENT`, the alignment that the graphics layer
/// demands of a dynamic offset into a uniform buffer. It is a constant of that
/// crate, and its value there is 256.
#[verifier::external_body]
fn bind_buffer_alignment() -> (alignment: u64)
    ensures
        alignment == spec_alignment(),
{
    wgpu::BIND_BUFFER_ALIGNMENT
}

/// The distance in bytes between two entries of the shadow uniform buffer.
pub fn alignment() -> (alignment: u64)
    ensures
        alignment == spec_alignment(),
{
    bind_buffer_alignment()
}

/// Where the transform of face `face_index` of light `light_index` starts in
/// the shadow uniform buffer: the six faces of a light follow each other, one
/// stride apart, and the lights follow each other in the order of their slots.
pub open spec fn spec_light_buffer_offset(light_index: nat, face_index: nat) -> nat {
    light_index * CUBE_FACES as nat * spec_alignment() + face_index * spec_alignment()
}

/// The size in bytes of the shadow uniform buffer: one stride for each face of
/// each light.
pub open spec fn spec_uniforms_size() -> nat {
    MAX_LIGHTS as nat * CUBE_FACES as nat * spec_alignment()
}

/// The byte offset of the transform of face `face_index` of light
/// `light_index` in the shadow uniform buffer. This function is the one place
/// that knows the layout: whoever writes an entry and whoever binds one both
/// ask it.
pub fn light_buffer_offset(light_index: usize, face_index: usize) -> (offset: usize)
    requires
        spec_light_buffer_offset(light_index as nat, face_index as nat) <= usize::MAX,
    ensures
        offset == spec_light_buffer_offset(light_index as nat, face_index as nat),
{
    let stride = bind_buffer_alignment() as usize;
    let light_offset = light_index * 6 * stride;
    let face_offset = face_index * stride;
    light_offset + face_offset
}

/// The offset of every face of every light is a whole number of strides, and
/// the entries of two different pairs of light and face do not overlap: one
/// ends where the other starts, or before. An entry is no longer than a
/// stride, and the entry of a light that has a slot ends before the buffer
/// does.
pub proof fn law_offsets_aligned_and_disjoint(light_a: nat, face_a: nat, light_b: nat, face_b: nat)
    requires
        face_a < CUBE_FACES,
        face_b < CUBE_FACES,
    ensures
        spec_light_buffer_offset(light_a, face_a) % spec_alignment() == 0,
        ShadowUniforms::spec_size() <= spec_alignment(),
        light_a < MAX_LIGHTS ==> spec_light_buffer_offset(light_a, face_a) + spec_alignment()
            <= spec_uniforms_size(),
        (light_a, face_a) != (light_b, face_b) ==> spec_light_buffer_offset(light_a, face_a)
            + spec_alignment() <= spec_light_buffer_offset(light_b, face_b)
            || spec_light_buffer_offset(light_b, face_b) + spec_alignment()
            <= spec_light_buffer_offset(light_a, face_a),
        (light_a, face_a) != (light_b, face_b) ==> spec_light_buffer_offset(light_a, face_a)
            != spec_light_buffer_offset(light_b, face_b),
{
}

/// The size of one face of a shadow map: square, one layer deep.
pub open spec fn spec_shadow_size() -> Extent3d {
    Extent3d { width: SHADOW_MAP_SIZE, height: SHADOW_MAP_SIZE, depth: 1 }
}

/// The size of one face of a shadow map.
pub fn shadow_size() -> (size: Extent3d)
    ensures
        size == spec_shadow_size(),
{
    Extent3d { width: SHADOW_MAP_SIZE, height: SHADOW_MAP_SIZE, depth: 1 }
}

/// One of the six depth targets into which the faces of a light are rendered,
/// one after the other for every light.
#[derive(Clone, Copy, Debug, PartialEq, Eq, Structural)]
pub struct ShadowMapTarget {
    pub texture: TextureId,
    pub view: TextureViewId,
    pub bind_group: BindGroupId,
}

/// The shadow map of one light: a texture of six layers, one per face, which
/// the forward shaders sample as a cube.
#[derive(Clone, Copy, Debug, PartialEq, Eq, Structural)]
pub struct ShadowCubemap {
    pub texture: TextureId,
    pub texture_view: TextureViewId,
    pub sampler: SamplerId,
}

impl ShadowCubemap {
    pub fn new(texture: TextureId, texture_view: TextureViewId, sampler: SamplerId) -> (cubemap:
        Self)
        ensures
            cubemap == (ShadowCubemap { texture, texture_view, sampler }),
    {
        ShadowCubemap { texture, texture_view, sampler }
    }

    /// The size of a cube shadow map: the size of a face, six layers deep.
    pub fn size() -> (size: Extent3d)
        ensures
            size.width == spec_shadow_size().width,
            size.height == spec_shadow_size().height,
            size.depth == CUBE_FACES,
    {
        Extent3d { width: SHADOW_MAP_SIZE, height: SHADOW_MAP_SIZE, depth: 6 }
    }
}

/// The GPU resources of the shadow pass.
pub struct ShadowPass {
    pub pipeline: PipelineId,
    /// Holds one entry per light and face, each at its `light_buffer_offset`.
    pub uniforms_buffer: BufferId,
    pub uniforms_bind_group: BindGroupId,
    /// The depth target of each face.
    pub targets: [ShadowMapTarget; CUBE_FACES],
    pub target_bind_group_layout: BindGroupLayoutId,
}

/// What is needed to draw one mesh into a shadow face.
#[derive(Clone, Copy, Debug, PartialEq, Eq, Structural)]
pub struct ShadowPassRenderData {
    pub vertex_buffer: BufferId,
    pub index_buffer: BufferId,
    pub indices: Span,
    pub instances_bind_group: BindGroupId,
    pub instances: Span,
}

impl ShadowPassRenderData {
    /// All indices of `mesh`, drawn once.
    pub open spec fn spec_from_mesh(mesh: Mesh, instances_bind_group: BindGroupId) -> Self {
        ShadowPassRenderData {
            vertex_buffer: mesh.vertex_buffer,
            index_buffer: mesh.index_buffer,
            indices: Span { start: 0, end: mesh.num_elements },
            instances_bind_group,
            instances: Span { start: 0, end: 1 },
        }
    }

    /// What is needed to draw `mesh` into a shadow face: all its indices, one
    /// instance.
    pub fn from_mesh(mesh: &Mesh, instances_bind_group: BindGroupId) -> (data: Self)
        ensures
            data == Self::spec_from_mesh(*mesh, instances_bind_group),
    {
        ShadowPassRenderData {
            vertex_buffer: mesh.vertex_buffer,
            index_buffer: mesh.index_buffer,
            indices: Span { start: 0, end: mesh.num_elements },
            instances_bind_group,
            instances: Span { start: 0, end: 1 },
        }
    }
}

/// A shadow face whose render pass has begun.
#[derive(Clone, Copy, Debug, PartialEq, Eq, Structural)]
pub struct ShadowPassRunner {
    pub uniforms_bind_group: BindGroupId,
}

impl ShadowPass {
    pub fn new(
        pipeline: PipelineId,
        uniforms_buffer: BufferId,
        uniforms_bind_group: BindGroupId,
        targets: [ShadowMapTarget; CUBE_FACES],
        target_bind_group_layout: BindGroupLayoutId,
    ) -> (pass: Self)
        ensures
            pass.pipeline == pipeline,
            pass.uniforms_buffer == uniforms_buffer,
            pass.uniforms_bind_group == uniforms_bind_group,
            pass.targets == targets,
            pass.target_bind_group_layout == target_bind_group_layout,
    {
        ShadowPass {
            pipeline,
            uniforms_buffer,
            uniforms_bind_group,
            targets,
            target_bind_group_layout,
        }
    }

    /// The size in bytes that the uniform buffer must have: room for all six
    /// faces of every light, one stride each.
    pub fn uniforms_size() -> (size: u64)
        ensures
            size == spec_uniforms_size(),
    {
        let stride = bind_buffer_alignment();
        (MAX_LIGHTS as u64) * 6 * stride
    }

    /// The number of bytes of the uniform buffer that one draw sees.
    pub fn uniforms_binding_size() -> (size: u64)
        ensures
            size == ShadowUniforms::spec_size(),
    {
        ShadowUniforms::size()
    }

    /// The copy of face `face` into layer `face` of `cubemap`.
    pub open spec fn spec_copy_face(&self, cubemap: TextureId, face: int) -> Command {
        Command::CopyTextureToTexture {
            source: self.targets@[face].texture,
            destination: cubemap,
            layer: face as u32,
            extent: spec_shadow_size(),
        }
    }

    /// The copies of the six faces into the layers of `cubemap`, face 0 first.
    pub open spec fn spec_copy_to_cubemap(&self, cubemap: TextureId) -> Seq<Command> {
        Seq::new(CUBE_FACES as nat, |face: int| self.spec_copy_face(cubemap, face))
    }

    /// Records the copy of every face target into the layer of `cubemap` that
    /// has the face's index, over the whole face.
    pub fn copy_to_cubemap(&self, encoder: &mut CommandEncoder, cubemap: TextureId)
        ensures
            final(encoder)@ == old(encoder)@ + self.spec_copy_to_cubemap(cubemap),
    {
        let mut face: usize = 0;
        while face < CUBE_FACES
            invariant
                face <= CUBE_FACES,
                encoder@ == old(encoder)@ + Seq::new(
                    face as nat,
                    |f: int| self.spec_copy_face(cubemap, f),
                ),
            decreases CUBE_FACES - face,
        {
            encoder.copy_texture_to_texture(
                self.targets[face].texture,
                cubemap,
                face as u32,
                shadow_size(),
            );
            face += 1;
        }
    }

    /// The commands that begin the rendering of face `face`: a pass that
    /// clears the face's depth target to the far plane, then a pass that keeps
    /// what is there and draws with the shadow pipeline.
    pub open spec fn spec_begin(&self, face: int) -> Seq<Command> {
        seq![
            Command::BeginRenderPass {
                color: None,
                depth: Some(
                    DepthAttachment { view: self.targets@[face].view, load: DepthLoad::Clear(ONE) },
                ),
            },
            Command::BeginRenderPass {
                color: None,
                depth: Some(
                    DepthAttachment { view: self.targets@[face].view, load: DepthLoad::Load },
                ),
            },
            Command::SetPipeline { pipeline: self.pipeline },
        ]
    }

    /// Begins the rendering of face `face_index`. The depth target is cleared
    /// in a pass of its own, so that the pass that draws never clears.
    pub fn begin(&self, encoder: &mut CommandEncoder, face_index: usize) -> (runner:
        ShadowPassRunner)
        requires
            face_index < CUBE_FACES,
        ensures
            final(encoder)@ == old(encoder)@ + self.spec_begin(face_index as int),
            runner.uniforms_bind_group == self.uniforms_bind_group,
    {
        let view = self.targets[face_index].view;
        encoder.begin_render_pass(
            None,
            Some(DepthAttachment { view, load: DepthLoad::Clear(ONE) }),
        );
        encoder.begin_render_pass(None, Some(DepthAttachment { view, load: DepthLoad::Load }));
        encoder.set_pipeline(self.pipeline);
        assert(encoder@ =~= old(encoder)@ + self.spec_begin(face_index as int));
        ShadowPassRunner { uniforms_bind_group: self.uniforms_bind_group }
    }

    /// The write of the entry of face `face` of light `light_index`.
    pub open spec fn spec_write_face(
        &self,
        light_index: nat,
        light: Light,
        projections: Seq<Matrix4>,
        face: int,
    ) -> Command {
        Command::WriteBuffer {
            buffer: self.uniforms_buffer,
            offset: spec_light_buffer_offset(light_index, face as nat) as u64,
            data: Payload::Shadow(
                ShadowUniforms { light_proj: projections[face], light_position: light.position },
            ),
        }
    }

    /// The writes of the six entries of light `light_index`, face 0 first.
    pub open spec fn spec_update_light(
        &self,
        light_index: nat,
        light: Light,
        projections: Seq<Matrix4>,
    ) -> Seq<Command> {
        Seq::new(
            CUBE_FACES as nat,
            |face: int| self.spec_write_face(light_index, light, projections, face),
        )
    }

    /// Records the write of the six entries of the light in slot
    /// `light_index` into the uniform buffer. `projections` holds the
    /// transform of each face, in the order of the face convention; every
    /// entry goes to its `light_buffer_offset` and carries the light's
    /// position.
    pub fn update_light(
        &self,
        encoder: &mut CommandEncoder,
        light_index: usize,
        light: &Light,
        projections: &[Matrix4; CUBE_FACES],
    )
        requires
            light_index < MAX_LIGHTS,
        ensures
            final(encoder)@ == old(encoder)@ + self.spec_update_light(
                light_index as nat,
                *light,
                projections@,
            ),
    {
        let mut face: usize = 0;
        while face < CUBE_FACES
            invariant
                face <= CUBE_FACES,
                light_index < MAX_LIGHTS,
                encoder@ == old(encoder)@ + Seq::new(
                    face as nat,
                    |f: int| self.spec_write_face(light_index as nat, *light, projections@, f),
                ),
            decreases CUBE_FACES - face,
        {
            proof {
                law_offsets_aligned_and_disjoint(
                    light_index as nat,
                    face as nat,
                    light_index as nat,
                    face as nat,
                );
            }
            let uniforms = ShadowUniforms {
                light_proj: projections[face],
                light_position: light.position,
            };
            let offset = light_buffer_offset(light_index, face) as u64;
            encoder.write_buffer(self.uniforms_buffer, offset, Payload::Shadow(uniforms));
            face += 1;
        }
    }
}

impl ShadowPassRunner {
    /// The commands that draw `data` into face `face` of light `light_index`.
    pub open spec fn spec_render(
        &self,
        data: ShadowPassRenderData,
        face: nat,
        light_index: nat,
    ) -> Seq<Command> {
        seq![
            Command::SetVertexBuffer { slot: 0, buffer: data.vertex_buffer },
            Command::SetIndexBuffer { buffer: data.index_buffer },
            Command::SetBindGroup {
                index: 0,
                group: self.uniforms_bind_group,
                offset: Some(spec_light_buffer_offset(light_index, face) as u32),
            },
            Command::SetBindGroup { index: 1, group: data.instances_bind_group, offset: None },
            Command::DrawIndexed { indices: data.indices, base_vertex: 0, instances: data.instances },
        ]
    }

    /// Records the drawing of one mesh into the face: its buffers, the
    /// uniform buffer bound at the entry of this light and face, the
    /// instances, and the draw.
    pub fn render(
        &mut self,
        encoder: &mut CommandEncoder,
        data: ShadowPassRenderData,
        face_index: usize,
        light_index: usize,
    )
        requires
            face_index < CUBE_FACES,
            light_index < MAX_LIGHTS,
        ensures
            *final(self) == *old(self),
            final(encoder)@ == old(encoder)@ + old(self).spec_render(
                data,
                face_index as nat,
                light_index as nat,
            ),
    {
        proof {
            law_offsets_aligned_and_disjoint(
                light_index as nat,
                face_index as nat,
                light_index as nat,
                face_index as nat,
            );
        }
        let buffer_offset = light_buffer_offset(light_index, face_index) as u32;
        encoder.set_vertex_buffer(0, data.vertex_buffer);
        encoder.set_index_buffer(data.index_buffer);
        encoder.set_bind_group(0, self.uniforms_bind_group, Some(buffer_offset));
        encoder.set_bind_group(1, data.instances_bind_group, None);
        encoder.draw_indexed(data.indices, 0, data.instances);
        assert(encoder@ =~= old(encoder)@ + old(self).spec_render(
            data,
            face_index as nat,
            light_index as nat,
        ));
    }
}

/// What the shadow shaders read for one face of one light: the transform from
/// world space to the face's clip space, and the light's position.
#[derive(Clone, Copy, Debug, PartialEq, Eq, Structural)]
pub struct ShadowUniforms {
    pub light_proj: Matrix4,
    pub light_position: Vector3,
}

impl ShadowUniforms {
    /// The number of bytes of one entry: sixteen numbers of the transform and
    /// three of the position, four bytes each. The rest of the stride that an
    /// entry occupies in the buffer is padding.
    pub open spec fn spec_size() -> nat {
        76
    }

    pub fn size() -> (n: u64)
        ensures
            n == Self::spec_size(),
    {
        76
    }

    /// The numbers of the entry in the order in which the GPU reads them:
    /// the transform, then the position.
    pub open spec fn spec_words(self) -> Seq<Scalar> {
        self.light_proj.spec_words() + self.light_position.spec_words()
    }

    /// The numbers of the entry in the order in which the GPU reads them.
    pub fn words(&self) -> (words: Vec<Scalar>)
        ensures
            words@ == self.spec_words(),
            words@.len() * 4 == Self::spec_size(),
    {
        let mut words = Vec::new();
        self.light_proj.push_words(&mut words);
        self.light_position.push_words(&mut words);
        assert(words@ =~= self.spec_words());
        words
    }
}

/// A direction along a coordinate axis, or the zero direction: each component
/// is -1, 0 or 1.
#[derive(Clone, Copy, Debug, PartialEq, Eq, Structural)]
pub struct Axis {
    pub x: i8,
    pub y: i8,
    pub z: i8,
}

impl Axis {
    /// The direction has length one: one component is 1 or -1 and the other
    /// two are zero.
    pub open spec fn is_unit(self) -> bool {
        ||| (self.x == 1 || self.x == -1) && self.y == 0 && self.z == 0
        ||| self.x == 0 && (self.y == 1 || self.y == -1) && self.z == 0
        ||| self.x == 0 && self.y == 0 && (self.z == 1 || self.z == -1)
    }

    /// The two directions are at a right angle: on no axis do both have a
    /// component.
    pub open spec fn is_perpendicular_to(self, other: Axis) -> bool {
        &&& self.x == 0 || other.x == 0
        &&& self.y == 0 || other.y == 0
        &&& self.z == 0 || other.z == 0
    }
}

/// How a light looks at one face of its cube map: from its position along
/// `direction`, with `up` pointing to the top of the image.
#[derive(Clone, Copy, Debug, PartialEq, Eq, Structural)]
pub struct CubeFace {
    pub direction: Axis,
    pub up: Axis,
}

/// The face convention. Layer `face_index` of a light's cube map holds what
/// the light sees in this direction, and the shaders that sample the cube map
/// rely on it: +X, -X, +Y, -Y, -Z, +Z, with +Y up except on the two Y faces,
/// where +Z is up for +Y and -Z for -Y.
pub open spec fn spec_cube_face(face_index: int) -> CubeFace {
    if face_index == 0 {
        CubeFace { direction: Axis { x: 1, y: 0, z: 0 }, up: Axis { x: 0, y: 1, z: 0 } }
    } else if face_index == 1 {
        CubeFace { direction: Axis { x: -1i8, y: 0, z: 0 }, up: Axis { x: 0, y: 1, z: 0 } }
    } else if face_index == 2 {
        CubeFace { direction: Axis { x: 0, y: 1, z: 0 }, up: Axis { x: 0, y: 0, z: 1 } }
    } else if face_index == 3 {
        CubeFace { direction: Axis { x: 0, y: -1i8, z: 0 }, up: Axis { x: 0, y: 0, z: -1i8 } }
    } else if face_index == 4 {
        CubeFace { direction: Axis { x: 0, y: 0, z: -1i8 }, up: Axis { x: 0, y: 1, z: 0 } }
    } else {
        CubeFace { direction: Axis { x: 0, y: 0, z: 1 }, up: Axis { x: 0, y: 1, z: 0 } }
    }
}

/// The view direction and the up vector of face `face_index`.
pub fn cube_face(face_index: usize) -> (face: CubeFace)
    requires
        face_index < CUBE_FACES,
    ensures
        face == spec_cube_face(face_index as int),
{
    if face_index == 0 {
        CubeFace { direction: Axis { x: 1, y: 0, z: 0 }, up: Axis { x: 0, y: 1, z: 0 } }
    } else if face_index == 1 {
        CubeFace { direction: Axis { x: -1i8, y: 0, z: 0 }, up: Axis { x: 0, y: 1, z: 0 } }
    } else if face_index == 2 {
        CubeFace { direction: Axis { x: 0, y: 1, z: 0 }, up: Axis { x: 0, y: 0, z: 1 } }
    } else if face_index == 3 {
        CubeFace { direction: Axis { x: 0, y: -1i8, z: 0 }, up: Axis { x: 0, y: 0, z: -1i8 } }
    } else if face_index == 4 {
        CubeFace { direction: Axis { x: 0, y: 0, z: -1i8 }, up: Axis { x: 0, y: 1, z: 0 } }
    } else {
        CubeFace { direction: Axis { x: 0, y: 0, z: 1 }, up: Axis { x: 0, y: 1, z: 0 } }
    }
}

/// The six faces in the order of the convention.
pub fn cube_faces() -> (faces: [CubeFace; CUBE_FACES])
    ensures
        forall|face: int| 0 <= face < CUBE_FACES ==> #[trigger] faces@[face] == spec_cube_face(face),
{
    [cube_face(0), cube_face(1), cube_face(2), cube_face(3), cube_face(4), cube_face(5)]
}

/// How a light projects the scene onto its shadow map. The numbers but the
/// width and the height are single-precision bit patterns.
#[derive(Clone, Copy, Debug, PartialEq, Eq, Structural)]
pub enum Projection {
    /// A box between the given planes.
    Orthographic { left: Scalar, right: Scalar, bottom: Scalar, top: Scalar, near: Scalar, far: Scalar },
    /// A frustum for a target of `width` by `height` texels, with a vertical
    /// field of view of `fovy_degrees`.
    Perspective { width: u32, height: u32, fovy_degrees: Scalar, near: Scalar, far: Scalar },
}

/// The projection of a light of the given type. A point light sees each face
/// of its cube through a square frustum of 90 degrees, from 0.1 to 100; a
/// directional light sees a box of 20 by 20, from 0.1 to 100.
pub open spec fn spec_light_projection(light_type: LightType) -> Projection {
    match light_type {
        LightType::Directional => Projection::Orthographic {
            left: 0xc120_0000,
            right: 0x4120_0000,
            bottom: 0xc120_0000,
            top: 0x4120_0000,
            near: 0x3dcc_cccd,
            far: 0x42c8_0000,
        },
        LightType::Point => Projection::Perspective {
            width: SHADOW_MAP_SIZE,
            height: SHADOW_MAP_SIZE,
            fovy_degrees: 0x42b4_0000,
            near: 0x3dcc_cccd,
            far: 0x42c8_0000,
        },
    }
}

/// The projection of a light of the given type.
pub fn light_projection(light_type: &LightType) -> (projection: Projection)
    ensures
        projection == spec_light_projection(*light_type),
{
    match light_type {
        LightType::Directional => Projection::Orthographic {
            left: 0xc120_0000,
            right: 0x4120_0000,
            bottom: 0xc120_0000,
            top: 0x4120_0000,
            near: 0x3dcc_cccd,
            far: 0x42c8_0000,
        },
        LightType::Point => Projection::Perspective {
            width: SHADOW_MAP_SIZE,
            height: SHADOW_MAP_SIZE,
            fovy_degrees: 0x42b4_0000,
            near: 0x3dcc_cccd,
            far: 0x42c8_0000,
        },
    }
}

/// The view directions of the six faces are unit vectors along the axes, no
/// two faces look the same way, and every direction along an axis, positive or
/// negative, is the view direction of exactly one face. The up vector of a
/// face is a unit vector at a right angle to its view direction.
pub proof fn law_cube_faces_span_axes(face_a: int, face_b: int, direction: Axis)
    requires
        0 <= face_a < CUBE_FACES,
        0 <= face_b < CUBE_FACES,
    ensures
        spec_cube_face(face_a).direction.is_unit(),
        spec_cube_face(face_a).up.is_unit(),
        spec_cube_face(face_a).up.is_perpendicular_to(spec_cube_face(face_a).direction),
        face_a != face_b ==> spec_cube_face(face_a).direction != spec_cube_face(
            face_b,
        ).direction,
        direction.is_unit() ==> exists|face: int|
            0 <= face < CUBE_FACES && (#[trigger] spec_cube_face(face)).direction == direction,
{
    if direction.is_unit() {
        let face: int = if direction.x == 1 {
            0
        } else if direction.x == -1 {
            1
        } else if direction.y == 1 {
            2
        } else if direction.y == -1 {
            3
        } else if direction.z == -1 {
            4
        } else {
            5
        };
        assert(spec_cube_face(face).direction == direction);
    }
}

} // verus!
