//! The unit quad on which billboards are drawn.

use vstd::prelude::*;
use crate::command::{Command, CommandEncoder};
use crate::math::{Vector2, Vector3, MINUS_ONE, ONE, ZERO};
use crate::model::Material;
use crate::resource::{BindGroupId, BufferId, Span};

verus! {

/// The number of indices of the quad: two triangles.
pub const PLANE_INDEX_COUNT: u32 = 6;

/// The indices of the quad's two triangles, counter-clockwise, into its four
/// corners.
pub open spec fn spec_plane_indices() -> Seq<u32> {
    seq![0u32, 1u32, 2u32, 0u32, 2u32, 3u32]
}

/// The indices of the quad's two triangles.
pub fn plane_indices() -> (indices: [u32; 6])
    ensures
        indices@ == spec_plane_indices(),
        indices@.len() == PLANE_INDEX_COUNT,
        forall|i: int| 0 <= i < 6 ==> (#[trigger] indices@[i]) < 4,
{
    let indices: [u32; 6] = [0, 1, 2, 0, 2, 3];
    assert(indices@ =~= spec_plane_indices());
    indices
}

/// A corner of the quad: where it is, and where it lies in the texture.
#[derive(Clone, Copy, Debug, PartialEq, Eq, Structural)]
pub struct SimpleVertex {
    pub position: Vector3,
    pub tex_coords: Vector2,
}

/// The four corners of the quad, counter-clockwise from the lower left. The
/// quad spans -1 to 1 in x and y, and the texture is laid on it upright.
pub fn plane_vertices() -> (vertices: [SimpleVertex; 4])
    ensures
        vertices@[0] == (SimpleVertex {
            position: Vector3 { x: MINUS_ONE, y: MINUS_ONE, z: ZERO },
            tex_coords: Vector2 { x: ZERO, y: ONE },
        }),
        vertices@[1] == (SimpleVertex {
            position: Vector3 { x: ONE, y: MINUS_ONE, z: ZERO },
            tex_coords: Vector2 { x: ONE, y: ONE },
        }),
        vertices@[2] == (SimpleVertex {
            position: Vector3 { x: ONE, y: ONE, z: ZERO },
            tex_coords: Vector2 { x: ONE, y: ZERO },
        }),
        vertices@[3] == (SimpleVertex {
            position: Vector3 { x: MINUS_ONE, y: ONE, z: ZERO },
            tex_coords: Vector2 { x: ZERO, y: ZERO },
        }),
{
    [
        SimpleVertex {
            position: Vector3 { x: MINUS_ONE, y: MINUS_ONE, z: ZERO },
            tex_coords: Vector2 { x: ZERO, y: ONE },
        },
        SimpleVertex {
            position: Vector3 { x: ONE, y: MINUS_ONE, z: ZERO },
            tex_coords: Vector2 { x: ONE, y: ONE },
        },
        SimpleVertex {
            position: Vector3 { x: ONE, y: ONE, z: ZERO },
            tex_coords: Vector2 { x: ONE, y: ZERO },
        },
        SimpleVertex {
            position: Vector3 { x: MINUS_ONE, y: ONE, z: ZERO },
            tex_coords: Vector2 { x: ZERO, y: ZERO },
        },
    ]
}

/// The formats of vertex attributes: two or three single-precision numbers.
#[derive(Clone, Copy, Debug, PartialEq, Eq, Structural)]
pub enum VertexFormat {
    Float2,
    Float3,
}

impl VertexFormat {
    /// The number of bytes of an attribute of this format.
    pub open spec fn spec_size(self) -> nat {
        match self {
            VertexFormat::Float2 => 8,
            VertexFormat::Float3 => 12,
        }
    }

    pub fn size(&self) -> (n: u64)
        ensures
            n == self.spec_size(),
    {
        match self {
            VertexFormat::Float2 => 8,
            VertexFormat::Float3 => 12,
        }
    }
}

/// Where one attribute of a vertex lies, and at which location the shader
/// reads it.
#[derive(Clone, Copy, Debug, PartialEq, Eq, Structural)]
pub struct VertexAttributeDescriptor {
    pub offset: u64,
    pub shader_location: u32,
    pub format: VertexFormat,
}

/// How the vertices lie in a vertex buffer: `stride` bytes from one vertex
/// to the next, one vertex per step.
#[derive(Clone, Debug, PartialEq, Eq)]
pub struct VertexBufferDescriptor {
    pub stride: u64,
    pub attributes: Vec<VertexAttributeDescriptor>,
}

/// The number of bytes of the first `count` attributes of a vertex whose
/// attributes have the given formats.
pub open spec fn spec_packed_offset(formats: Seq<VertexFormat>, count: nat) -> nat
    decreases count,
{
    if count == 0 {
        0
    } else {
        spec_packed_offset(formats, (count - 1) as nat) + formats[count - 1].spec_size()
    }
}

/// `desc` describes vertices whose attributes have the given formats and lie
/// one after the other without a gap: the attribute number `i` starts where
/// the one before it ends, the shader reads it at location `i`, and the
/// stride is the size of all attributes together.
pub open spec fn is_packed_layout(desc: VertexBufferDescriptor, formats: Seq<VertexFormat>) -> bool {
    &&& desc.attributes@.len() == formats.len()
    &&& desc.stride == spec_packed_offset(formats, formats.len())
    &&& forall|i: int|
        0 <= i < formats.len() ==> #[trigger] desc.attributes@[i] == (VertexAttributeDescriptor {
            offset: spec_packed_offset(formats, i as nat) as u64,
            shader_location: i as u32,
            format: formats[i],
        })
}

/// The first `count` attributes take at most twelve bytes each.
proof fn lemma_packed_offset_bound(formats: Seq<VertexFormat>, count: nat)
    ensures
        spec_packed_offset(formats, count) <= 12 * count,
    decreases count,
{
    if count > 0 {
        lemma_packed_offset_bound(formats, (count - 1) as nat);
    }
}

/// The layout of vertices whose attributes have the given formats and lie
/// one after the other without a gap.
pub fn packed_layout(formats: &[VertexFormat]) -> (desc: VertexBufferDescriptor)
    requires
        formats@.len() <= u32::MAX,
    ensures
        is_packed_layout(desc, formats@),
{
    let mut attributes: Vec<VertexAttributeDescriptor> = Vec::new();
    let mut offset: u64 = 0;
    let mut i: usize = 0;
    while i < formats.len()
        invariant
            i <= formats@.len(),
            formats@.len() <= u32::MAX,
            offset == spec_packed_offset(formats@, i as nat),
            attributes@.len() == i,
            forall|k: int|
                0 <= k < i ==> #[trigger] attributes@[k] == (VertexAttributeDescriptor {
                    offset: spec_packed_offset(formats@, k as nat) as u64,
                    shader_location: k as u32,
                    format: formats@[k],
                }),
        decreases formats@.len() - i,
    {
        proof {
            lemma_packed_offset_bound(formats@, i as nat);
        }
        attributes.push(
            VertexAttributeDescriptor { offset, shader_location: i as u32, format: formats[i] },
        );
        offset = offset + formats[i].size();
        i += 1;
    }
    VertexBufferDescriptor { stride: offset, attributes }
}

/// A kind of vertex that can say how it lies in a vertex buffer.
pub trait Vertex {
    fn desc() -> VertexBufferDescriptor;
}

impl Vertex for SimpleVertex {
    /// A position of three numbers at location 0, then texture coordinates
    /// of two at location 1: twenty bytes.
    fn desc() -> (desc: VertexBufferDescriptor)
        ensures
            is_packed_layout(desc, seq![VertexFormat::Float3, VertexFormat::Float2]),
            desc.stride == 20,
    {
        let formats = [VertexFormat::Float3, VertexFormat::Float2];
        let desc = packed_layout(formats.as_slice());
        proof {
            assert(formats@ =~= seq![VertexFormat::Float3, VertexFormat::Float2]);
            reveal_with_fuel(spec_packed_offset, 3);
        }
        desc
    }
}

/// The vertex and index buffers of the quad.
#[derive(Clone, Copy, Debug, PartialEq, Eq, Structural)]
pub struct Plane {
    pub vertex_buffer: BufferId,
    pub index_buffer: BufferId,
}

impl Plane {
    pub fn new(vertex_buffer: BufferId, index_buffer: BufferId) -> (plane: Self)
        ensures
            plane == (Plane { vertex_buffer, index_buffer }),
    {
        Plane { vertex_buffer, index_buffer }
    }

    /// The commands that draw the quad once with `material`.
    pub open spec fn spec_render(
        &self,
        material: Material,
        uniforms_bind_group: BindGroupId,
        instances_bind_group: BindGroupId,
    ) -> Seq<Command> {
        seq![
            Command::SetVertexBuffer { slot: 0, buffer: self.vertex_buffer },
            Command::SetIndexBuffer { buffer: self.index_buffer },
            Command::SetBindGroup { index: 0, group: material.bind_group, offset: None },
            Command::SetBindGroup { index: 1, group: uniforms_bind_group, offset: None },
            Command::SetBindGroup { index: 2, group: instances_bind_group, offset: None },
            Command::DrawIndexed {
                indices: Span { start: 0, end: PLANE_INDEX_COUNT },
                base_vertex: 0,
                instances: Span { start: 0, end: 1 },
            },
        ]
    }

    /// Records the drawing of one quad: its buffers, the material at 0, the
    /// camera uniforms at 1, the instances at 2, and the draw of its six
    /// indices.
    pub fn render(
        &self,
        encoder: &mut CommandEncoder,
        material: &Material,
        uniforms_bind_group: BindGroupId,
        instances_bind_group: BindGroupId,
    )
        ensures
            final(encoder)@ == old(encoder)@ + self.spec_render(
                *material,
                uniforms_bind_group,
                instances_bind_group,
            ),
    {
        encoder.set_vertex_buffer(0, self.vertex_buffer);
        encoder.set_index_buffer(self.index_buffer);
        encoder.set_bind_group(0, material.bind_group, None);
        encoder.set_bind_group(1, uniforms_bind_group, None);
        encoder.set_bind_group(2, instances_bind_group, None);
        encoder.draw_indexed(
            Span { start: 0, end: PLANE_INDEX_COUNT },
            0,
            Span { start: 0, end: 1 },
        );
        assert(encoder@ =~= old(encoder)@ + self.spec_render(
            *material,
            uniforms_bind_group,
            instances_bind_group,
        ));
    }
}

} // verus!
