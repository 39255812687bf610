//! Meshes, materials and instances, and the commands that draw them.

use vstd::prelude::*;
use crate::command::{all_pass_scoped, Command, CommandEncoder};
use crate::geometry::{
    is_packed_layout, packed_layout, spec_packed_offset, Vertex, VertexBufferDescriptor, VertexFormat,
};
use crate::math::{Matrix4, Scalar, Vector2, Vector3};
use crate::resource::{BindGroupId, BufferId, Span};

verus! {

/// A material is known by the number it got when it was registered.
pub type MaterialId = u32;

/// The textures of a surface, bound to the shaders as one group.
#[derive(Clone, Debug, PartialEq, Eq)]
pub struct Material {
    pub name: String,
    pub bind_group: BindGroupId,
}

impl Material {
    pub fn new(name: String, bind_group: BindGroupId) -> (material: Self)
        ensures
            material.name == name,
            material.bind_group == bind_group,
    {
        Material { name, bind_group }
    }
}

/// The vertex and index data of one mesh, and which of its model's materials
/// it is drawn with.
#[derive(Clone, Debug, PartialEq, Eq)]
pub struct Mesh {
    pub name: String,
    pub vertex_buffer: BufferId,
    pub index_buffer: BufferId,
    /// The number of indices to draw.
    pub num_elements: u32,
    /// The place of the mesh's material among the materials of its model.
    pub material: usize,
}

#[derive(Clone, Debug, PartialEq, Eq)]
pub struct Model {
    pub meshes: Vec<Mesh>,
    pub materials: Vec<Material>,
}

impl Model {
    /// Every mesh names a material that the model has.
    pub open spec fn wf(&self) -> bool {
        forall|i: int|
            0 <= i < self.meshes@.len() ==> (#[trigger] self.meshes@[i]).material
                < self.materials@.len()
    }

    /// Whether every mesh names a material that the model has.
    pub fn is_well_formed(&self) -> (ok: bool)
        ensures
            ok == self.wf(),
    {
        let mut i: usize = 0;
        while i < self.meshes.len()
            invariant
                i <= self.meshes@.len(),
                forall|j: int|
                    0 <= j < i ==> (#[trigger] self.meshes@[j]).material < self.materials@.len(),
            decreases self.meshes@.len() - i,
        {
            if self.meshes[i].material >= self.materials.len() {
                return false;
            }
            i += 1;
        }
        true
    }
}

/// The commands that draw `instances` of `mesh` with `material`. The four
/// bind groups go to fixed places, which the shaders rely on: the material at
/// 0, the camera uniforms at 1, the instances at 2, the lights with their
/// shadow maps at 3.
pub open spec fn spec_draw_mesh_instanced(
    mesh: Mesh,
    material: Material,
    instances: Span,
    uniforms: BindGroupId,
    instances_bind_group: BindGroupId,
    light: BindGroupId,
) -> Seq<Command> {
    seq![
        Command::SetVertexBuffer { slot: 0, buffer: mesh.vertex_buffer },
        Command::SetIndexBuffer { buffer: mesh.index_buffer },
        Command::SetBindGroup { index: 0, group: material.bind_group, offset: None },
        Command::SetBindGroup { index: 1, group: uniforms, offset: None },
        Command::SetBindGroup { index: 2, group: instances_bind_group, offset: None },
        Command::SetBindGroup { index: 3, group: light, offset: None },
        Command::DrawIndexed {
            indices: Span { start: 0, end: mesh.num_elements },
            base_vertex: 0,
            instances,
        },
    ]
}

/// The commands that draw the first `count` meshes of `model`, each with its
/// own material, in the order of the meshes.
pub open spec fn spec_draw_meshes(
    model: Model,
    count: nat,
    instances: Span,
    uniforms: BindGroupId,
    instances_bind_group: BindGroupId,
    light: BindGroupId,
) -> Seq<Command>
    decreases count,
{
    if count == 0 {
        Seq::empty()
    } else {
        let mesh = model.meshes@[count - 1];
        spec_draw_meshes(
            model,
            (count - 1) as nat,
            instances,
            uniforms,
            instances_bind_group,
            light,
        ) + spec_draw_mesh_instanced(
            mesh,
            model.materials@[mesh.material as int],
            instances,
            uniforms,
            instances_bind_group,
            light,
        )
    }
}

/// The commands that draw the first `count` meshes of `model`, all with
/// `material`, in the order of the meshes.
pub open spec fn spec_draw_meshes_with_material(
    model: Model,
    count: nat,
    material: Material,
    instances: Span,
    uniforms: BindGroupId,
    instances_bind_group: BindGroupId,
    light: BindGroupId,
) -> Seq<Command>
    decreases count,
{
    if count == 0 {
        Seq::empty()
    } else {
        spec_draw_meshes_with_material(
            model,
            (count - 1) as nat,
            material,
            instances,
            uniforms,
            instances_bind_group,
            light,
        ) + spec_draw_mesh_instanced(
            model.meshes@[count - 1],
            material,
            instances,
            uniforms,
            instances_bind_group,
            light,
        )
    }
}

/// Drawing meshes takes only commands that belong to a render pass.
pub proof fn lemma_draw_meshes_pass_scoped(
    model: Model,
    count: nat,
    instances: Span,
    uniforms: BindGroupId,
    instances_bind_group: BindGroupId,
    light: BindGroupId,
)
    ensures
        all_pass_scoped(
            spec_draw_meshes(model, count, instances, uniforms, instances_bind_group, light),
        ),
    decreases count,
{
    if count > 0 {
        lemma_draw_meshes_pass_scoped(
            model,
            (count - 1) as nat,
            instances,
            uniforms,
            instances_bind_group,
            light,
        );
    }
}

impl CommandEncoder {
    /// Records the drawing of one instance of `mesh`.
    pub fn draw_mesh(
        &mut self,
        mesh: &Mesh,
        material: &Material,
        uniforms: BindGroupId,
        instances_bind_group: BindGroupId,
        light: BindGroupId,
    )
        ensures
            final(self)@ == old(self)@ + spec_draw_mesh_instanced(
                *mesh,
                *material,
                Span { start: 0, end: 1 },
                uniforms,
                instances_bind_group,
                light,
            ),
    {
        self.draw_mesh_instanced(
            mesh,
            material,
            Span { start: 0, end: 1 },
            uniforms,
            instances_bind_group,
            light,
        );
    }

    /// Records the drawing of `instances` of `mesh`: its buffers, the four
    /// bind groups at their places, and one indexed draw of all its indices.
    pub fn draw_mesh_instanced(
        &mut self,
        mesh: &Mesh,
        material: &Material,
        instances: Span,
        uniforms: BindGroupId,
        instances_bind_group: BindGroupId,
        light: BindGroupId,
    )
        ensures
            final(self)@ == old(self)@ + spec_draw_mesh_instanced(
                *mesh,
                *material,
                instances,
                uniforms,
                instances_bind_group,
                light,
            ),
    {
        self.set_vertex_buffer(0, mesh.vertex_buffer);
        self.set_index_buffer(mesh.index_buffer);
        self.set_bind_group(0, material.bind_group, None);
        self.set_bind_group(1, uniforms, None);
        self.set_bind_group(2, instances_bind_group, None);
        self.set_bind_group(3, light, None);
        self.draw_indexed(Span { start: 0, end: mesh.num_elements }, 0, instances);
        assert(self@ =~= old(self)@ + spec_draw_mesh_instanced(
            *mesh,
            *material,
            instances,
            uniforms,
            instances_bind_group,
            light,
        ));
    }

    /// Records the drawing of one instance of every mesh of `model`.
    pub fn draw_model(
        &mut self,
        model: &Model,
        uniforms: BindGroupId,
        instances_bind_group: BindGroupId,
        light: BindGroupId,
    )
        requires
            model.wf(),
        ensures
            final(self)@ == old(self)@ + spec_draw_meshes(
                *model,
                model.meshes@.len(),
                Span { start: 0, end: 1 },
                uniforms,
                instances_bind_group,
                light,
            ),
    {
        self.draw_model_instanced(
            model,
            Span { start: 0, end: 1 },
            uniforms,
            instances_bind_group,
            light,
        );
    }

    /// Records the drawing of `instances` of every mesh of `model`, each
    /// with the material that it names.
    pub fn draw_model_instanced(
        &mut self,
        model: &Model,
        instances: Span,
        uniforms: BindGroupId,
        instances_bind_group: BindGroupId,
        light: BindGroupId,
    )
        requires
            model.wf(),
        ensures
            final(self)@ == old(self)@ + spec_draw_meshes(
                *model,
                model.meshes@.len(),
                instances,
                uniforms,
                instances_bind_group,
                light,
            ),
    {
        let mut i: usize = 0;
        while i < model.meshes.len()
            invariant
                i <= model.meshes@.len(),
                model.wf(),
                self@ == old(self)@ + spec_draw_meshes(
                    *model,
                    i as nat,
                    instances,
                    uniforms,
                    instances_bind_group,
                    light,
                ),
            decreases model.meshes@.len() - i,
        {
            let mesh = &model.meshes[i];
            let material = &model.materials[mesh.material];
            self.draw_mesh_instanced(
                mesh,
                material,
                instances,
                uniforms,
                instances_bind_group,
                light,
            );
            i += 1;
        }
    }

    /// Records the drawing of `instances` of every mesh of `model`, all with
    /// `material` in place of their own.
    pub fn draw_model_instanced_with_material(
        &mut self,
        model: &Model,
        material: &Material,
        instances: Span,
        uniforms: BindGroupId,
        instances_bind_group: BindGroupId,
        light: BindGroupId,
    )
        ensures
            final(self)@ == old(self)@ + spec_draw_meshes_with_material(
                *model,
                model.meshes@.len(),
                *material,
                instances,
                uniforms,
                instances_bind_group,
                light,
            ),
    {
        let mut i: usize = 0;
        while i < model.meshes.len()
            invariant
                i <= model.meshes@.len(),
                self@ == old(self)@ + spec_draw_meshes_with_material(
                    *model,
                    i as nat,
                    *material,
                    instances,
                    uniforms,
                    instances_bind_group,
                    light,
                ),
            decreases model.meshes@.len() - i,
        {
            self.draw_mesh_instanced(
                &model.meshes[i],
                material,
                instances,
                uniforms,
                instances_bind_group,
                light,
            );
            i += 1;
        }
    }
}

/// A vertex of a mesh.
#[derive(Clone, Copy, Debug, PartialEq, Eq, Structural)]
pub struct ModelVertex {
    pub position: Vector3,
    pub tex_coords: Vector2,
    pub normal: Vector3,
    pub tangent: Vector3,
    pub bitangent: Vector3,
}

/// The formats of the attributes of a mesh vertex, in their order: position,
/// texture coordinates, normal, tangent, bitangent.
pub open spec fn spec_model_vertex_formats() -> Seq<VertexFormat> {
    seq![
        VertexFormat::Float3,
        VertexFormat::Float2,
        VertexFormat::Float3,
        VertexFormat::Float3,
        VertexFormat::Float3,
    ]
}

impl Vertex for ModelVertex {
    /// The five attributes one after the other, at locations 0 to 4:
    /// fifty-six bytes.
    fn desc() -> (desc: VertexBufferDescriptor)
        ensures
            is_packed_layout(desc, spec_model_vertex_formats()),
            desc.stride == 56,
    {
        let formats = [
            VertexFormat::Float3,
            VertexFormat::Float2,
            VertexFormat::Float3,
            VertexFormat::Float3,
            VertexFormat::Float3,
        ];
        let desc = packed_layout(formats.as_slice());
        proof {
            assert(formats@ =~= spec_model_vertex_formats());
            reveal_with_fuel(spec_packed_offset, 6);
        }
        desc
    }
}

/// The transform of one instance as the shaders read it.
#[derive(Clone, Copy, Debug, PartialEq, Eq, Structural)]
pub struct InstanceRaw {
    pub model: Matrix4,
}

impl InstanceRaw {
    /// The number of bytes of one instance: sixteen numbers, four bytes each.
    pub open spec fn spec_size() -> nat {
        64
    }

    pub fn size() -> (n: u64)
        ensures
            n == Self::spec_size(),
    {
        64
    }

    /// The numbers of the instance in the order in which the GPU reads them.
    pub open spec fn spec_words(self) -> Seq<Scalar> {
        self.model.spec_words()
    }

    /// The numbers of the instance in the order in which the GPU reads them.
    pub fn words(&self) -> (words: Vec<Scalar>)
        ensures
            words@ == self.spec_words(),
            words@.len() * 4 == Self::spec_size(),
    {
        let mut words = Vec::new();
        self.model.push_words(&mut words);
        assert(words@ =~= self.spec_words());
        words
    }
}

} // verus!
