//! The CPU side of a forward renderer with cube-mapped point-light shadows:
//! light slots and their packed GPU image, the layout of the shadow uniform
//! buffer, the cube-face convention, billboards, and the recording of each
//! frame's GPU commands in their required order.
//!
//! Numbers that the GPU reads as single-precision floats are held here as
//! their bit patterns, and GPU resources as plain handles; the commands that
//! this crate records are carried out by its caller.

pub mod math;
pub mod resource;
pub mod model;
pub mod light;
pub mod shadow;
pub mod texture;
pub mod forward;
pub mod command;
pub mod geometry;
pub mod billboard;
pub mod pipeline;
pub mod debug;
pub mod ui;
pub mod frame;

use std::collections::HashMap;
use vstd::prelude::*;
use vstd::pervasive::unreached;
use crate::light::Lights;
use crate::model::{Material, MaterialId};
use crate::resource::{BindGroupId, BindGroupLayoutId};

verus! {

broadcast use vstd::std_specs::hash::group_hash_axioms;

/// The materials of the scene, each under the id it got when it came in.
pub struct Materials {
    next_id: MaterialId,
    materials: HashMap<MaterialId, Material>,
}

impl View for Materials {
    type V = Map<MaterialId, Material>;

    closed spec fn view(&self) -> Map<MaterialId, Material> {
        self.materials@
    }
}

impl Materials {
    /// The number of materials that were inserted, which is the id that the
    /// next one gets.
    pub closed spec fn count(&self) -> nat {
        self.next_id as nat
    }

    /// The ids in use are exactly those below the count.
    pub open spec fn wf(&self) -> bool {
        forall|id: MaterialId| self@.contains_key(id) <==> id < self.count()
    }

    /// A table without materials.
    pub fn new() -> (materials: Self)
        ensures
            materials.wf(),
            materials.count() == 0,
            materials@ == Map::<MaterialId, Material>::empty(),
    {
        Materials { next_id: 0, materials: HashMap::new() }
    }

    /// The number of materials in the table.
    pub fn len(&self) -> (n: MaterialId)
        ensures
            n == self.count(),
    {
        self.next_id
    }

    /// Takes `material` in under the next id and returns that id. Ids are
    /// given out in order, from zero, and none is given twice.
    pub fn insert(&mut self, material: Material) -> (id: MaterialId)
        requires
            old(self).wf(),
            old(self).count() < u32::MAX,
        ensures
            final(self).wf(),
            id == old(self).count(),
            final(self).count() == old(self).count() + 1,
            final(self)@ == old(self)@.insert(id, material),
    {
        let id = self.next_id;
        self.materials.insert(id, material);
        self.next_id += 1;
        proof {
            assert forall|k: MaterialId| self@.contains_key(k) <==> k < self.count() by {
                assert(old(self)@.contains_key(k) <==> k < old(self).count());
            }
        }
        id
    }

    /// The material with the given id.
    pub fn get(&self, id: MaterialId) -> (material: &Material)
        requires
            self@.contains_key(id),
        ensures
            *material == self@[id],
    {
        match self.materials.get(&id) {
            Some(material) => material,
            None => unreached(),
        }
    }

    /// Whether the table holds a material with the given id.
    pub fn contains(&self, id: MaterialId) -> (found: bool)
        ensures
            found == self@.contains_key(id),
    {
        self.materials.contains_key(&id)
    }
}

impl Default for Materials {
    fn default() -> (materials: Self)
        ensures
            materials.wf(),
            materials.count() == 0,
            materials@ == Map::<MaterialId, Material>::empty(),
    {
        Materials::new()
    }
}

/// What the whole renderer shares: the size of the output, the materials,
/// the lights, and the layouts of the bind groups.
pub struct Context {
    /// The width of the output in pixels.
    pub width: u32,
    /// The height of the output in pixels.
    pub height: u32,
    pub materials: Materials,
    pub lights: Lights,
    pub instances_bind_group_layout: BindGroupLayoutId,
    pub light_bind_group_layout: BindGroupLayoutId,
    pub texture_bind_group_layout: BindGroupLayoutId,
    pub texture_normal_bind_group_layout: BindGroupLayoutId,
}

impl Context {
    /// Takes over the new size of the output.
    pub fn resize(&mut self, width: u32, height: u32)
        ensures
            final(self).width == width,
            final(self).height == height,
            final(self).materials == old(self).materials,
            final(self).lights == old(self).lights,
            final(self).instances_bind_group_layout == old(self).instances_bind_group_layout,
            final(self).light_bind_group_layout == old(self).light_bind_group_layout,
            final(self).texture_bind_group_layout == old(self).texture_bind_group_layout,
            final(self).texture_normal_bind_group_layout == old(self).texture_normal_bind_group_layout,
    {
        self.width = width;
        self.height = height;
    }

    /// Registers a material with the given name and bind group and returns
    /// its id.
    pub fn create_material(&mut self, name: String, bind_group: BindGroupId) -> (id: MaterialId)
        requires
            old(self).materials.wf(),
            old(self).materials.count() < u32::MAX,
        ensures
            final(self).materials.wf(),
            id == old(self).materials.count(),
            final(self).materials.count() == old(self).materials.count() + 1,
            final(self).materials@ == old(self).materials@.insert(
                id,
                Material { name, bind_group },
            ),
            final(self).width == old(self).width,
            final(self).height == old(self).height,
            final(self).lights == old(self).lights,
    {
        self.materials.insert(Material::new(name, bind_group))
    }

    /// The material with the given id.
    pub fn get_material(&self, id: MaterialId) -> (material: &Material)
        requires
            self.materials@.contains_key(id),
        ensures
            *material == self.materials@[id],
    {
        self.materials.get(id)
    }
}

} // verus!
