//! The frame: what changes from one frame to the next, and the commands of a
//! frame in the order that the passes depend on.

use vstd::prelude::*;
use crate::billboard::{
    count_material, has_batch, lemma_render_batches_pass_scoped, spec_insert_batches, Billboard, BillboardError,
    BillboardId, Billboards, InstanceResources, MAX_BILLBOARDS,
};
use crate::command::{
    all_pass_scoped, all_shadow_work, all_uploads, ColorAttachment, ColorLoad, Command,
    CommandEncoder, DepthAttachment, DepthLoad, Payload,
};
use crate::debug::DebugPass;
use crate::forward::{background, spec_background, ForwardPass, Uniforms};
use crate::light::{
    is_first_free, is_full, is_packed, spec_pack, spec_white, Light, LightId, Lights, MAX_LIGHTS,
};
use crate::math::{Matrix4, Vector3, Vector4, ONE};
use crate::model::{lemma_draw_meshes_pass_scoped, spec_draw_meshes, Mesh, Model};
use crate::resource::{BindGroupId, Span, TextureViewId};
use crate::texture::Texture;
use crate::shadow::{
    law_offsets_aligned_and_disjoint, spec_light_buffer_offset, spec_shadow_size, ShadowPass,
    ShadowPassRenderData, ShadowPassRunner, ShadowUniforms, CUBE_FACES,
};
use crate::ui::{lemma_render_shadow_maps_overlay, spec_render_shadow_maps, DebugUi};
use crate::Context;

verus! {

/// What a frame takes from outside: the camera, where the lights have moved
/// to, and the shadow transforms that go with their new positions.
pub struct FrameInput {
    /// The camera's position, with one as fourth component.
    pub view_position: Vector4,
    /// The camera's projection times its view matrix.
    pub view_proj: Matrix4,
    /// The camera's view matrix.
    pub view: Matrix4,
    /// The new position of the light of each slot; that of an empty slot is
    /// not looked at.
    pub light_positions: [Vector3; MAX_LIGHTS],
    /// For each slot the transform of each face, in the order of the face
    /// convention, made for the light's new position.
    pub light_projections: [[Matrix4; CUBE_FACES]; MAX_LIGHTS],
}

/// The slots after the light of every occupied slot has moved to the
/// position given for its slot.
pub open spec fn spec_move_lights(slots: Seq<Option<Light>>, positions: Seq<Vector3>) -> Seq<
    Option<Light>,
> {
    Seq::new(slots.len(), |i: int| spec_move_light(slots[i], positions[i]))
}

/// The slot after its light, if it has one, has moved to `position`.
pub open spec fn spec_move_light(slot: Option<Light>, position: Vector3) -> Option<Light> {
    match slot {
        Some(light) => Some(
            Light { position, color: light.color, light_type: light.light_type },
        ),
        None => None,
    }
}

/// The billboards after the markers of the lights in the first `count` slots
/// have followed their lights: the marker of an occupied slot, where there is
/// a billboard with its id, takes the position given for the slot.
pub open spec fn spec_follow_lights(
    billboards: Seq<Billboard>,
    slots: Seq<Option<Light>>,
    markers: Seq<Option<BillboardId>>,
    positions: Seq<Vector3>,
    count: nat,
) -> Seq<Billboard>
    decreases count,
{
    if count == 0 {
        billboards
    } else {
        let before = spec_follow_lights(billboards, slots, markers, positions, (count - 1) as nat);
        let i = count - 1;
        if slots[i] is Some && markers[i] is Some && markers[i]->0 < before.len() {
            before.update(
                markers[i]->0 as int,
                Billboard {
                    position: positions[i],
                    material: before[markers[i]->0 as int].material,
                },
            )
        } else {
            before
        }
    }
}

/// The writes of the shadow transforms of the lights in the first `count`
/// slots: six for each occupied slot, in the order of the slots.
pub open spec fn spec_update_lights(
    pass: ShadowPass,
    slots: Seq<Option<Light>>,
    projections: Seq<[Matrix4; CUBE_FACES]>,
    count: nat,
) -> Seq<Command>
    decreases count,
{
    if count == 0 {
        Seq::empty()
    } else {
        let before = spec_update_lights(pass, slots, projections, (count - 1) as nat);
        match slots[count - 1] {
            Some(light) => before + pass.spec_update_light(
                (count - 1) as nat,
                light,
                projections[count - 1]@,
            ),
            None => before,
        }
    }
}

/// The commands that draw the first `count` of `meshes` into face `face` of
/// light `light`, in the order of the meshes.
pub open spec fn spec_shadow_meshes(
    runner: ShadowPassRunner,
    meshes: Seq<Mesh>,
    instances_bind_group: BindGroupId,
    face: nat,
    light: nat,
    count: nat,
) -> Seq<Command>
    decreases count,
{
    if count == 0 {
        Seq::empty()
    } else {
        spec_shadow_meshes(
            runner,
            meshes,
            instances_bind_group,
            face,
            light,
            (count - 1) as nat,
        ) + runner.spec_render(
            ShadowPassRenderData::spec_from_mesh(meshes[count - 1], instances_bind_group),
            face,
            light,
        )
    }
}

/// What the window reports, as far as the renderer reacts to it.
#[derive(Clone, Copy, Debug, PartialEq, Eq, Structural)]
pub enum InputEvent {
    /// The key that switches between camera and overlay went down or up.
    ToggleKey { pressed: bool },
    /// Another key went down or up.
    OtherKey,
    /// The left mouse button; `ui_wants_mouse` says whether the overlay
    /// claims the mouse.
    LeftClick { ui_wants_mouse: bool },
    /// Anything else.
    Other,
}

/// What is to be done about an input event.
#[derive(Clone, Copy, Debug, PartialEq, Eq, Structural)]
pub enum InputOutcome {
    /// The event is dealt with and nothing is to be done.
    Handled,
    /// The event is of no concern.
    Unhandled,
    /// The event is dealt with; the cursor is to be hidden and grabbed.
    GrabCursor,
    /// The event is dealt with; the cursor is to be shown and set free.
    ReleaseCursor,
    /// The event is for the camera's controls.
    ToCamera,
}

/// How an input event changes whether the camera is active and whether the
/// overlay is visible, and what is to be done about it. Pressing the toggle
/// key hands the mouse to the camera and hides the overlay, or takes it back
/// and shows the overlay; a left click that the overlay does not claim hands
/// the mouse to the camera.
pub open spec fn spec_input(camera_active: bool, ui_visible: bool, event: InputEvent) -> (
    bool,
    bool,
    InputOutcome,
) {
    match event {
        InputEvent::ToggleKey { pressed } => if !pressed {
            (camera_active, ui_visible, InputOutcome::Unhandled)
        } else if !camera_active {
            (true, false, InputOutcome::GrabCursor)
        } else {
            (false, true, InputOutcome::ReleaseCursor)
        },
        InputEvent::OtherKey => (camera_active, ui_visible, InputOutcome::ToCamera),
        InputEvent::LeftClick { ui_wants_mouse } => if ui_wants_mouse {
            (camera_active, ui_visible, InputOutcome::Handled)
        } else {
            (true, ui_visible, InputOutcome::GrabCursor)
        },
        InputEvent::Other => (camera_active, ui_visible, InputOutcome::Unhandled),
    }
}

/// Why a light could not be added.
#[derive(Clone, Copy, Debug, PartialEq, Eq, Structural)]
pub enum AddLightError {
    /// Every slot holds a light.
    NoFreeSlot,
    /// The light's marker could not be inserted.
    Marker(BillboardError),
}

/// The renderer's state from frame to frame.
pub struct State {
    pub context: Context,
    pub forward_pass: ForwardPass,
    /// The instances of the scene's model.
    pub instances_bind_group: BindGroupId,
    /// How many instances of the model are drawn.
    pub instance_count: u32,
    pub obj_model: Model,
    pub billboards: Billboards,
    pub shadow_pass: ShadowPass,
    /// The billboard that marks the light of each slot.
    pub light_billboards: [Option<BillboardId>; MAX_LIGHTS],
    pub debug_pass: DebugPass,
    pub debug_ui: DebugUi,
    /// Whether the camera follows the mouse, which is then grabbed.
    pub camera_active: bool,
}

impl State {
    /// The billboards are well formed and the parts of the state fit each
    /// other.
    pub open spec fn wf(&self) -> bool {
        self.billboards.wf() && self.parts_fit()
    }

    /// The parts of the state fit each other: every mesh of the model names
    /// a material that the model has, the materials of the billboards and of
    /// the lights' markers are known, the overlay has a bind group for every
    /// picture, and every light has a marker.
    pub open spec fn parts_fit(&self) -> bool {
        &&& self.obj_model.wf()
        &&& self.billboards.materials_known(self.context.materials)
        &&& self.context.materials@.contains_key(self.context.lights.material)
        &&& self.debug_ui.wf()
        &&& forall|i: int|
            0 <= i < MAX_LIGHTS ==> ((#[trigger] self.context.lights.slots()[i]) is Some
                ==> self.light_billboards@[i] is Some)
    }

    /// Whether the state is well formed. A state that was put together from
    /// parts can be asked before it is used for a frame.
    pub fn is_ready(&self) -> (ready: bool)
        ensures
            ready == self.wf(),
    {
        if !self.billboards.is_well_formed() {
            return false;
        }
        if !self.obj_model.is_well_formed() {
            return false;
        }
        if !self.billboards.knows_materials(&self.context.materials) {
            return false;
        }
        if !self.context.materials.contains(self.context.lights.material) {
            return false;
        }
        if self.debug_ui.shadow_map_views.len() != self.debug_ui.shadow_bind_groups.len() {
            return false;
        }
        let mut i: usize = 0;
        while i < MAX_LIGHTS
            invariant
                i <= MAX_LIGHTS,
                forall|k: int|
                    0 <= k < i ==> ((#[trigger] self.context.lights.slots()[k]) is Some
                        ==> self.light_billboards@[k] is Some),
            decreases MAX_LIGHTS - i,
        {
            if self.context.lights.lights[i].is_some() && self.light_billboards[i].is_none() {
                return false;
            }
            i += 1;
        }
        true
    }

    /// The two differ at most in the lights' slots and configuration, the
    /// billboards, and the camera uniforms.
    pub open spec fn same_scene(&self, other: State) -> bool {
        &&& self.context.lights.same_resources(
            Lights {
                lights: other.context.lights.lights,
                shadow_textures: other.context.lights.shadow_textures,
                material: other.context.lights.material,
                config: self.context.lights.config,
                buffer: other.context.lights.buffer,
                bind_group: other.context.lights.bind_group,
            },
        )
        &&& self.context.lights.config.buffer == other.context.lights.config.buffer
        &&& self.context.materials == other.context.materials
        &&& self.context.width == other.context.width
        &&& self.context.height == other.context.height
        &&& self.context.instances_bind_group_layout == other.context.instances_bind_group_layout
        &&& self.context.light_bind_group_layout == other.context.light_bind_group_layout
        &&& self.context.texture_bind_group_layout == other.context.texture_bind_group_layout
        &&& self.context.texture_normal_bind_group_layout
            == other.context.texture_normal_bind_group_layout
        &&& self.forward_pass.same_resources(other.forward_pass)
        &&& self.forward_pass.depth_texture == other.forward_pass.depth_texture
        &&& self.instances_bind_group == other.instances_bind_group
        &&& self.instance_count == other.instance_count
        &&& self.obj_model == other.obj_model
        &&& self.billboards.plane() == other.billboards.plane()
        &&& self.billboards.batches() == other.billboards.batches()
        &&& self.shadow_pass == other.shadow_pass
        &&& self.light_billboards == other.light_billboards
        &&& self.debug_pass == other.debug_pass
        &&& self.debug_ui == other.debug_ui
        &&& self.camera_active == other.camera_active
    }

    /// Adds a light at `position` together with the billboard that marks
    /// it, which has the lights' material, and returns the light's id.
    /// `fresh` holds the instance buffer for the first billboard of that
    /// material. Nothing changes when no slot is free or when the billboard
    /// cannot be inserted.
    pub fn add_light(&mut self, position: Vector3, fresh: Option<InstanceResources>) -> (result:
        Result<LightId, AddLightError>)
        requires
            old(self).wf(),
            old(self).billboards.billboards().len() < usize::MAX,
        ensures
            final(self).wf(),
            final(self).context.lights.same_resources(old(self).context.lights),
            final(self).context.materials == old(self).context.materials,
            final(self).forward_pass == old(self).forward_pass,
            final(self).obj_model == old(self).obj_model,
            final(self).shadow_pass == old(self).shadow_pass,
            final(self).instances_bind_group == old(self).instances_bind_group,
            final(self).instance_count == old(self).instance_count,
            final(self).debug_pass == old(self).debug_pass,
            final(self).debug_ui == old(self).debug_ui,
            final(self).camera_active == old(self).camera_active,
            final(self).billboards.plane() == old(self).billboards.plane(),
            match result {
                Ok(id) => {
                    let marker = Billboard {
                        position,
                        material: old(self).context.lights.material,
                    };
                    &&& is_first_free(old(self).context.lights.slots(), id as int)
                    &&& final(self).context.lights.slots() == old(self).context.lights.slots().update(
                        id as int,
                        Some(Light::spec_new(position, spec_white())),
                    )
                    &&& final(self).billboards.billboards() == old(self).billboards.billboards().push(marker)
                    &&& final(self).billboards.batches() == spec_insert_batches(
                        old(self).billboards.batches(),
                        marker,
                        fresh,
                    )
                    &&& final(self).light_billboards@ == old(self).light_billboards@.update(
                        id as int,
                        Some(old(self).billboards.billboards().len() as usize),
                    )
                },
                Err(error) => {
                    &&& final(self).context.lights.slots() == old(self).context.lights.slots()
                    &&& final(self).billboards.billboards() == old(self).billboards.billboards()
                    &&& final(self).billboards.batches() == old(self).billboards.batches()
                    &&& final(self).light_billboards == old(self).light_billboards
                    &&& error == AddLightError::NoFreeSlot <==> is_full(
                        old(self).context.lights.slots(),
                    )
                    &&& error == AddLightError::Marker(BillboardError::Full) <==> !is_full(
                        old(self).context.lights.slots(),
                    ) && count_material(
                        old(self).billboards.billboards(),
                        old(self).context.lights.material,
                    ) >= MAX_BILLBOARDS
                    &&& error == AddLightError::Marker(BillboardError::MissingResources)
                        <==> !is_full(old(self).context.lights.slots()) && count_material(
                        old(self).billboards.billboards(),
                        old(self).context.lights.material,
                    ) < MAX_BILLBOARDS && fresh is None && !has_batch(
                        old(self).billboards.batches(),
                        old(self).context.lights.material,
                    )
                },
            },
    {
        if self.context.lights.first_free().is_none() {
            return Err(AddLightError::NoFreeSlot);
        }
        proof {
            crate::light::lemma_full_or_free(self.context.lights.slots());
        }
        let marker = Billboard { position, material: self.context.lights.material };
        match self.billboards.insert(marker, fresh) {
            Err(error) => Err(AddLightError::Marker(error)),
            Ok(marker_id) => {
                proof {
                    let batches = self.billboards.batches();
                    assert forall|i: int| 0 <= i < batches.len() implies self.context.materials@.contains_key(
                        (#[trigger] batches[i]).material) by {
                        if i < old(self).billboards.batches().len() {
                            assert(batches[i].material == old(self).billboards.batches()[i].material);
                        }
                    }
                }
                match self.context.lights.add_light(position) {
                    Some(id) => {
                        self.light_billboards[id] = Some(marker_id);
                        Ok(id)
                    },
                    None => {
                        proof {
                            assert(false);
                        }
                        Err(AddLightError::NoFreeSlot)
                    },
                }
            },
        }
    }

    /// The two differ at most in whether the camera is active and whether
    /// the overlay is visible.
    pub open spec fn same_but_focus(&self, other: State) -> bool {
        &&& self.context == other.context
        &&& self.forward_pass == other.forward_pass
        &&& self.instances_bind_group == other.instances_bind_group
        &&& self.instance_count == other.instance_count
        &&& self.obj_model == other.obj_model
        &&& self.billboards == other.billboards
        &&& self.shadow_pass == other.shadow_pass
        &&& self.light_billboards == other.light_billboards
        &&& self.debug_pass == other.debug_pass
        &&& self.debug_ui.shadows_enabled == other.debug_ui.shadows_enabled
        &&& self.debug_ui.shadow_map_views == other.debug_ui.shadow_map_views
        &&& self.debug_ui.shadow_bind_groups == other.debug_ui.shadow_bind_groups
    }

    /// Hands the mouse to the camera.
    pub fn grab_camera(&mut self)
        ensures
            final(self).camera_active,
            final(self).debug_ui.is_visible == old(self).debug_ui.is_visible,
            final(self).same_but_focus(*old(self)),
    {
        self.camera_active = true;
    }

    /// Takes the mouse back from the camera.
    pub fn ungrab_camera(&mut self)
        ensures
            !final(self).camera_active,
            final(self).debug_ui.is_visible == old(self).debug_ui.is_visible,
            final(self).same_but_focus(*old(self)),
    {
        self.camera_active = false;
    }

    /// Reacts to an input event and says what is to be done about it.
    pub fn input(&mut self, event: InputEvent) -> (outcome: InputOutcome)
        ensures
            (final(self).camera_active, final(self).debug_ui.is_visible, outcome) == spec_input(
                old(self).camera_active,
                old(self).debug_ui.is_visible,
                event,
            ),
            final(self).same_but_focus(*old(self)),
    {
        match event {
            InputEvent::ToggleKey { pressed } => {
                if !pressed {
                    InputOutcome::Unhandled
                } else if !self.camera_active {
                    self.grab_camera();
                    self.debug_ui.is_visible = false;
                    InputOutcome::GrabCursor
                } else {
                    self.ungrab_camera();
                    self.debug_ui.is_visible = true;
                    InputOutcome::ReleaseCursor
                }
            },
            InputEvent::OtherKey => InputOutcome::ToCamera,
            InputEvent::LeftClick { ui_wants_mouse } => {
                if !ui_wants_mouse {
                    self.grab_camera();
                    InputOutcome::GrabCursor
                } else {
                    InputOutcome::Handled
                }
            },
            InputEvent::Other => InputOutcome::Unhandled,
        }
    }

    /// Takes over the new size of the output and the depth texture that was
    /// made for it.
    pub fn resize(&mut self, width: u32, height: u32, depth_texture: Texture)
        requires
            old(self).wf(),
        ensures
            final(self).wf(),
            final(self).context.width == width,
            final(self).context.height == height,
            final(self).forward_pass.depth_texture == depth_texture,
            final(self).forward_pass.uniforms == old(self).forward_pass.uniforms,
            final(self).forward_pass.same_resources(old(self).forward_pass),
            final(self).context.lights == old(self).context.lights,
            final(self).context.materials == old(self).context.materials,
            final(self).billboards == old(self).billboards,
            final(self).obj_model == old(self).obj_model,
            final(self).shadow_pass == old(self).shadow_pass,
            final(self).light_billboards == old(self).light_billboards,
            final(self).instances_bind_group == old(self).instances_bind_group,
            final(self).instance_count == old(self).instance_count,
            final(self).debug_pass == old(self).debug_pass,
            final(self).debug_ui == old(self).debug_ui,
            final(self).camera_active == old(self).camera_active,
    {
        self.context.resize(width, height);
        self.forward_pass.resize(depth_texture);
    }

    /// The commands of an update, for the state as the update leaves it: the
    /// camera uniforms and the packed lights are staged, the light
    /// configuration and the shadow transforms of every light are written,
    /// all is submitted, and then the billboards' instances are written.
    pub open spec fn spec_update(&self, input: FrameInput) -> Seq<Command> {
        seq![
            self.forward_pass.spec_upload_uniforms(),
            self.context.lights.spec_upload(),
            self.context.lights.config.spec_upload(),
        ] + spec_update_lights(
            self.shadow_pass,
            self.context.lights.slots(),
            input.light_projections@,
            MAX_LIGHTS as nat,
        ) + seq![Command::Submit] + self.billboards.spec_upload(input.view)
    }

    /// Brings the state up to the new frame and records the uploads that
    /// follow from it. The camera uniforms take the new camera; every light
    /// moves to its new position, and its marker with it; the overlay's
    /// shadow switch is taken over. Then the uploads are recorded, every shadow transform
    /// before anything is drawn with it.
    pub fn update(&mut self, encoder: &mut CommandEncoder, input: &FrameInput)
        requires
            old(self).wf(),
        ensures
            final(self).wf(),
            final(self).same_scene(*old(self)),
            final(self).forward_pass.uniforms == (Uniforms {
                view_position: input.view_position,
                view_proj: input.view_proj,
            }),
            final(self).context.lights.slots() == spec_move_lights(
                old(self).context.lights.slots(),
                input.light_positions@,
            ),
            final(self).context.lights.config.shadows_enabled == old(self).debug_ui.shadows_enabled,
            final(self).billboards.billboards() == spec_follow_lights(
                old(self).billboards.billboards(),
                old(self).context.lights.slots(),
                old(self).light_billboards@,
                input.light_positions@,
                MAX_LIGHTS as nat,
            ),
            final(encoder)@ == old(encoder)@ + final(self).spec_update(*input),
            is_packed(
                final(self).context.lights.slots(),
                spec_pack(final(self).context.lights.slots()),
            ),
    {
        self.forward_pass.uniforms.update_view_proj(input.view_position, input.view_proj);
        self.forward_pass.upload_uniforms(encoder);

        let mut i: usize = 0;
        while i < MAX_LIGHTS
            invariant
                i <= MAX_LIGHTS,
                self.billboards.wf(),
                self.obj_model.wf(),
                self.billboards.materials_known(self.context.materials),
                self.same_scene(*old(self)),
                self.context.lights.config == old(self).context.lights.config,
                self.forward_pass.uniforms == (Uniforms {
                    view_position: input.view_position,
                    view_proj: input.view_proj,
                }),
                forall|k: int|
                    0 <= k < MAX_LIGHTS ==> ((#[trigger] old(self).context.lights.slots()[k]) is Some
                        ==> old(self).light_billboards@[k] is Some),
                forall|k: int|
                    0 <= k < MAX_LIGHTS ==> #[trigger] self.context.lights.slots()[k] == (if k < i {
                        spec_move_light(old(self).context.lights.slots()[k], input.light_positions@[k])
                    } else {
                        old(self).context.lights.slots()[k]
                    }),
                self.billboards.billboards() == spec_follow_lights(
                    old(self).billboards.billboards(),
                    old(self).context.lights.slots(),
                    old(self).light_billboards@,
                    input.light_positions@,
                    i as nat,
                ),
                encoder@ == old(encoder)@.push(self.forward_pass.spec_upload_uniforms()),
            decreases MAX_LIGHTS - i,
        {
            let position = input.light_positions[i];
            if self.context.lights.update_position(i, position) {
                match self.light_billboards[i] {
                    Some(marker) => {
                        self.billboards.set_position(marker, position);
                    },
                    None => {
                        proof {
                            assert(old(self).context.lights.slots()[i as int] is Some);
                            assert(false);
                        }
                    },
                }
            }
            i += 1;
        }
        assert(self.context.lights.slots() =~= spec_move_lights(
            old(self).context.lights.slots(),
            input.light_positions@,
        ));

        self.context.lights.upload(encoder);
        self.context.lights.config.shadows_enabled = self.debug_ui.shadows_enabled;
        self.context.lights.config.upload(encoder);
        let ghost head = old(encoder)@ + seq![
            self.forward_pass.spec_upload_uniforms(),
            self.context.lights.spec_upload(),
            self.context.lights.config.spec_upload(),
        ];
        assert(encoder@ =~= head);

        let mut i: usize = 0;
        while i < MAX_LIGHTS
            invariant
                i <= MAX_LIGHTS,
                encoder@ == head + spec_update_lights(
                    self.shadow_pass,
                    self.context.lights.slots(),
                    input.light_projections@,
                    i as nat,
                ),
            decreases MAX_LIGHTS - i,
        {
            if let Some(light) = &self.context.lights.lights[i] {
                self.shadow_pass.update_light(encoder, i, light, &input.light_projections[i]);
                assert(encoder@ =~= head + spec_update_lights(
                    self.shadow_pass,
                    self.context.lights.slots(),
                    input.light_projections@,
                    (i + 1) as nat,
                ));
            }
            i += 1;
        }
        encoder.submit();
        self.billboards.upload(encoder, &input.view);
        assert(encoder@ =~= old(encoder)@ + self.spec_update(*input));
        proof {
            assert forall|k: int| 0 <= k < MAX_LIGHTS implies ((
            #[trigger] self.context.lights.slots()[k]) is Some ==> self.light_billboards@[k] is Some) by {
                assert(old(self).context.lights.slots()[k] is Some ==> old(self).light_billboards@[k]
                    is Some);
            }
        }
    }

    /// The commands that render face `face` of light `light`: the face's
    /// target is cleared and the pass begun, then every mesh is drawn.
    pub open spec fn spec_shadow_face(&self, light: nat, face: nat) -> Seq<Command> {
        self.shadow_pass.spec_begin(face as int) + spec_shadow_meshes(
            ShadowPassRunner { uniforms_bind_group: self.shadow_pass.uniforms_bind_group },
            self.obj_model.meshes@,
            self.instances_bind_group,
            face,
            light,
            self.obj_model.meshes@.len(),
        )
    }

    /// The commands that render the first `count` faces of light `light`, in
    /// the order of the faces.
    pub open spec fn spec_shadow_faces(&self, light: nat, count: nat) -> Seq<Command>
        decreases count,
    {
        if count == 0 {
            Seq::empty()
        } else {
            self.spec_shadow_faces(light, (count - 1) as nat) + self.spec_shadow_face(
                light,
                (count - 1) as nat,
            )
        }
    }

    /// The commands that make the shadow map of light `light`: its six faces
    /// are rendered, and then each is copied into its layer of the light's
    /// cube map.
    pub open spec fn spec_shadow_light(&self, light: nat) -> Seq<Command> {
        self.spec_shadow_faces(light, CUBE_FACES as nat)
            + self.shadow_pass.spec_copy_to_cubemap(self.context.lights.shadow_textures@[light as int])
    }

    /// The commands that make the shadow maps of the lights in the first
    /// `count` slots, in the order of the slots; an empty slot adds nothing.
    pub open spec fn spec_shadow_lights(&self, count: nat) -> Seq<Command>
        decreases count,
    {
        if count == 0 {
            Seq::empty()
        } else if self.context.lights.slots()[count - 1] is Some {
            self.spec_shadow_lights((count - 1) as nat) + self.spec_shadow_light(
                (count - 1) as nat,
            )
        } else {
            self.spec_shadow_lights((count - 1) as nat)
        }
    }

    /// The shadow phase of a frame: the shadow maps of all lights, or nothing
    /// at all when shadows are switched off.
    pub open spec fn spec_shadow_phase(&self) -> Seq<Command> {
        if self.context.lights.config.shadows_enabled {
            self.spec_shadow_lights(MAX_LIGHTS as nat)
        } else {
            Seq::empty()
        }
    }

    /// The pass that clears the output to the background.
    pub open spec fn spec_clear_screen(output: TextureViewId) -> Command {
        Command::BeginRenderPass {
            color: Some(ColorAttachment { view: output, load: ColorLoad::Clear(spec_background()) }),
            depth: None,
        }
    }

    /// The forward phase of a frame: the forward pass begins, the model is
    /// drawn with the forward pipeline, and the billboards with theirs.
    pub open spec fn spec_forward_phase(&self, output: TextureViewId) -> Seq<Command> {
        seq![
            self.forward_pass.spec_begin(output),
            Command::SetPipeline { pipeline: self.forward_pass.pipeline },
        ] + spec_draw_meshes(
            self.obj_model,
            self.obj_model.meshes@.len(),
            Span { start: 0, end: self.instance_count },
            self.forward_pass.uniform_bind_group,
            self.instances_bind_group,
            self.context.lights.bind_group,
        ) + seq![Command::SetPipeline { pipeline: self.forward_pass.billboard_pipeline }]
            + self.billboards.spec_render(self.context.materials, self.forward_pass.uniform_bind_group)
    }

    /// The overlay phase of a frame: the debug overlay, if it is visible.
    pub open spec fn spec_ui_phase(&self, output: TextureViewId) -> Seq<Command> {
        if self.debug_ui.is_visible {
            self.debug_ui.spec_render(output, self.debug_pass)
        } else {
            Seq::empty()
        }
    }

    /// The commands that render a frame onto `output`: the output is
    /// cleared; the shadow maps are made; the scene is drawn; the overlay is
    /// drawn; and all of it is submitted at once.
    pub open spec fn spec_render(&self, output: TextureViewId) -> Seq<Command> {
        seq![Self::spec_clear_screen(output)] + self.spec_shadow_phase() + self.spec_forward_phase(
            output,
        ) + self.spec_ui_phase(output) + seq![Command::Submit]
    }

    /// Records the rendering of a frame onto `output`. All shadow maps are
    /// complete before the forward pass begins, because their commands come
    /// first in the one stream that is submitted. With shadows switched off
    /// the shadow phase is left out and the rest is as ever: the forward pass
    /// then reads the shadow maps as they were left.
    pub fn render(&self, encoder: &mut CommandEncoder, output: TextureViewId)
        requires
            self.wf(),
        ensures
            final(encoder)@ == old(encoder)@ + self.spec_render(output),
    {
        encoder.begin_render_pass(
            Some(ColorAttachment { view: output, load: ColorLoad::Clear(background()) }),
            None,
        );
        let ghost head = old(encoder)@ + seq![Self::spec_clear_screen(output)];
        assert(encoder@ =~= head);

        if self.context.lights.config.shadows_enabled {
            let mut light: usize = 0;
            while light < MAX_LIGHTS
                invariant
                    light <= MAX_LIGHTS,
                    encoder@ == head + self.spec_shadow_lights(light as nat),
                decreases MAX_LIGHTS - light,
            {
                if self.context.lights.lights[light].is_some() {
                    let ghost before = encoder@;
                    let mut face: usize = 0;
                    while face < CUBE_FACES
                        invariant
                            face <= CUBE_FACES,
                            light < MAX_LIGHTS,
                            encoder@ == before + self.spec_shadow_faces(
                                light as nat,
                                face as nat,
                            ),
                        decreases CUBE_FACES - face,
                    {
                        let ghost at_face = encoder@;
                        let mut pass = self.shadow_pass.begin(encoder, face);
                        let ghost begun = encoder@;
                        let mut mesh: usize = 0;
                        while mesh < self.obj_model.meshes.len()
                            invariant
                                mesh <= self.obj_model.meshes@.len(),
                                face < CUBE_FACES,
                                light < MAX_LIGHTS,
                                pass.uniforms_bind_group == self.shadow_pass.uniforms_bind_group,
                                encoder@ == begun + spec_shadow_meshes(
                                    pass,
                                    self.obj_model.meshes@,
                                    self.instances_bind_group,
                                    face as nat,
                                    light as nat,
                                    mesh as nat,
                                ),
                            decreases self.obj_model.meshes@.len() - mesh,
                        {
                            pass.render(
                                encoder,
                                ShadowPassRenderData::from_mesh(
                                    &self.obj_model.meshes[mesh],
                                    self.instances_bind_group,
                                ),
                                face,
                                light,
                            );
                            assert(encoder@ =~= begun + spec_shadow_meshes(
                                pass,
                                self.obj_model.meshes@,
                                self.instances_bind_group,
                                face as nat,
                                light as nat,
                                (mesh + 1) as nat,
                            ));
                            mesh += 1;
                        }
                        assert(pass == (ShadowPassRunner {
                            uniforms_bind_group: self.shadow_pass.uniforms_bind_group,
                        }));
                        assert(encoder@ =~= at_face + self.spec_shadow_face(
                            light as nat,
                            face as nat,
                        ));
                        assert(encoder@ =~= before + self.spec_shadow_faces(
                            light as nat,
                            (face + 1) as nat,
                        ));
                        face += 1;
                    }
                    self.shadow_pass.copy_to_cubemap(encoder, self.context.lights.shadow_textures[light]);
                    assert(encoder@ =~= head + self.spec_shadow_lights((light + 1) as nat));
                }
                light += 1;
            }
        }
        assert(encoder@ =~= head + self.spec_shadow_phase());
        let ghost shadowed = encoder@;

        self.forward_pass.begin(output, encoder);
        encoder.set_pipeline(self.forward_pass.pipeline);
        encoder.draw_model_instanced(
            &self.obj_model,
            Span { start: 0, end: self.instance_count },
            self.forward_pass.uniform_bind_group,
            self.instances_bind_group,
            self.context.lights.bind_group,
        );
        encoder.set_pipeline(self.forward_pass.billboard_pipeline);
        self.billboards.render(encoder, &self.context.materials, self.forward_pass.uniform_bind_group);
        assert(encoder@ =~= shadowed + self.spec_forward_phase(output));

        if self.debug_ui.is_visible {
            self.debug_ui.render(encoder, output, &self.debug_pass);
        }
        assert(encoder@ =~= shadowed + self.spec_forward_phase(output) + self.spec_ui_phase(
            output,
        ));
        encoder.submit();
        assert(encoder@ =~= old(encoder)@ + self.spec_render(output));
    }

    /// Records one whole frame: the update, and then the rendering.
    pub fn frame(&mut self, encoder: &mut CommandEncoder, input: &FrameInput, output: TextureViewId)
        requires
            old(self).wf(),
        ensures
            final(self).wf(),
            final(self).same_scene(*old(self)),
            final(self).forward_pass.uniforms == (Uniforms {
                view_position: input.view_position,
                view_proj: input.view_proj,
            }),
            final(self).context.lights.slots() == spec_move_lights(
                old(self).context.lights.slots(),
                input.light_positions@,
            ),
            final(self).context.lights.config.shadows_enabled == old(self).debug_ui.shadows_enabled,
            final(self).billboards.billboards() == spec_follow_lights(
                old(self).billboards.billboards(),
                old(self).context.lights.slots(),
                old(self).light_billboards@,
                input.light_positions@,
                MAX_LIGHTS as nat,
            ),
            final(encoder)@ == old(encoder)@ + final(self).spec_update(*input)
                + final(self).spec_render(output),
            is_packed(
                final(self).context.lights.slots(),
                spec_pack(final(self).context.lights.slots()),
            ),
    {
        self.update(encoder, input);
        self.render(encoder, output);
    }
}

/// Drawing meshes into a shadow face takes only commands that belong to a
/// render pass.
pub proof fn lemma_shadow_meshes_pass_scoped(
    runner: ShadowPassRunner,
    meshes: Seq<Mesh>,
    instances_bind_group: BindGroupId,
    face: nat,
    light: nat,
    count: nat,
)
    ensures
        all_pass_scoped(
            spec_shadow_meshes(runner, meshes, instances_bind_group, face, light, count),
        ),
    decreases count,
{
    if count > 0 {
        lemma_shadow_meshes_pass_scoped(
            runner,
            meshes,
            instances_bind_group,
            face,
            light,
            (count - 1) as nat,
        );
    }
}

/// The writes of the shadow transforms are uploads.
pub proof fn lemma_update_lights_uploads(
    pass: ShadowPass,
    slots: Seq<Option<Light>>,
    projections: Seq<[Matrix4; CUBE_FACES]>,
    count: nat,
)
    ensures
        all_uploads(spec_update_lights(pass, slots, projections, count)),
    decreases count,
{
    if count > 0 {
        lemma_update_lights_uploads(pass, slots, projections, (count - 1) as nat);
    }
}

/// Drawing `count` meshes into a shadow face takes five commands for each,
/// and the five of mesh number `mesh` are those of drawing that mesh.
pub proof fn lemma_shadow_meshes_index(
    runner: ShadowPassRunner,
    meshes: Seq<Mesh>,
    instances_bind_group: BindGroupId,
    face: nat,
    light: nat,
    count: nat,
    mesh: nat,
)
    requires
        mesh < count,
    ensures
        spec_shadow_meshes(runner, meshes, instances_bind_group, face, light, count).len() == 5
            * count,
        forall|k: int|
            0 <= k < 5 ==> #[trigger] spec_shadow_meshes(
                runner,
                meshes,
                instances_bind_group,
                face,
                light,
                count,
            )[5 * mesh + k] == runner.spec_render(
                ShadowPassRenderData::spec_from_mesh(meshes[mesh as int], instances_bind_group),
                face,
                light,
            )[k],
    decreases count,
{
    let before = spec_shadow_meshes(
        runner,
        meshes,
        instances_bind_group,
        face,
        light,
        (count - 1) as nat,
    );
    if count > 1 {
        lemma_shadow_meshes_index(
            runner,
            meshes,
            instances_bind_group,
            face,
            light,
            (count - 1) as nat,
            if mesh < count - 1 {
                mesh
            } else {
                0
            },
        );
    } else {
        assert(before.len() == 0);
    }
    assert(before.len() == 5 * (count - 1));
}

impl State {
    /// A draw into a face of a light reads the entry that was written for
    /// that face of that light. The draw of every mesh binds the uniform
    /// buffer at the offset of its light and face, and the update writes the
    /// transform of that face, with the light's position, at the same offset;
    /// the offset fits both the write and the binding.
    pub proof fn law_shadow_draw_reads_its_entry(
        &self,
        light_index: nat,
        face: nat,
        mesh: nat,
        light: Light,
        projections: Seq<Matrix4>,
    )
        requires
            light_index < MAX_LIGHTS,
            face < CUBE_FACES,
            mesh < self.obj_model.meshes@.len(),
            projections.len() == CUBE_FACES,
        ensures
            spec_light_buffer_offset(light_index, face) <= u32::MAX,
            self.spec_shadow_face(light_index, face)[3 + 5 * mesh as int + 2] == (Command::SetBindGroup {
                index: 0,
                group: self.shadow_pass.uniforms_bind_group,
                offset: Some(spec_light_buffer_offset(light_index, face) as u32),
            }),
            self.shadow_pass.spec_update_light(light_index, light, projections)[face as int] == (
            Command::WriteBuffer {
                buffer: self.shadow_pass.uniforms_buffer,
                offset: spec_light_buffer_offset(light_index, face) as u64,
                data: Payload::Shadow(
                    ShadowUniforms {
                        light_proj: projections[face as int],
                        light_position: light.position,
                    },
                ),
            }),
    {
        let runner = ShadowPassRunner {
            uniforms_bind_group: self.shadow_pass.uniforms_bind_group,
        };
        lemma_shadow_meshes_index(
            runner,
            self.obj_model.meshes@,
            self.instances_bind_group,
            face,
            light_index,
            self.obj_model.meshes@.len(),
            mesh,
        );
        law_offsets_aligned_and_disjoint(light_index, face, light_index, face);
        let begin = self.shadow_pass.spec_begin(face as int);
        let draws = spec_shadow_meshes(
            runner,
            self.obj_model.meshes@,
            self.instances_bind_group,
            face,
            light_index,
            self.obj_model.meshes@.len(),
        );
        let one = runner.spec_render(
            ShadowPassRenderData::spec_from_mesh(
                self.obj_model.meshes@[mesh as int],
                self.instances_bind_group,
            ),
            face,
            light_index,
        );
        assert(draws[5 * mesh + 2int] == one[2int]);
        assert(begin.len() == 3);
        assert((begin + draws)[3 + 5 * mesh as int + 2] == draws[5 * mesh + 2int]);
    }

    /// The commands of a face are the pass that clears its target, the pass
    /// that draws, and after these only commands within that pass: the
    /// target is cleared once, before the first draw.
    pub proof fn law_shadow_face_clears_once(&self, light: nat, face: nat)
        requires
            face < CUBE_FACES,
        ensures
            self.spec_shadow_face(light, face).len() >= 3,
            self.spec_shadow_face(light, face)[0] == (Command::BeginRenderPass {
                color: None,
                depth: Some(
                    DepthAttachment {
                        view: self.shadow_pass.targets@[face as int].view,
                        load: DepthLoad::Clear(ONE),
                    },
                ),
            }),
            self.spec_shadow_face(light, face)[1] == (Command::BeginRenderPass {
                color: None,
                depth: Some(
                    DepthAttachment {
                        view: self.shadow_pass.targets@[face as int].view,
                        load: DepthLoad::Load,
                    },
                ),
            }),
            forall|k: int|
                2 <= k < self.spec_shadow_face(light, face).len() ==> (
                #[trigger] self.spec_shadow_face(light, face)[k]).is_pass_scoped(),
            all_shadow_work(self.spec_shadow_face(light, face)),
    {
        lemma_shadow_meshes_pass_scoped(
            ShadowPassRunner { uniforms_bind_group: self.shadow_pass.uniforms_bind_group },
            self.obj_model.meshes@,
            self.instances_bind_group,
            face,
            light,
            self.obj_model.meshes@.len(),
        );
    }

    /// Rendering faces takes no copy: every command begins a depth-only pass
    /// or belongs to one.
    pub proof fn lemma_shadow_faces_no_copy(&self, light: nat, count: nat)
        requires
            count <= CUBE_FACES,
        ensures
            forall|k: int|
                0 <= k < self.spec_shadow_faces(light, count).len() ==> {
                    let c = #[trigger] self.spec_shadow_faces(light, count)[k];
                    c.is_depth_only_pass() || c.is_pass_scoped()
                },
        decreases count,
    {
        if count > 0 {
            self.lemma_shadow_faces_no_copy(light, (count - 1) as nat);
            self.law_shadow_face_clears_once(light, (count - 1) as nat);
            let before = self.spec_shadow_faces(light, (count - 1) as nat);
            let face = self.spec_shadow_face(light, (count - 1) as nat);
            assert forall|k: int| 0 <= k < (before + face).len() implies {
                let c = #[trigger] (before + face)[k];
                c.is_depth_only_pass() || c.is_pass_scoped()
            } by {
                if k >= before.len() {
                    let j = k - before.len();
                    assert((before + face)[k] == face[j]);
                    if j >= 2 {
                        assert(face[j].is_pass_scoped());
                    }
                } else {
                    assert((before + face)[k] == before[k]);
                }
            }
        }
    }

    /// The shadow map of a light is made by rendering first and copying
    /// last: the last six commands copy face 0 to 5, each from its target
    /// into the layer of its index of the light's cube map, over the whole
    /// face, and no command before them copies.
    pub proof fn law_cubemap_gets_six_faces(&self, light: nat, face: nat)
        requires
            light < MAX_LIGHTS,
            face < CUBE_FACES,
        ensures
            self.spec_shadow_light(light).len() >= CUBE_FACES,
            self.spec_shadow_light(light)[self.spec_shadow_light(light).len() - CUBE_FACES + face]
                == (Command::CopyTextureToTexture {
                source: self.shadow_pass.targets@[face as int].texture,
                destination: self.context.lights.shadow_textures@[light as int],
                layer: face as u32,
                extent: spec_shadow_size(),
            }),
            forall|k: int|
                0 <= k < self.spec_shadow_light(light).len() - CUBE_FACES ==> !((
                #[trigger] self.spec_shadow_light(light)[k]) is CopyTextureToTexture),
            all_shadow_work(self.spec_shadow_light(light)),
    {
        self.lemma_shadow_faces_no_copy(light, CUBE_FACES as nat);
        let faces = self.spec_shadow_faces(light, CUBE_FACES as nat);
        let copies = self.shadow_pass.spec_copy_to_cubemap(self.context.lights.shadow_textures@[light as int]);
        assert(copies.len() == CUBE_FACES);
        assert((faces + copies)[(faces.len() + face) as int] == copies[face as int]);
        assert forall|k: int| 0 <= k < faces.len() implies !((#[trigger] (faces + copies)[k])
            is CopyTextureToTexture) by {
            assert((faces + copies)[k] == faces[k]);
        }
        assert forall|k: int| 0 <= k < (faces + copies).len() implies (#[trigger] (faces
            + copies)[k]).is_shadow_work() by {
            if k < faces.len() {
                assert((faces + copies)[k] == faces[k]);
            } else {
                assert((faces + copies)[k] == copies[k - faces.len()]);
            }
        }
    }

    /// Making the shadow maps of the lights takes only shadow work.
    pub proof fn lemma_shadow_lights_shadow_work(&self, count: nat)
        requires
            count <= MAX_LIGHTS,
        ensures
            all_shadow_work(self.spec_shadow_lights(count)),
        decreases count,
    {
        if count > 0 {
            self.lemma_shadow_lights_shadow_work((count - 1) as nat);
            if self.context.lights.slots()[count - 1] is Some {
                self.law_cubemap_gets_six_faces((count - 1) as nat, 0);
                let before = self.spec_shadow_lights((count - 1) as nat);
                let light = self.spec_shadow_light((count - 1) as nat);
                assert forall|k: int| 0 <= k < (before + light).len() implies (#[trigger] (before
                    + light)[k]).is_shadow_work() by {
                    if k < before.len() {
                        assert((before + light)[k] == before[k]);
                    } else {
                        assert((before + light)[k] == light[k - before.len()]);
                    }
                }
            }
        }
    }

    /// The forward pass begins once, and only when every shadow map is
    /// complete. In the commands of a frame the forward pass begins right
    /// after the shadow phase; everything between the clearing of the output
    /// and that point is shadow work; and after that point no pass without a
    /// colour target begins and no texture is copied, so nothing writes a
    /// shadow map that the forward pass may already read. No other command
    /// of the frame begins a pass with both a colour and a depth target.
    pub proof fn law_shadow_maps_before_forward_pass(&self, output: TextureViewId)
        ensures
            ({
                let commands = self.spec_render(output);
                let begin = 1 + self.spec_shadow_phase().len();
                &&& begin < commands.len()
                &&& commands[0] == Self::spec_clear_screen(output)
                &&& commands[begin as int] == self.forward_pass.spec_begin(output)
                &&& forall|k: int| 1 <= k < begin ==> (#[trigger] commands[k]).is_shadow_work()
                &&& forall|k: int|
                    begin < k < commands.len() ==> !(#[trigger] commands[k]).is_depth_only_pass()
                        && !(commands[k] is CopyTextureToTexture)
                &&& forall|k: int|
                    0 <= k < commands.len() && k != begin ==> !(
                    #[trigger] commands[k]).is_scene_pass()
                &&& forall|k: int|
                    0 <= k < commands.len() && (#[trigger] commands[k]) is RenderUi ==> begin < k
                &&& commands.last() == Command::Submit
            }),
    {
        let commands = self.spec_render(output);
        let clear = seq![Self::spec_clear_screen(output)];
        let shadow = self.spec_shadow_phase();
        let forward = self.spec_forward_phase(output);
        let ui = self.spec_ui_phase(output);
        let submit = seq![Command::Submit];
        let begin = 1 + shadow.len();
        if self.context.lights.config.shadows_enabled {
            self.lemma_shadow_lights_shadow_work(MAX_LIGHTS as nat);
        }
        let meshes = spec_draw_meshes(
            self.obj_model,
            self.obj_model.meshes@.len(),
            Span { start: 0, end: self.instance_count },
            self.forward_pass.uniform_bind_group,
            self.instances_bind_group,
            self.context.lights.bind_group,
        );
        lemma_draw_meshes_pass_scoped(
            self.obj_model,
            self.obj_model.meshes@.len(),
            Span { start: 0, end: self.instance_count },
            self.forward_pass.uniform_bind_group,
            self.instances_bind_group,
            self.context.lights.bind_group,
        );
        lemma_render_batches_pass_scoped(
            self.billboards.batches(),
            self.context.materials,
            self.billboards.batches().len(),
        );
        let billboards = self.billboards.spec_render(
            self.context.materials,
            self.forward_pass.uniform_bind_group,
        );
        assert(all_pass_scoped(billboards));
        let head = seq![
            self.forward_pass.spec_begin(output),
            Command::SetPipeline { pipeline: self.forward_pass.pipeline },
        ];
        let switch = seq![Command::SetPipeline { pipeline: self.forward_pass.billboard_pipeline }];
        assert(forward == head + meshes + switch + billboards);
        assert(forward[0] == self.forward_pass.spec_begin(output));
        assert forall|j: int| 1 <= j < forward.len() implies (#[trigger] forward[j]).is_pass_scoped() by {
            if j < 2 {
            } else if j < 2 + meshes.len() {
                assert(forward[j] == meshes[j - 2]);
            } else if j < 3 + meshes.len() {
                assert(forward[j] == switch[j - 2 - meshes.len()]);
            } else {
                assert(forward[j] == billboards[j - 3 - meshes.len()]);
            }
        }
        assert(commands == clear + shadow + forward + ui + submit);
        assert(commands[begin as int] == forward[0]);
        assert forall|k: int| 1 <= k < begin implies (#[trigger] commands[k]).is_shadow_work() by {
            assert(commands[k] == shadow[k - 1]);
        }
        if self.debug_ui.is_visible {
            lemma_render_shadow_maps_overlay(
                self.debug_pass,
                self.debug_ui.shadow_map_views@,
                self.debug_ui.shadow_bind_groups@,
                self.debug_ui.shadow_map_views@.len(),
            );
            let maps = spec_render_shadow_maps(
                self.debug_pass,
                self.debug_ui.shadow_map_views@,
                self.debug_ui.shadow_bind_groups@,
                self.debug_ui.shadow_map_views@.len(),
            );
            assert forall|j: int| 0 <= j < ui.len() implies (#[trigger] ui[j]).is_overlay_work() by {
                if j < maps.len() {
                    assert(ui[j] == maps[j]);
                }
            }
        }
        assert forall|k: int| begin < k < commands.len() implies !(
        #[trigger] commands[k]).is_depth_only_pass() && !(commands[k] is CopyTextureToTexture)
            && !commands[k].is_scene_pass() by {
            if k < begin + forward.len() {
                assert(commands[k] == forward[k - begin]);
                assert(forward[k - begin].is_pass_scoped());
            } else if k < begin + forward.len() + ui.len() {
                assert(commands[k] == ui[k - begin - forward.len()]);
                assert(ui[k - begin - forward.len()].is_overlay_work());
            } else {
                assert(commands[k] == submit[k - begin - forward.len() - ui.len()]);
            }
        }
        assert forall|k: int| 0 <= k < begin implies !(#[trigger] commands[k]).is_scene_pass()
            && !(commands[k] is RenderUi) by {
            if k >= 1 {
                assert(commands[k].is_shadow_work());
            }
        }
    }

    /// With shadows switched off a frame is still rendered: the output is
    /// cleared and the forward pass follows at once, with all that it draws.
    pub proof fn law_frame_without_shadows(&self, output: TextureViewId)
        requires
            !self.context.lights.config.shadows_enabled,
        ensures
            self.spec_render(output) == seq![Self::spec_clear_screen(output)]
                + self.spec_forward_phase(output) + self.spec_ui_phase(output)
                + seq![Command::Submit],
            self.spec_render(output)[1] == self.forward_pass.spec_begin(output),
    {
        assert(self.spec_shadow_phase() =~= Seq::<Command>::empty());
        assert(seq![Self::spec_clear_screen(output)] + self.spec_shadow_phase() =~= seq![
            Self::spec_clear_screen(output),
        ]);
    }

    /// An update draws nothing: its commands upload data or submit. So in a
    /// frame, where the update comes first, every shadow transform is
    /// written before the first pass begins.
    pub proof fn law_update_only_uploads(&self, input: FrameInput)
        ensures
            all_uploads(self.spec_update(input)),
    {
        lemma_update_lights_uploads(
            self.shadow_pass,
            self.context.lights.slots(),
            input.light_projections@,
            MAX_LIGHTS as nat,
        );
        let head = seq![
            self.forward_pass.spec_upload_uniforms(),
            self.context.lights.spec_upload(),
            self.context.lights.config.spec_upload(),
        ];
        let lights = spec_update_lights(
            self.shadow_pass,
            self.context.lights.slots(),
            input.light_projections@,
            MAX_LIGHTS as nat,
        );
        let submit = seq![Command::Submit];
        let billboards = self.billboards.spec_upload(input.view);
        let commands = self.spec_update(input);
        assert(commands == head + lights + submit + billboards);
        assert forall|k: int| 0 <= k < commands.len() implies (#[trigger] commands[k]).is_upload() by {
            if k < 3 {
                assert(commands[k] == head[k]);
            } else if k < 3 + lights.len() {
                assert(commands[k] == lights[k - 3]);
            } else if k < 4 + lights.len() {
                assert(commands[k] == submit[k - 3 - lights.len()]);
            } else {
                assert(commands[k] == billboards[k - 4 - lights.len()]);
            }
        }
    }
}

} // verus!
