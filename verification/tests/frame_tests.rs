use kanvas::billboard::{billboard_transform, Billboard, BillboardError, Billboards, InstanceResources};
use kanvas::command::{ColorAttachment, ColorLoad, Command, CommandEncoder, DepthLoad, Payload};
use kanvas::forward::{ForwardPass, Uniforms};
use kanvas::debug::DebugPass;
use kanvas::frame::{AddLightError, FrameInput, InputEvent, InputOutcome, State};
use kanvas::ui::DebugUi;
use kanvas::geometry::Plane;
use kanvas::light::{LightConfig, Lights, MAX_LIGHTS};
use kanvas::math::{Matrix4, Vector3, Vector4, ONE};
use kanvas::model::{InstanceRaw, Material, Mesh, Model};
use kanvas::resource::{
    BindGroupId, BindGroupLayoutId, BufferId, Extent3d, PipelineId, SamplerId, Span, TextureId,
    TextureViewId,
};
use kanvas::shadow::{ShadowMapTarget, ShadowPass, ShadowUniforms};
use kanvas::texture::Texture;
use kanvas::{Context, Materials};

const OUTPUT: TextureViewId = TextureViewId(999);

fn v3(x: f32, y: f32, z: f32) -> Vector3 {
    Vector3::new(x.to_bits(), y.to_bits(), z.to_bits())
}

fn matrix(seed: u32) -> Matrix4 {
    let column = |c: u32| Vector4::new(seed + 4 * c, seed + 4 * c + 1, seed + 4 * c + 2, seed + 4 * c + 3);
    Matrix4::from_cols(column(0), column(1), column(2), column(3))
}

fn lights() -> Lights {
    Lights::new([TextureId(10), TextureId(11)], 0, LightConfig::new(BufferId(3)), BufferId(4), BindGroupId(5))
}

fn state(light_positions: &[Vector3]) -> State {
    let mut materials = Materials::new();
    let bulb = materials.insert(Material::new(String::from("bulb"), BindGroupId(70)));
    let mut lights = lights();
    lights.material = bulb;
    let mut billboards = Billboards::new(Plane::new(BufferId(40), BufferId(41)));
    let mut light_billboards = [None; MAX_LIGHTS];
    for position in light_positions {
        let marker = billboards
            .insert(
                Billboard { position: *position, material: bulb },
                Some(InstanceResources { instance_buffer: BufferId(500), instance_bind_group: BindGroupId(600) }),
            )
            .unwrap();
        let id = lights.add_light(*position).unwrap();
        light_billboards[id] = Some(marker);
    }
    let target = |i: u32| ShadowMapTarget {
        texture: TextureId(100 + i),
        view: TextureViewId(200 + i),
        bind_group: BindGroupId(300 + i),
    };
    let mesh = |n: u32| Mesh {
        name: format!("mesh{}", n),
        vertex_buffer: BufferId(20 + n),
        index_buffer: BufferId(30 + n),
        num_elements: 36,
        material: 0,
    };
    State {
        context: Context {
            width: 800,
            height: 600,
            materials,
            lights,
            instances_bind_group_layout: BindGroupLayoutId(11),
            light_bind_group_layout: BindGroupLayoutId(12),
            texture_bind_group_layout: BindGroupLayoutId(13),
            texture_normal_bind_group_layout: BindGroupLayoutId(14),
        },
        forward_pass: ForwardPass::new(
            BindGroupLayoutId(1),
            BindGroupLayoutId(2),
            BufferId(6),
            BindGroupId(7),
            Texture {
                size: Extent3d { width: 800, height: 600, depth: 1 },
                texture: TextureId(50),
                view: TextureViewId(51),
                sampler: SamplerId(52),
            },
            PipelineId(8),
            PipelineId(9),
        ),
        instances_bind_group: BindGroupId(60),
        instance_count: 1,
        obj_model: Model {
            meshes: vec![mesh(0), mesh(1)],
            materials: vec![Material::new(String::from("stone"), BindGroupId(61))],
        },
        billboards,
        shadow_pass: ShadowPass::new(
            PipelineId(1),
            BufferId(2),
            BindGroupId(3),
            [target(0), target(1), target(2), target(3), target(4), target(5)],
            BindGroupLayoutId(4),
        ),
        light_billboards,
        debug_pass: DebugPass::new(BufferId(42), BufferId(43), PipelineId(10)),
        debug_ui: DebugUi::new(
            vec![TextureViewId(700), TextureViewId(701)],
            vec![BindGroupId(710), BindGroupId(711)],
        ),
        camera_active: false,
    }
}

fn input(positions: [Vector3; MAX_LIGHTS]) -> FrameInput {
    let faces = |l: u32| {
        [matrix(l), matrix(l + 100), matrix(l + 200), matrix(l + 300), matrix(l + 400), matrix(l + 500)]
    };
    FrameInput {
        view_position: Vector4::new(1, 2, 3, ONE),
        view_proj: matrix(7000),
        view: matrix(8000),
        light_positions: positions,
        light_projections: [faces(1000), faces(2000)],
    }
}

fn is_forward_begin(command: &Command) -> bool {
    matches!(command, Command::BeginRenderPass { color: Some(_), depth: Some(_) })
}

fn is_face_clear(command: &Command, face: u32) -> bool {
    match command {
        Command::BeginRenderPass { color: None, depth: Some(depth) } => {
            depth.view == TextureViewId(200 + face) && depth.load == DepthLoad::Clear(1.0f32.to_bits())
        }
        _ => false,
    }
}

#[test]
fn frame_with_one_light_renders_six_faces_and_copies_them_into_its_cube_map() {
    let mut state = state(&[v3(10.0, 10.0, 0.0)]);
    state.context.lights.config.shadows_enabled = true;
    let mut encoder = CommandEncoder::new();
    state.render(&mut encoder, OUTPUT);
    let commands = encoder.finish();

    let forward = commands.iter().position(is_forward_begin).unwrap();
    for face in 0..6u32 {
        let clears: Vec<usize> =
            (0..commands.len()).filter(|k| is_face_clear(&commands[*k], face)).collect();
        assert_eq!(clears.len(), 1);
        assert!(clears[0] < forward);
        let copy = commands
            .iter()
            .position(|c| {
                *c == Command::CopyTextureToTexture {
                    source: TextureId(100 + face),
                    destination: TextureId(10),
                    layer: face,
                    extent: Extent3d { width: 1024, height: 1024, depth: 1 },
                }
            })
            .unwrap();
        assert!(clears[0] < copy);
        assert!(copy < forward);
    }
    let copies = commands.iter().filter(|c| matches!(c, Command::CopyTextureToTexture { .. })).count();
    assert_eq!(copies, 6);
    let shadow_draws = commands[..forward].iter().filter(|c| matches!(c, Command::DrawIndexed { .. })).count();
    assert_eq!(shadow_draws, 6 * 2);
    assert_eq!(commands.iter().filter(|c| is_forward_begin(c)).count(), 1);
    assert_eq!(commands.last(), Some(&Command::Submit));
}

#[test]
fn frame_with_shadows_off_still_runs_the_forward_pass() {
    let mut state = state(&[v3(10.0, 10.0, 0.0)]);
    state.context.lights.config.shadows_enabled = false;
    let mut encoder = CommandEncoder::new();
    state.render(&mut encoder, OUTPUT);
    let commands = encoder.finish();
    assert!(!commands.iter().any(|c| matches!(c, Command::CopyTextureToTexture { .. })));
    assert!(!commands.iter().any(|c| matches!(c, Command::BeginRenderPass { color: None, .. })));
    assert!(is_forward_begin(&commands[1]));
    let draw = |mesh: u32| {
        vec![
            Command::SetVertexBuffer { slot: 0, buffer: BufferId(20 + mesh) },
            Command::SetIndexBuffer { buffer: BufferId(30 + mesh) },
            Command::SetBindGroup { index: 0, group: BindGroupId(61), offset: None },
            Command::SetBindGroup { index: 1, group: BindGroupId(7), offset: None },
            Command::SetBindGroup { index: 2, group: BindGroupId(60), offset: None },
            Command::SetBindGroup { index: 3, group: BindGroupId(5), offset: None },
            Command::DrawIndexed {
                indices: Span { start: 0, end: 36 },
                base_vertex: 0,
                instances: Span { start: 0, end: 1 },
            },
        ]
    };
    let mut expected = vec![Command::SetPipeline { pipeline: PipelineId(8) }];
    expected.extend(draw(0));
    expected.extend(draw(1));
    expected.extend(vec![
        Command::SetPipeline { pipeline: PipelineId(9) },
        Command::SetVertexBuffer { slot: 0, buffer: BufferId(40) },
        Command::SetIndexBuffer { buffer: BufferId(41) },
        Command::SetBindGroup { index: 1, group: BindGroupId(7), offset: None },
        Command::SetBindGroup { index: 0, group: BindGroupId(70), offset: None },
        Command::SetBindGroup { index: 2, group: BindGroupId(600), offset: None },
        Command::DrawIndexed {
            indices: Span { start: 0, end: 6 },
            base_vertex: 0,
            instances: Span { start: 0, end: 1 },
        },
        Command::Submit,
    ]);
    assert_eq!(commands[2..].to_vec(), expected);
}

#[test]
fn frame_without_lights_has_no_shadow_work() {
    let state = state(&[]);
    let mut encoder = CommandEncoder::new();
    state.render(&mut encoder, OUTPUT);
    let commands = encoder.finish();
    assert!(state.context.lights.config.shadows_enabled);
    assert!(!commands.iter().any(|c| matches!(c, Command::CopyTextureToTexture { .. })));
    assert!(is_forward_begin(&commands[1]));
}

#[test]
fn frame_with_two_lights_fills_each_cube_map_before_the_forward_pass() {
    let state = state(&[v3(10.0, 10.0, 0.0), v3(-15.0, 12.0, 8.0)]);
    let mut encoder = CommandEncoder::new();
    state.render(&mut encoder, OUTPUT);
    let commands = encoder.finish();
    let forward = commands.iter().position(is_forward_begin).unwrap();
    for light in 0..2u32 {
        let layers: Vec<u32> = commands[..forward]
            .iter()
            .filter_map(|c| match c {
                Command::CopyTextureToTexture { destination, layer, .. } if *destination == TextureId(10 + light) => {
                    Some(*layer)
                }
                _ => None,
            })
            .collect();
        assert_eq!(layers, vec![0, 1, 2, 3, 4, 5]);
    }
    let offsets: Vec<u32> = commands
        .iter()
        .filter_map(|c| match c {
            Command::SetBindGroup { index: 0, offset: Some(offset), .. } => Some(*offset),
            _ => None,
        })
        .collect();
    let mut expected = Vec::new();
    for light in 0..2u32 {
        for face in 0..6u32 {
            expected.push(light * 1536 + face * 256);
            expected.push(light * 1536 + face * 256);
        }
    }
    assert_eq!(offsets, expected);
}

#[test]
fn overlay_is_drawn_last_when_visible() {
    let mut state = state(&[]);
    state.debug_ui.is_visible = true;
    let mut encoder = CommandEncoder::new();
    state.render(&mut encoder, OUTPUT);
    let commands = encoder.finish();
    let n = commands.len();
    assert_eq!(commands[n - 2], Command::RenderUi { target: OUTPUT });
    assert_eq!(commands[n - 1], Command::Submit);
    let mut expected = Vec::new();
    for i in 0..2u32 {
        expected.extend(vec![
            Command::BeginRenderPass {
                color: Some(ColorAttachment { view: TextureViewId(700 + i), load: ColorLoad::Load }),
                depth: None,
            },
            Command::SetPipeline { pipeline: PipelineId(10) },
            Command::SetVertexBuffer { slot: 0, buffer: BufferId(42) },
            Command::SetIndexBuffer { buffer: BufferId(43) },
            Command::SetBindGroup { index: 0, group: BindGroupId(710 + i), offset: None },
            Command::DrawIndexed {
                indices: Span { start: 0, end: 6 },
                base_vertex: 0,
                instances: Span { start: 0, end: 1 },
            },
        ]);
    }
    assert_eq!(commands[n - 14..n - 2].to_vec(), expected);
}

#[test]
fn overlay_starts_hidden_with_shadows_on() {
    let ui = DebugUi::new(vec![TextureViewId(1)], vec![BindGroupId(2)]);
    assert!(!ui.is_visible);
    assert!(ui.shadows_enabled);
    assert_eq!(ui.shadow_map_views, vec![TextureViewId(1)]);
    assert_eq!(ui.shadow_bind_groups, vec![BindGroupId(2)]);
    assert_eq!(DebugUi::shadow_map_count(), 6 * MAX_LIGHTS);
}

#[test]
fn debug_pass_draws_a_quad_over_what_is_there() {
    let pass = DebugPass::new(BufferId(42), BufferId(43), PipelineId(10));
    let mut encoder = CommandEncoder::new();
    pass.render(&mut encoder, TextureViewId(5), BindGroupId(6));
    let commands = encoder.finish();
    assert_eq!(commands.len(), 6);
    assert_eq!(
        commands[0],
        Command::BeginRenderPass {
            color: Some(ColorAttachment { view: TextureViewId(5), load: ColorLoad::Load }),
            depth: None,
        }
    );
    assert!(!commands[0].in_pass());
    assert!(commands[1..].iter().all(|c| c.in_pass()));
    assert_eq!(commands[4], Command::SetBindGroup { index: 0, group: BindGroupId(6), offset: None });
}

#[test]
fn state_adds_a_light_with_its_marker() {
    let mut state = state(&[]);
    let fresh = Some(InstanceResources { instance_buffer: BufferId(500), instance_bind_group: BindGroupId(600) });
    assert_eq!(state.add_light(v3(-15.0, 12.0, 8.0), fresh), Ok(0));
    assert_eq!(state.add_light(v3(10.0, 10.0, 8.0), None), Ok(1));
    assert_eq!(state.light_billboards, [Some(0), Some(1)]);
    assert_eq!(state.billboards.get(1), Some(Billboard { position: v3(10.0, 10.0, 8.0), material: 0 }));
    assert_eq!(state.context.lights.lights[1].unwrap().position, v3(10.0, 10.0, 8.0));
    assert_eq!(state.add_light(v3(1.0, 1.0, 1.0), None), Err(AddLightError::NoFreeSlot));
    assert_eq!(state.billboards.len(), 2);
}

#[test]
fn state_adds_no_light_without_a_marker() {
    let mut state = state(&[]);
    assert_eq!(
        state.add_light(v3(1.0, 1.0, 1.0), None),
        Err(AddLightError::Marker(BillboardError::MissingResources))
    );
    assert!(state.context.lights.lights.iter().all(|slot| slot.is_none()));
    assert_eq!(state.billboards.len(), 0);
    assert_eq!(state.light_billboards, [None, None]);
}

#[test]
fn toggle_key_switches_between_camera_and_overlay() {
    let mut state = state(&[]);
    assert_eq!(state.input(InputEvent::ToggleKey { pressed: false }), InputOutcome::Unhandled);
    assert!(!state.camera_active);
    assert_eq!(state.input(InputEvent::ToggleKey { pressed: true }), InputOutcome::GrabCursor);
    assert!(state.camera_active);
    assert!(!state.debug_ui.is_visible);
    assert_eq!(state.input(InputEvent::ToggleKey { pressed: true }), InputOutcome::ReleaseCursor);
    assert!(!state.camera_active);
    assert!(state.debug_ui.is_visible);
}

#[test]
fn left_click_grabs_the_camera_unless_the_overlay_wants_the_mouse() {
    let mut state = state(&[]);
    assert_eq!(state.input(InputEvent::LeftClick { ui_wants_mouse: true }), InputOutcome::Handled);
    assert!(!state.camera_active);
    assert_eq!(state.input(InputEvent::LeftClick { ui_wants_mouse: false }), InputOutcome::GrabCursor);
    assert!(state.camera_active);
    assert_eq!(state.input(InputEvent::OtherKey), InputOutcome::ToCamera);
    assert_eq!(state.input(InputEvent::Other), InputOutcome::Unhandled);
    assert!(state.camera_active);
    state.ungrab_camera();
    assert!(!state.camera_active);
    state.grab_camera();
    assert!(state.camera_active);
}

#[test]
fn state_resize_takes_the_new_size_and_depth_texture() {
    let mut state = state(&[v3(10.0, 10.0, 0.0)]);
    let depth = Texture {
        size: Extent3d { width: 1024, height: 768, depth: 1 },
        texture: TextureId(53),
        view: TextureViewId(54),
        sampler: SamplerId(55),
    };
    state.resize(1024, 768, depth);
    assert_eq!((state.context.width, state.context.height), (1024, 768));
    assert_eq!(state.forward_pass.depth_texture, depth);
    assert!(state.context.lights.lights[0].is_some());
}

#[test]
fn update_moves_lights_and_markers_and_records_the_uploads() {
    let mut state = state(&[v3(10.0, 10.0, 0.0)]);
    let moved = v3(8.0, 10.0, 6.0);
    state.debug_ui.shadows_enabled = false;
    let input = input([moved, v3(99.0, 99.0, 99.0)]);
    let mut encoder = CommandEncoder::new();
    state.update(&mut encoder, &input);
    let commands = encoder.finish();

    assert_eq!(state.context.lights.lights[0].unwrap().position, moved);
    assert_eq!(state.context.lights.lights[1], None);
    assert_eq!(state.billboards.get(0), Some(Billboard { position: moved, material: 0 }));
    assert!(!state.context.lights.config.shadows_enabled);
    assert_eq!(
        state.forward_pass.uniforms,
        Uniforms { view_position: Vector4::new(1, 2, 3, ONE), view_proj: matrix(7000) }
    );

    let mut expected = vec![
        Command::StageBuffer { destination: BufferId(6), data: Payload::Uniforms(state.forward_pass.uniforms) },
        Command::StageBuffer { destination: BufferId(4), data: Payload::Lights(state.context.lights.to_raw()) },
        Command::WriteBuffer {
            buffer: BufferId(3),
            offset: 0,
            data: Payload::LightConfig(state.context.lights.config.to_raw()),
        },
    ];
    for face in 0..6u32 {
        expected.push(Command::WriteBuffer {
            buffer: BufferId(2),
            offset: 256 * face as u64,
            data: Payload::Shadow(ShadowUniforms { light_proj: matrix(1000 + 100 * face), light_position: moved }),
        });
    }
    expected.push(Command::Submit);
    expected.push(Command::WriteBuffer {
        buffer: BufferId(500),
        offset: 0,
        data: Payload::Instance(InstanceRaw { model: billboard_transform(&matrix(8000), moved) }),
    });
    assert_eq!(commands, expected);
}

#[test]
fn whole_frame_uploads_before_it_draws() {
    let mut state = state(&[v3(10.0, 10.0, 0.0), v3(-15.0, 12.0, 8.0)]);
    let input = input([v3(1.0, 1.0, 1.0), v3(2.0, 2.0, 2.0)]);
    let mut encoder = CommandEncoder::new();
    state.frame(&mut encoder, &input, OUTPUT);
    let commands = encoder.finish();
    let first_pass = commands.iter().position(|c| matches!(c, Command::BeginRenderPass { .. })).unwrap();
    let last_shadow_write = commands
        .iter()
        .rposition(|c| matches!(c, Command::WriteBuffer { data: Payload::Shadow(_), .. }))
        .unwrap();
    assert!(last_shadow_write < first_pass);
    let shadow_writes =
        commands.iter().filter(|c| matches!(c, Command::WriteBuffer { data: Payload::Shadow(_), .. })).count();
    assert_eq!(shadow_writes, 12);
    assert_eq!(commands.iter().filter(|c| **c == Command::Submit).count(), 2);
    assert_eq!(state.context.lights.lights[1].unwrap().position, v3(2.0, 2.0, 2.0));
    assert_eq!(state.billboards.get(1).unwrap().position, v3(2.0, 2.0, 2.0));
}

#[test]
fn context_resizes_and_registers_materials() {
    let mut context = Context {
        width: 800,
        height: 600,
        materials: Materials::new(),
        lights: lights(),
        instances_bind_group_layout: BindGroupLayoutId(1),
        light_bind_group_layout: BindGroupLayoutId(2),
        texture_bind_group_layout: BindGroupLayoutId(3),
        texture_normal_bind_group_layout: BindGroupLayoutId(4),
    };
    context.resize(1024, 768);
    assert_eq!((context.width, context.height), (1024, 768));
    let id = context.create_material(String::from("bulb"), BindGroupId(70));
    assert_eq!(id, 0);
    assert_eq!(context.get_material(id).bind_group, BindGroupId(70));
    assert_eq!(context.get_material(id).name, "bulb");
}

#[test]
fn state_is_ready_when_its_parts_fit() {
    let mut state = state(&[v3(10.0, 10.0, 0.0)]);
    assert!(state.is_ready());
    state.light_billboards = [None, None];
    assert!(!state.is_ready());
    state.light_billboards = [Some(0), None];
    assert!(state.is_ready());
    state.debug_ui.shadow_bind_groups.pop();
    assert!(!state.is_ready());
    state.debug_ui.shadow_map_views.pop();
    assert!(state.is_ready());
    state.obj_model.meshes[0].material = 5;
    assert!(!state.is_ready());
    state.obj_model.meshes[0].material = 0;
    state.context.lights.material = 9;
    assert!(!state.is_ready());
}

#[test]
fn state_adds_no_light_when_the_billboards_are_full() {
    let mut state = state(&[]);
    let fresh = Some(InstanceResources { instance_buffer: BufferId(500), instance_bind_group: BindGroupId(600) });
    for _ in 0..kanvas::billboard::MAX_BILLBOARDS {
        state.billboards.insert(Billboard { position: v3(0.0, 0.0, 0.0), material: 0 }, fresh).unwrap();
    }
    assert_eq!(
        state.add_light(v3(1.0, 1.0, 1.0), fresh),
        Err(AddLightError::Marker(BillboardError::Full))
    );
    assert!(state.context.lights.lights.iter().all(|slot| slot.is_none()));
    assert_eq!(state.light_billboards, [None, None]);
}
