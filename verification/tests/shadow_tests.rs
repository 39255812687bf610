use kanvas::command::{Command, CommandEncoder, DepthAttachment, DepthLoad, Payload};
use kanvas::light::{Light, LightType, MAX_LIGHTS};
use kanvas::math::{Matrix4, Vector3, Vector4, ONE};
use kanvas::model::Mesh;
use kanvas::resource::{
    BindGroupId, BindGroupLayoutId, BufferId, Extent3d, PipelineId, SamplerId, Span, TextureId,
    TextureViewId,
};
use kanvas::shadow::{
    alignment, cube_face, cube_faces, light_buffer_offset, light_projection, shadow_size, Axis,
    CubeFace, Projection, ShadowCubemap, ShadowMapTarget, ShadowPass, ShadowPassRenderData,
    ShadowUniforms, CUBE_FACES, SHADOW_MAP_SIZE,
};

fn shadow_pass() -> ShadowPass {
    let target = |i: u32| ShadowMapTarget {
        texture: TextureId(100 + i),
        view: TextureViewId(200 + i),
        bind_group: BindGroupId(300 + i),
    };
    ShadowPass::new(
        PipelineId(1),
        BufferId(2),
        BindGroupId(3),
        [target(0), target(1), target(2), target(3), target(4), target(5)],
        BindGroupLayoutId(4),
    )
}

fn matrix(seed: u32) -> Matrix4 {
    let column = |c: u32| Vector4::new(seed + 4 * c, seed + 4 * c + 1, seed + 4 * c + 2, seed + 4 * c + 3);
    Matrix4::from_cols(column(0), column(1), column(2), column(3))
}

#[test]
fn alignment_is_that_of_the_graphics_layer() {
    assert_eq!(alignment(), 256);
    assert_eq!(alignment(), wgpu::BIND_BUFFER_ALIGNMENT);
}

#[test]
fn offset_follows_the_layout_formula() {
    assert_eq!(light_buffer_offset(0, 0), 0);
    assert_eq!(light_buffer_offset(0, 1), 256);
    assert_eq!(light_buffer_offset(0, 5), 1280);
    assert_eq!(light_buffer_offset(1, 0), 1536);
    assert_eq!(light_buffer_offset(1, 2), 2048);
    assert_eq!(light_buffer_offset(1, 5), 2816);
}

#[test]
fn offsets_are_aligned_distinct_and_do_not_overlap() {
    let stride = alignment() as usize;
    let mut offsets = Vec::new();
    for light in 0..MAX_LIGHTS {
        for face in 0..CUBE_FACES {
            let offset = light_buffer_offset(light, face);
            assert_eq!(offset % stride, 0);
            assert!(offset as u64 + ShadowUniforms::size() <= ShadowPass::uniforms_size());
            offsets.push(offset);
        }
    }
    for a in 0..offsets.len() {
        for b in 0..offsets.len() {
            if a != b {
                assert!(offsets[a] + stride <= offsets[b] || offsets[b] + stride <= offsets[a]);
            }
        }
    }
}

#[test]
fn uniform_buffer_has_one_stride_per_light_and_face() {
    assert_eq!(ShadowPass::uniforms_size(), (MAX_LIGHTS * 6 * 256) as u64);
    assert_eq!(ShadowPass::uniforms_binding_size(), 76);
    assert_eq!(ShadowUniforms::size(), 76);
    assert!(ShadowUniforms::size() <= alignment());
}

#[test]
fn shadow_maps_are_square_with_six_layers() {
    assert_eq!(SHADOW_MAP_SIZE, 1024);
    assert_eq!(shadow_size(), Extent3d { width: 1024, height: 1024, depth: 1 });
    assert_eq!(ShadowCubemap::size(), Extent3d { width: 1024, height: 1024, depth: 6 });
    let cubemap = ShadowCubemap::new(TextureId(1), TextureViewId(2), SamplerId(3));
    assert_eq!(cubemap.texture, TextureId(1));
    assert_eq!(cubemap.texture_view, TextureViewId(2));
    assert_eq!(cubemap.sampler, SamplerId(3));
}

#[test]
fn cube_faces_follow_the_convention() {
    let axis = |x: i8, y: i8, z: i8| Axis { x, y, z };
    assert_eq!(cube_face(0), CubeFace { direction: axis(1, 0, 0), up: axis(0, 1, 0) });
    assert_eq!(cube_face(1), CubeFace { direction: axis(-1, 0, 0), up: axis(0, 1, 0) });
    assert_eq!(cube_face(2), CubeFace { direction: axis(0, 1, 0), up: axis(0, 0, 1) });
    assert_eq!(cube_face(3), CubeFace { direction: axis(0, -1, 0), up: axis(0, 0, -1) });
    assert_eq!(cube_face(4), CubeFace { direction: axis(0, 0, -1), up: axis(0, 1, 0) });
    assert_eq!(cube_face(5), CubeFace { direction: axis(0, 0, 1), up: axis(0, 1, 0) });
}

#[test]
fn cube_face_directions_span_the_six_axes_once_each() {
    let mut seen = Vec::new();
    for face in 0..CUBE_FACES {
        let f = cube_face(face);
        let d = f.direction;
        let length = (d.x as i32).pow(2) + (d.y as i32).pow(2) + (d.z as i32).pow(2);
        assert_eq!(length, 1);
        let u = f.up;
        assert_eq!((u.x as i32).pow(2) + (u.y as i32).pow(2) + (u.z as i32).pow(2), 1);
        assert_eq!(d.x as i32 * u.x as i32 + d.y as i32 * u.y as i32 + d.z as i32 * u.z as i32, 0);
        assert!(!seen.contains(&d));
        seen.push(d);
    }
    for expected in [(1, 0, 0), (-1, 0, 0), (0, 1, 0), (0, -1, 0), (0, 0, 1), (0, 0, -1)] {
        let (x, y, z) = expected;
        assert_eq!(seen.iter().filter(|d| **d == Axis { x, y, z }).count(), 1);
    }
}

#[test]
fn update_light_writes_six_entries_at_their_offsets() {
    let pass = shadow_pass();
    let light = Light::new(Vector3::new(7, 8, 9), Vector3::new(ONE, ONE, ONE));
    let projections = [matrix(0), matrix(100), matrix(200), matrix(300), matrix(400), matrix(500)];
    let mut encoder = CommandEncoder::new();
    pass.update_light(&mut encoder, 1, &light, &projections);
    let commands = encoder.finish();
    assert_eq!(commands.len(), 6);
    for face in 0..6 {
        assert_eq!(
            commands[face],
            Command::WriteBuffer {
                buffer: BufferId(2),
                offset: (1536 + 256 * face) as u64,
                data: Payload::Shadow(ShadowUniforms {
                    light_proj: projections[face],
                    light_position: Vector3::new(7, 8, 9),
                }),
            }
        );
    }
}

#[test]
fn begin_clears_the_face_in_a_pass_of_its_own() {
    let pass = shadow_pass();
    let mut encoder = CommandEncoder::new();
    let runner = pass.begin(&mut encoder, 3);
    assert_eq!(runner.uniforms_bind_group, BindGroupId(3));
    assert_eq!(
        encoder.finish(),
        vec![
            Command::BeginRenderPass {
                color: None,
                depth: Some(DepthAttachment { view: TextureViewId(203), load: DepthLoad::Clear(1.0f32.to_bits()) }),
            },
            Command::BeginRenderPass {
                color: None,
                depth: Some(DepthAttachment { view: TextureViewId(203), load: DepthLoad::Load }),
            },
            Command::SetPipeline { pipeline: PipelineId(1) },
        ]
    );
}

#[test]
fn render_binds_the_entry_of_its_light_and_face() {
    let pass = shadow_pass();
    let mesh = Mesh {
        name: String::from("floor"),
        vertex_buffer: BufferId(20),
        index_buffer: BufferId(21),
        num_elements: 36,
        material: 0,
    };
    let data = ShadowPassRenderData::from_mesh(&mesh, BindGroupId(30));
    assert_eq!(
        data,
        ShadowPassRenderData {
            vertex_buffer: BufferId(20),
            index_buffer: BufferId(21),
            indices: Span { start: 0, end: 36 },
            instances_bind_group: BindGroupId(30),
            instances: Span { start: 0, end: 1 },
        }
    );
    let mut encoder = CommandEncoder::new();
    let mut runner = pass.begin(&mut encoder, 4);
    let begun = encoder.len();
    runner.render(&mut encoder, data, 4, 1);
    let commands = encoder.finish();
    assert_eq!(
        commands[begun..].to_vec(),
        vec![
            Command::SetVertexBuffer { slot: 0, buffer: BufferId(20) },
            Command::SetIndexBuffer { buffer: BufferId(21) },
            Command::SetBindGroup { index: 0, group: BindGroupId(3), offset: Some(1536 + 4 * 256) },
            Command::SetBindGroup { index: 1, group: BindGroupId(30), offset: None },
            Command::DrawIndexed {
                indices: Span { start: 0, end: 36 },
                base_vertex: 0,
                instances: Span { start: 0, end: 1 },
            },
        ]
    );
}

#[test]
fn copy_to_cubemap_puts_each_face_into_its_layer() {
    let pass = shadow_pass();
    let mut encoder = CommandEncoder::new();
    pass.copy_to_cubemap(&mut encoder, TextureId(55));
    let commands = encoder.finish();
    assert_eq!(commands.len(), 6);
    for face in 0..6u32 {
        assert_eq!(
            commands[face as usize],
            Command::CopyTextureToTexture {
                source: TextureId(100 + face),
                destination: TextureId(55),
                layer: face,
                extent: Extent3d { width: 1024, height: 1024, depth: 1 },
            }
        );
    }
}

#[test]
fn shadow_uniforms_words_are_transform_then_position() {
    let uniforms = ShadowUniforms { light_proj: matrix(10), light_position: Vector3::new(1, 2, 3) };
    let mut expected: Vec<u32> = (10..26).collect();
    expected.extend([1, 2, 3]);
    assert_eq!(uniforms.words(), expected);
}

#[test]
fn payload_bytes_are_the_words_in_machine_byte_order() {
    let uniforms = ShadowUniforms { light_proj: matrix(0x0102_0304), light_position: Vector3::new(1, 2, 3) };
    let payload = Payload::Shadow(uniforms);
    let bytes = payload.to_bytes();
    assert_eq!(bytes.len() as u64, payload.size());
    assert_eq!(bytes.len(), 76);
    let mut expected = Vec::new();
    for word in uniforms.words() {
        expected.extend_from_slice(&word.to_ne_bytes());
    }
    assert_eq!(bytes, expected);
    let little: Vec<u8> = uniforms.words().iter().flat_map(|w| w.to_le_bytes().to_vec()).collect();
    let big: Vec<u8> = uniforms.words().iter().flat_map(|w| w.to_be_bytes().to_vec()).collect();
    assert!(bytes == little || bytes == big);
}

#[test]
fn cube_faces_lists_the_faces_in_order() {
    let faces = cube_faces();
    for face in 0..CUBE_FACES {
        assert_eq!(faces[face], cube_face(face));
    }
}

#[test]
fn point_light_projects_through_a_square_frustum_of_ninety_degrees() {
    assert_eq!(
        light_projection(&LightType::Point),
        Projection::Perspective {
            width: 1024,
            height: 1024,
            fovy_degrees: 90.0f32.to_bits(),
            near: 0.1f32.to_bits(),
            far: 100.0f32.to_bits(),
        }
    );
}

#[test]
fn directional_light_projects_through_a_box() {
    assert_eq!(
        light_projection(&LightType::Directional),
        Projection::Orthographic {
            left: (-10.0f32).to_bits(),
            right: 10.0f32.to_bits(),
            bottom: (-10.0f32).to_bits(),
            top: 10.0f32.to_bits(),
            near: 0.1f32.to_bits(),
            far: 100.0f32.to_bits(),
        }
    );
}
