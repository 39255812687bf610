use kanvas::billboard::{
    billboard_transform, instance_buffer_size, Billboard, BillboardError, Billboards,
    InstanceResources, MAX_BILLBOARDS,
};
use kanvas::command::{Command, CommandEncoder, Payload};
use kanvas::geometry::{plane_indices, Plane, PLANE_INDEX_COUNT};
use kanvas::math::{Matrix4, Vector3, Vector4, ONE, ZERO};
use kanvas::model::{InstanceRaw, Material};
use kanvas::resource::{BindGroupId, BufferId, Span};
use kanvas::Materials;

fn v3(x: f32, y: f32, z: f32) -> Vector3 {
    Vector3::new(x.to_bits(), y.to_bits(), z.to_bits())
}

fn view_matrix(seed: u32) -> Matrix4 {
    let column = |c: u32| Vector4::new(seed + 10 * c, seed + 10 * c + 1, seed + 10 * c + 2, seed + 10 * c + 3);
    Matrix4::from_cols(column(0), column(1), column(2), column(3))
}

fn resources(n: u32) -> Option<InstanceResources> {
    Some(InstanceResources { instance_buffer: BufferId(500 + n), instance_bind_group: BindGroupId(600 + n) })
}

fn plane() -> Plane {
    Plane::new(BufferId(40), BufferId(41))
}

#[test]
fn billboard_translation_is_its_position_for_every_view() {
    let position = v3(10.0, 10.0, 0.0);
    for seed in [0u32, 1000, 0x4000_0000] {
        let transform = billboard_transform(&view_matrix(seed), position);
        assert_eq!(transform.w, Vector4::new(10.0f32.to_bits(), 10.0f32.to_bits(), 0.0f32.to_bits(), ONE));
    }
    let identity = billboard_transform(&Matrix4::identity(), position);
    assert_eq!(identity.w.truncate(), position);
    assert_eq!(identity.x, Matrix4::identity().x);
    assert_eq!(identity.y, Matrix4::identity().y);
    assert_eq!(identity.z, Matrix4::identity().z);
}

#[test]
fn billboard_rotation_is_the_view_rotation_transposed() {
    let view = view_matrix(100);
    let transform = billboard_transform(&view, Vector3::new(1, 2, 3));
    assert_eq!(transform.x, Vector4::new(view.x.x, view.y.x, view.z.x, ZERO));
    assert_eq!(transform.y, Vector4::new(view.x.y, view.y.y, view.z.y, ZERO));
    assert_eq!(transform.z, Vector4::new(view.x.z, view.y.z, view.z.z, ZERO));
    assert_eq!(transform.w, Vector4::new(1, 2, 3, ONE));
    assert_eq!(transform.x, Vector4::new(100, 110, 120, 0));
}

#[test]
fn insert_gives_ids_in_order() {
    let mut billboards = Billboards::new(plane());
    assert_eq!(billboards.len(), 0);
    assert_eq!(billboards.insert(Billboard { position: v3(1.0, 0.0, 0.0), material: 3 }, resources(0)), Ok(0));
    assert_eq!(billboards.insert(Billboard { position: v3(2.0, 0.0, 0.0), material: 3 }, None), Ok(1));
    assert_eq!(billboards.insert(Billboard { position: v3(3.0, 0.0, 0.0), material: 8 }, resources(1)), Ok(2));
    assert_eq!(billboards.len(), 3);
    assert_eq!(billboards.get(1), Some(Billboard { position: v3(2.0, 0.0, 0.0), material: 3 }));
    assert_eq!(billboards.get(3), None);
    assert_eq!(billboards.find_instances(3), Some(0));
    assert_eq!(billboards.find_instances(8), Some(1));
    assert_eq!(billboards.find_instances(9), None);
}

#[test]
fn insert_without_resources_for_a_new_material_fails() {
    let mut billboards = Billboards::new(plane());
    assert_eq!(
        billboards.insert(Billboard { position: v3(1.0, 0.0, 0.0), material: 3 }, None),
        Err(BillboardError::MissingResources)
    );
    assert_eq!(billboards.len(), 0);
    assert_eq!(billboards.find_instances(3), None);
}

#[test]
fn insert_fails_when_the_instance_buffer_of_the_material_is_full() {
    let mut billboards = Billboards::new(plane());
    for i in 0..MAX_BILLBOARDS {
        assert_eq!(
            billboards.insert(Billboard { position: v3(0.0, 0.0, 0.0), material: 1 }, resources(0)),
            Ok(i as usize)
        );
    }
    assert_eq!(
        billboards.insert(Billboard { position: v3(0.0, 0.0, 0.0), material: 1 }, resources(0)),
        Err(BillboardError::Full)
    );
    assert_eq!(billboards.len() as u64, MAX_BILLBOARDS);
    assert_eq!(billboards.count(1) as u64, MAX_BILLBOARDS);
}

#[test]
fn a_full_material_leaves_room_for_another() {
    let mut billboards = Billboards::new(plane());
    for _ in 0..MAX_BILLBOARDS {
        billboards.insert(Billboard { position: v3(0.0, 0.0, 0.0), material: 1 }, resources(0)).unwrap();
    }
    assert_eq!(
        billboards.insert(Billboard { position: v3(0.0, 0.0, 0.0), material: 2 }, None),
        Err(BillboardError::MissingResources)
    );
    assert_eq!(
        billboards.insert(Billboard { position: v3(1.0, 2.0, 3.0), material: 2 }, resources(1)),
        Ok(MAX_BILLBOARDS as usize)
    );
    assert_eq!(billboards.len() as u64, MAX_BILLBOARDS + 1);
    assert_eq!(billboards.count(2), 1);
    let mut encoder = CommandEncoder::new();
    billboards.upload(&mut encoder, &Matrix4::identity());
    let commands = encoder.finish();
    assert_eq!(
        commands[MAX_BILLBOARDS as usize],
        Command::WriteBuffer {
            buffer: BufferId(501),
            offset: 0,
            data: Payload::Instance(InstanceRaw {
                model: billboard_transform(&Matrix4::identity(), v3(1.0, 2.0, 3.0)),
            }),
        }
    );
    assert_eq!(
        commands[MAX_BILLBOARDS as usize - 1],
        Command::WriteBuffer {
            buffer: BufferId(500),
            offset: (MAX_BILLBOARDS - 1) * 64,
            data: Payload::Instance(InstanceRaw {
                model: billboard_transform(&Matrix4::identity(), v3(0.0, 0.0, 0.0)),
            }),
        }
    );
}

#[test]
fn instance_buffer_has_room_for_every_billboard() {
    assert_eq!(MAX_BILLBOARDS, 10000);
    assert_eq!(InstanceRaw::size(), 64);
    assert_eq!(instance_buffer_size(), 640000);
}

#[test]
fn set_position_moves_one_billboard() {
    let mut billboards = Billboards::new(plane());
    billboards.insert(Billboard { position: v3(1.0, 0.0, 0.0), material: 3 }, resources(0)).unwrap();
    billboards.insert(Billboard { position: v3(2.0, 0.0, 0.0), material: 3 }, None).unwrap();
    assert!(billboards.set_position(1, v3(9.0, 8.0, 7.0)));
    assert_eq!(billboards.get(0), Some(Billboard { position: v3(1.0, 0.0, 0.0), material: 3 }));
    assert_eq!(billboards.get(1), Some(Billboard { position: v3(9.0, 8.0, 7.0), material: 3 }));
    assert!(!billboards.set_position(2, v3(9.0, 8.0, 7.0)));
}

#[test]
fn upload_writes_each_instance_at_its_place_among_its_material() {
    let mut billboards = Billboards::new(plane());
    billboards.insert(Billboard { position: Vector3::new(1, 2, 3), material: 3 }, resources(0)).unwrap();
    billboards.insert(Billboard { position: Vector3::new(4, 5, 6), material: 8 }, resources(1)).unwrap();
    billboards.insert(Billboard { position: Vector3::new(7, 8, 9), material: 3 }, None).unwrap();
    billboards.insert(Billboard { position: Vector3::new(10, 11, 12), material: 8 }, None).unwrap();
    billboards.insert(Billboard { position: Vector3::new(13, 14, 15), material: 3 }, None).unwrap();
    let view = view_matrix(100);
    let mut encoder = CommandEncoder::new();
    billboards.upload(&mut encoder, &view);
    let write = |buffer: u32, place: u64, position: Vector3| Command::WriteBuffer {
        buffer: BufferId(buffer),
        offset: place * 64,
        data: Payload::Instance(InstanceRaw { model: billboard_transform(&view, position) }),
    };
    assert_eq!(
        encoder.finish(),
        vec![
            write(500, 0, Vector3::new(1, 2, 3)),
            write(501, 0, Vector3::new(4, 5, 6)),
            write(500, 1, Vector3::new(7, 8, 9)),
            write(501, 1, Vector3::new(10, 11, 12)),
            write(500, 2, Vector3::new(13, 14, 15)),
        ]
    );
}

#[test]
fn every_drawn_instance_is_written_once() {
    let mut billboards = Billboards::new(plane());
    let materials = [3u32, 8, 3, 5, 8, 3];
    for (i, material) in materials.iter().enumerate() {
        let fresh = if billboards.find_instances(*material).is_none() { resources(*material) } else { None };
        billboards
            .insert(Billboard { position: Vector3::new(i as u32, 0, 0), material: *material }, fresh)
            .unwrap();
    }
    let mut encoder = CommandEncoder::new();
    billboards.upload(&mut encoder, &view_matrix(0));
    let commands = encoder.finish();
    for material in [3u32, 5, 8] {
        let mut offsets: Vec<u64> = commands
            .iter()
            .filter_map(|c| match c {
                Command::WriteBuffer { buffer, offset, .. } if *buffer == BufferId(500 + material) => Some(*offset),
                _ => None,
            })
            .collect();
        offsets.sort();
        let expected: Vec<u64> = (0..billboards.count(material) as u64).map(|k| k * 64).collect();
        assert_eq!(offsets, expected);
    }
}

#[test]
fn render_draws_one_batch_per_material() {
    let mut materials = Materials::new();
    let bulb = materials.insert(Material::new(String::from("bulb"), BindGroupId(70)));
    let flare = materials.insert(Material::new(String::from("flare"), BindGroupId(71)));
    let mut billboards = Billboards::new(plane());
    billboards.insert(Billboard { position: Vector3::new(1, 2, 3), material: flare }, resources(0)).unwrap();
    billboards.insert(Billboard { position: Vector3::new(4, 5, 6), material: bulb }, resources(1)).unwrap();
    billboards.insert(Billboard { position: Vector3::new(7, 8, 9), material: flare }, None).unwrap();
    assert!(billboards.knows_materials(&materials));
    let mut encoder = CommandEncoder::new();
    billboards.render(&mut encoder, &materials, BindGroupId(80));
    let draw = |n: u32| Command::DrawIndexed {
        indices: Span { start: 0, end: 6 },
        base_vertex: 0,
        instances: Span { start: 0, end: n },
    };
    assert_eq!(
        encoder.finish(),
        vec![
            Command::SetVertexBuffer { slot: 0, buffer: BufferId(40) },
            Command::SetIndexBuffer { buffer: BufferId(41) },
            Command::SetBindGroup { index: 1, group: BindGroupId(80), offset: None },
            Command::SetBindGroup { index: 0, group: BindGroupId(71), offset: None },
            Command::SetBindGroup { index: 2, group: BindGroupId(600), offset: None },
            draw(2),
            Command::SetBindGroup { index: 0, group: BindGroupId(70), offset: None },
            Command::SetBindGroup { index: 2, group: BindGroupId(601), offset: None },
            draw(1),
        ]
    );
}

#[test]
fn knows_materials_is_false_for_an_unregistered_material() {
    let materials = Materials::new();
    let mut billboards = Billboards::new(plane());
    assert!(billboards.knows_materials(&materials));
    billboards.insert(Billboard { position: Vector3::new(1, 2, 3), material: 0 }, resources(0)).unwrap();
    assert!(!billboards.knows_materials(&materials));
}

#[test]
fn plane_is_two_triangles_on_four_corners() {
    assert_eq!(PLANE_INDEX_COUNT, 6);
    assert_eq!(plane_indices(), [0, 1, 2, 0, 2, 3]);
}

#[test]
fn plane_render_draws_one_quad() {
    let material = Material::new(String::from("bulb"), BindGroupId(70));
    let mut encoder = CommandEncoder::new();
    plane().render(&mut encoder, &material, BindGroupId(80), BindGroupId(90));
    assert_eq!(
        encoder.finish(),
        vec![
            Command::SetVertexBuffer { slot: 0, buffer: BufferId(40) },
            Command::SetIndexBuffer { buffer: BufferId(41) },
            Command::SetBindGroup { index: 0, group: BindGroupId(70), offset: None },
            Command::SetBindGroup { index: 1, group: BindGroupId(80), offset: None },
            Command::SetBindGroup { index: 2, group: BindGroupId(90), offset: None },
            Command::DrawIndexed {
                indices: Span { start: 0, end: 6 },
                base_vertex: 0,
                instances: Span { start: 0, end: 1 },
            },
        ]
    );
}

#[test]
fn count_tells_the_billboards_of_a_material() {
    let mut billboards = Billboards::new(plane());
    assert!(billboards.is_well_formed());
    billboards.insert(Billboard { position: Vector3::new(1, 2, 3), material: 3 }, resources(0)).unwrap();
    billboards.insert(Billboard { position: Vector3::new(4, 5, 6), material: 8 }, resources(1)).unwrap();
    billboards.insert(Billboard { position: Vector3::new(7, 8, 9), material: 3 }, None).unwrap();
    assert_eq!(billboards.count(3), 2);
    assert_eq!(billboards.count(8), 1);
    assert_eq!(billboards.count(9), 0);
    assert!(billboards.is_well_formed());
}
