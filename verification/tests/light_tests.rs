use kanvas::command::{Command, CommandEncoder, Payload};
use kanvas::light::{Light, LightConfig, LightType, Lights, LightsRaw, MAX_LIGHTS};
use kanvas::math::{Vector3, Vector4, ONE, ZERO};
use kanvas::resource::{BindGroupId, BufferBinding, BufferId, TextureId};

fn v3(x: f32, y: f32, z: f32) -> Vector3 {
    Vector3::new(x.to_bits(), y.to_bits(), z.to_bits())
}

fn v4(x: f32, y: f32, z: f32, w: f32) -> Vector4 {
    Vector4::new(x.to_bits(), y.to_bits(), z.to_bits(), w.to_bits())
}

fn empty_lights() -> Lights {
    Lights::new(
        [TextureId(10), TextureId(11)],
        7,
        LightConfig::new(BufferId(3)),
        BufferId(4),
        BindGroupId(5),
    )
}

#[test]
fn scalar_constants_are_zero_and_one() {
    assert_eq!(ZERO, 0.0f32.to_bits());
    assert_eq!(ONE, 1.0f32.to_bits());
}

#[test]
fn new_lights_are_empty_and_keep_their_resources() {
    let lights = empty_lights();
    assert_eq!(lights.lights.len(), MAX_LIGHTS);
    assert!(lights.lights.iter().all(|slot| slot.is_none()));
    assert_eq!(lights.shadow_textures, [TextureId(10), TextureId(11)]);
    assert_eq!(lights.material, 7);
    assert_eq!(lights.buffer, BufferId(4));
    assert_eq!(lights.bind_group, BindGroupId(5));
    assert!(lights.config.shadows_enabled);
    assert_eq!(lights.config.buffer, BufferId(3));
}

#[test]
fn pack_of_empty_set_is_all_zero() {
    let raw = empty_lights().to_raw();
    for i in 0..MAX_LIGHTS {
        assert_eq!(raw.positions[i], v4(0.0, 0.0, 0.0, 0.0));
        assert_eq!(raw.colors[i], v4(0.0, 0.0, 0.0, 0.0));
    }
}

#[test]
fn pack_of_one_light_fills_slot_zero_only() {
    let mut lights = empty_lights();
    assert_eq!(lights.add_light(v3(1.0, 2.0, 3.0)), Some(0));
    let raw = lights.to_raw();
    assert_eq!(raw.positions[0], v4(1.0, 2.0, 3.0, 0.0));
    assert_eq!(raw.colors[0], v4(1.0, 1.0, 1.0, 0.0));
    for i in 1..MAX_LIGHTS {
        assert_eq!(raw.positions[i], v4(0.0, 0.0, 0.0, 0.0));
        assert_eq!(raw.colors[i], v4(0.0, 0.0, 0.0, 0.0));
    }
}

#[test]
fn map_raw_reads_the_first_slots_of_a_longer_slice() {
    let red = Light { position: v3(4.0, 5.0, 6.0), color: v3(1.0, 0.0, 0.0), light_type: LightType::Directional };
    let slots = [None, Some(red), Some(red)];
    let raw = Lights::map_raw(&slots);
    assert_eq!(raw.positions[0], v4(0.0, 0.0, 0.0, 0.0));
    assert_eq!(raw.colors[0], v4(0.0, 0.0, 0.0, 0.0));
    assert_eq!(raw.positions[1], v4(4.0, 5.0, 6.0, 0.0));
    assert_eq!(raw.colors[1], v4(1.0, 0.0, 0.0, 0.0));
}

#[test]
fn add_light_fills_slots_in_order_then_fails() {
    let mut lights = empty_lights();
    for i in 0..MAX_LIGHTS {
        assert_eq!(lights.add_light(v3(i as f32, 0.0, 0.0)), Some(i));
    }
    let before = lights.lights;
    assert_eq!(lights.add_light(v3(9.0, 9.0, 9.0)), None);
    assert_eq!(lights.lights, before);
    for i in 0..MAX_LIGHTS {
        assert_eq!(
            lights.lights[i],
            Some(Light { position: v3(i as f32, 0.0, 0.0), color: v3(1.0, 1.0, 1.0), light_type: LightType::Point })
        );
    }
}

#[test]
fn light_new_is_a_point_light() {
    let light = Light::new(v3(1.0, 2.0, 3.0), v3(0.5, 0.25, 0.125));
    assert_eq!(light.position, v3(1.0, 2.0, 3.0));
    assert_eq!(light.color, v3(0.5, 0.25, 0.125));
    assert_eq!(light.light_type, LightType::Point);
}

#[test]
fn remove_empties_only_its_slot_and_the_slot_is_used_again() {
    let mut lights = empty_lights();
    lights.add_light(v3(1.0, 0.0, 0.0));
    lights.add_light(v3(2.0, 0.0, 0.0));
    let second = lights.lights[1];
    let removed = lights.remove(0);
    assert_eq!(removed.map(|l| l.position), Some(v3(1.0, 0.0, 0.0)));
    assert_eq!(lights.lights[0], None);
    assert_eq!(lights.lights[1], second);
    assert_eq!(lights.remove(0), None);
    assert_eq!(lights.remove(MAX_LIGHTS), None);
    assert_eq!(lights.lights[1], second);
    assert_eq!(lights.add_light(v3(3.0, 0.0, 0.0)), Some(0));
    assert_eq!(lights.lights[1], second);
}

#[test]
fn update_position_moves_one_light_and_keeps_its_colour() {
    let mut lights = empty_lights();
    lights.add_light(v3(1.0, 0.0, 0.0));
    assert!(lights.update_position(0, v3(5.0, 6.0, 7.0)));
    assert_eq!(
        lights.lights[0],
        Some(Light { position: v3(5.0, 6.0, 7.0), color: v3(1.0, 1.0, 1.0), light_type: LightType::Point })
    );
    assert!(!lights.update_position(1, v3(5.0, 6.0, 7.0)));
    assert_eq!(lights.lights[1], None);
    assert!(!lights.update_position(MAX_LIGHTS, v3(5.0, 6.0, 7.0)));
}

#[test]
fn packed_image_is_thirty_two_bytes_per_slot() {
    assert_eq!(LightsRaw::size(), 32 * MAX_LIGHTS as u64);
    let words = empty_lights().to_raw().words();
    assert_eq!(words.len() as u64 * 4, LightsRaw::size());
}

#[test]
fn packed_words_are_positions_then_colours() {
    let mut lights = empty_lights();
    lights.add_light(v3(1.0, 2.0, 3.0));
    let words = lights.to_raw().words();
    let mut expected = vec![1.0f32.to_bits(), 2.0f32.to_bits(), 3.0f32.to_bits(), 0];
    expected.extend(vec![0u32; 4 * (MAX_LIGHTS - 1)]);
    expected.extend(vec![ONE, ONE, ONE, 0]);
    expected.extend(vec![0u32; 4 * (MAX_LIGHTS - 1)]);
    assert_eq!(words, expected);
}

#[test]
fn light_config_starts_with_shadows_on_and_packs_to_four_bytes() {
    let mut config = LightConfig::new(BufferId(9));
    assert!(config.shadows_enabled);
    assert_eq!(LightConfig::binding_size(), 4);
    let raw = config.to_raw();
    assert!(raw.shadows_enabled);
    assert_eq!(raw.padding, [0, 0, 0]);
    assert_eq!(raw.bytes(), vec![1, 0, 0, 0]);
    config.shadows_enabled = false;
    assert_eq!(config.to_raw().bytes(), vec![0, 0, 0, 0]);
}

#[test]
fn light_config_upload_writes_at_the_start_of_its_buffer() {
    let config = LightConfig::new(BufferId(9));
    let mut encoder = CommandEncoder::new();
    config.upload(&mut encoder);
    assert_eq!(
        encoder.finish(),
        vec![Command::WriteBuffer { buffer: BufferId(9), offset: 0, data: Payload::LightConfig(config.to_raw()) }]
    );
}

#[test]
fn lights_upload_stages_the_packed_image() {
    let mut lights = empty_lights();
    lights.add_light(v3(1.0, 2.0, 3.0));
    let mut encoder = CommandEncoder::new();
    lights.upload(&mut encoder);
    assert_eq!(
        encoder.finish(),
        vec![Command::StageBuffer { destination: BufferId(4), data: Payload::Lights(lights.to_raw()) }]
    );
}

#[test]
fn light_config_binds_its_whole_buffer() {
    let config = LightConfig::new(BufferId(9));
    assert_eq!(config.binding_resource(), BufferBinding { buffer: BufferId(9), offset: 0, size: None });
}

#[test]
fn first_free_is_the_lowest_empty_slot() {
    let mut lights = empty_lights();
    assert_eq!(lights.first_free(), Some(0));
    lights.add_light(v3(1.0, 0.0, 0.0));
    assert_eq!(lights.first_free(), Some(1));
    lights.add_light(v3(2.0, 0.0, 0.0));
    assert_eq!(lights.first_free(), None);
    lights.remove(0);
    assert_eq!(lights.first_free(), Some(0));
}
