//! Point lights in a fixed number of slots, and their packed image for the GPU.

use vstd::prelude::*;
use crate::command::{Command, CommandEncoder, Payload};
use crate::math::{Scalar, Vector3, Vector4, ONE, ZERO};
use crate::model::MaterialId;
use crate::resource::{BindGroupId, BufferBinding, BufferId, TextureId};

verus! {

/// A light is known by the index of its slot.
pub type LightId = usize;

/// The maximum number of lights supported at once.
pub const MAX_LIGHTS: usize = 2;

#[derive(Clone, Copy, Debug, PartialEq, Eq, Structural)]
pub enum LightType {
    Directional,
    Point,
}

#[derive(Clone, Copy, Debug, PartialEq, Eq, Structural)]
pub struct Light {
    pub position: Vector3,
    pub color: Vector3,
    pub light_type: LightType,
}

/// The colour that a light gets when it is added: white.
pub open spec fn spec_white() -> Vector3 {
    Vector3 { x: ONE, y: ONE, z: ONE }
}

impl Light {
    /// A point light at `position` with the given colour.
    pub open spec fn spec_new(position: Vector3, color: Vector3) -> Light {
        Light { position, color, light_type: LightType::Point }
    }

    pub fn new(position: Vector3, color: Vector3) -> (light: Self)
        ensures
            light == Self::spec_new(position, color),
    {
        Light { position, color, light_type: LightType::Point }
    }
}

/// The lights as the shaders read them: one position and one colour per
/// slot, each padded to four components, empty slots included.
#[derive(Clone, Copy, Debug, PartialEq, Eq)]
pub struct LightsRaw {
    pub positions: [Vector4; MAX_LIGHTS],
    pub colors: [Vector4; MAX_LIGHTS],
}

/// The position that slot `slot` contributes to the packed image.
pub open spec fn packed_position(slot: Option<Light>) -> Vector4 {
    match slot {
        Some(light) => light.position.spec_extend(ZERO),
        None => Vector4::spec_zero(),
    }
}

/// The colour that slot `slot` contributes to the packed image.
pub open spec fn packed_color(slot: Option<Light>) -> Vector4 {
    match slot {
        Some(light) => light.color.spec_extend(ZERO),
        None => Vector4::spec_zero(),
    }
}

/// `raw` is the packed image of the first `MAX_LIGHTS` slots of `slots`.
pub open spec fn is_packed(slots: Seq<Option<Light>>, raw: LightsRaw) -> bool {
    &&& forall|i: int|
        0 <= i < MAX_LIGHTS ==> #[trigger] raw.positions@[i] == packed_position(slots[i])
    &&& forall|i: int| 0 <= i < MAX_LIGHTS ==> #[trigger] raw.colors@[i] == packed_color(slots[i])
}

/// Two packed images of the same slots are the same.
pub proof fn lemma_packed_unique(slots: Seq<Option<Light>>, a: LightsRaw, b: LightsRaw)
    requires
        is_packed(slots, a),
        is_packed(slots, b),
    ensures
        a == b,
{
    assert(a.positions =~= b.positions);
    assert(a.colors =~= b.colors);
}

/// The packed image of `slots`.
pub open spec fn spec_pack(slots: Seq<Option<Light>>) -> LightsRaw {
    choose|raw: LightsRaw| is_packed(slots, raw)
}

/// An array that holds `value(i)` at every place `i` below `count`.
spec fn spec_filled(value: spec_fn(int) -> Vector4, count: nat) -> [Vector4; MAX_LIGHTS]
    decreases count,
{
    if count == 0 {
        vstd::array::spec_array_fill_for_copy_type(Vector4::spec_zero())
    } else {
        vstd::array::spec_array_update(
            spec_filled(value, (count - 1) as nat),
            count - 1,
            value(count - 1),
        )
    }
}

proof fn lemma_filled(value: spec_fn(int) -> Vector4, count: nat)
    requires
        count <= MAX_LIGHTS,
    ensures
        forall|i: int| 0 <= i < count ==> #[trigger] spec_filled(value, count)@[i] == value(i),
    decreases count,
{
    if count > 0 {
        lemma_filled(value, (count - 1) as nat);
        let before = spec_filled(value, (count - 1) as nat);
        assert(spec_filled(value, count)@ == before@.update(count - 1, value(count - 1)));
        assert forall|i: int| 0 <= i < count implies #[trigger] spec_filled(value, count)@[i]
            == value(i) by {
            if i < count - 1 {
                assert(before@[i] == value(i));
            }
        }
    }
}

/// Every set of slots has a packed image, and `spec_pack` is it.
pub proof fn lemma_pack_is_packed(slots: Seq<Option<Light>>)
    ensures
        is_packed(slots, spec_pack(slots)),
{
    let positions = |i: int| packed_position(slots[i]);
    let colors = |i: int| packed_color(slots[i]);
    lemma_filled(positions, MAX_LIGHTS as nat);
    lemma_filled(colors, MAX_LIGHTS as nat);
    let raw = LightsRaw {
        positions: spec_filled(positions, MAX_LIGHTS as nat),
        colors: spec_filled(colors, MAX_LIGHTS as nat),
    };
    assert(is_packed(slots, raw));
}

/// The packed image of a set without lights is zero throughout.
pub proof fn law_pack_of_empty_is_zero(slots: Seq<Option<Light>>, raw: LightsRaw)
    requires
        is_packed(slots, raw),
        forall|i: int| 0 <= i < MAX_LIGHTS ==> (#[trigger] slots[i]) is None,
    ensures
        forall|i: int| 0 <= i < MAX_LIGHTS ==> (#[trigger] raw.positions@[i]) == Vector4::spec_zero(),
        forall|i: int| 0 <= i < MAX_LIGHTS ==> (#[trigger] raw.colors@[i]) == Vector4::spec_zero(),
{
}

/// The numbers of the first `count` of `vectors`, one vector after the other.
pub open spec fn spec_vectors_words(vectors: Seq<Vector4>, count: nat) -> Seq<Scalar>
    decreases count,
{
    if count == 0 {
        Seq::empty()
    } else {
        spec_vectors_words(vectors, (count - 1) as nat) + vectors[count - 1].spec_words()
    }
}

/// `count` vectors have four numbers each.
proof fn lemma_vectors_words_len(vectors: Seq<Vector4>, count: nat)
    ensures
        spec_vectors_words(vectors, count).len() == 4 * count,
    decreases count,
{
    if count > 0 {
        lemma_vectors_words_len(vectors, (count - 1) as nat);
    }
}

impl LightsRaw {
    /// The number of bytes of the packed image.
    pub open spec fn spec_size() -> nat {
        (MAX_LIGHTS * 32) as nat
    }

    /// The numbers of the packed image in the order in which the GPU reads
    /// them: all positions, then all colours.
    pub open spec fn spec_words(self) -> Seq<Scalar> {
        spec_vectors_words(self.positions@, MAX_LIGHTS as nat) + spec_vectors_words(
            self.colors@,
            MAX_LIGHTS as nat,
        )
    }

    /// The numbers of the packed image in the order in which the GPU reads
    /// them.
    pub fn words(&self) -> (words: Vec<Scalar>)
        ensures
            words@ == self.spec_words(),
            words@.len() * 4 == Self::spec_size(),
    {
        let mut words = Vec::new();
        let mut i: usize = 0;
        while i < MAX_LIGHTS
            invariant
                i <= MAX_LIGHTS,
                words@ == spec_vectors_words(self.positions@, i as nat),
            decreases MAX_LIGHTS - i,
        {
            self.positions[i].push_words(&mut words);
            i += 1;
        }
        let ghost head = words@;
        let mut i: usize = 0;
        while i < MAX_LIGHTS
            invariant
                i <= MAX_LIGHTS,
                words@ == head + spec_vectors_words(self.colors@, i as nat),
            decreases MAX_LIGHTS - i,
        {
            self.colors[i].push_words(&mut words);
            assert(words@ =~= head + spec_vectors_words(self.colors@, (i + 1) as nat));
            i += 1;
        }
        proof {
            lemma_vectors_words_len(self.positions@, MAX_LIGHTS as nat);
            lemma_vectors_words_len(self.colors@, MAX_LIGHTS as nat);
        }
        words
    }

    pub fn size() -> (n: u64)
        ensures
            n == Self::spec_size(),
    {
        (MAX_LIGHTS as u64) * 32
    }
}

/// Slot `i` is empty and every slot before it is occupied.
pub open spec fn is_first_free(slots: Seq<Option<Light>>, i: int) -> bool {
    &&& 0 <= i < slots.len()
    &&& slots[i] is None
    &&& forall|j: int| 0 <= j < i ==> (#[trigger] slots[j]) is Some
}

/// Every slot is occupied.
pub open spec fn is_full(slots: Seq<Option<Light>>) -> bool {
    forall|j: int| 0 <= j < slots.len() ==> (#[trigger] slots[j]) is Some
}

/// What adding a light at `position` does to the slots, and the id it returns:
/// the light goes into the first empty slot, and into none if all are occupied.
pub open spec fn spec_add_light(slots: Seq<Option<Light>>, position: Vector3) -> (
    Seq<Option<Light>>,
    Option<LightId>,
) {
    if exists|i: int| is_first_free(slots, i) {
        let i = choose|i: int| is_first_free(slots, i);
        (slots.update(i, Some(Light::spec_new(position, spec_white()))), Some(i as usize))
    } else {
        (slots, None)
    }
}

/// At most one slot is the first empty one.
pub proof fn lemma_first_free_unique(slots: Seq<Option<Light>>, i: int, j: int)
    requires
        is_first_free(slots, i),
        is_first_free(slots, j),
    ensures
        i == j,
{
    if i < j {
        assert(slots[i] is Some);
    } else if j < i {
        assert(slots[j] is Some);
    }
}

/// Either some slot is the first empty one, or all are occupied, never both.
pub proof fn lemma_full_or_free(slots: Seq<Option<Light>>)
    ensures
        is_full(slots) <==> !exists|i: int| is_first_free(slots, i),
{
    if is_full(slots) {
        assert forall|i: int| !is_first_free(slots, i) by {
            if 0 <= i < slots.len() {
                assert(slots[i] is Some);
            }
        }
    } else {
        let j = choose|j: int| 0 <= j < slots.len() && !((#[trigger] slots[j]) is Some);
        lemma_free_below(slots, j + 1);
    }
}

/// If some slot below `n` is empty, some slot is the first empty one.
proof fn lemma_free_below(slots: Seq<Option<Light>>, n: int)
    requires
        0 <= n <= slots.len(),
        exists|j: int| 0 <= j < n && (#[trigger] slots[j]) is None,
    ensures
        exists|i: int| is_first_free(slots, i),
    decreases n,
{
    let j = choose|j: int| 0 <= j < n && (#[trigger] slots[j]) is None;
    if exists|k: int| 0 <= k < j && (#[trigger] slots[k]) is None {
        lemma_free_below(slots, j);
    } else {
        assert forall|k: int| 0 <= k < j implies (#[trigger] slots[k]) is Some by {
            if slots[k] is None {
                assert(0 <= k < j && slots[k] is None);
            }
        }
        assert(is_first_free(slots, j));
    }
}

/// The slots and the returned ids after one call of `add_light` for each of
/// `positions`, in order.
pub open spec fn spec_add_lights(slots: Seq<Option<Light>>, positions: Seq<Vector3>) -> (
    Seq<Option<Light>>,
    Seq<Option<LightId>>,
)
    decreases positions.len(),
{
    if positions.len() == 0 {
        (slots, Seq::empty())
    } else {
        let before = spec_add_lights(slots, positions.drop_last());
        let after = spec_add_light(before.0, positions.last());
        (after.0, before.1.push(after.1))
    }
}

/// Lights added to an empty set take the slots in order: the call number `k`
/// (counting from zero) returns `k` while `k < MAX_LIGHTS`, and every later
/// call returns `None`. In particular `MAX_LIGHTS + 1` calls return
/// `0, 1, .., MAX_LIGHTS - 1` and then `None`.
pub proof fn law_add_light_fills_in_order(slots: Seq<Option<Light>>, positions: Seq<Vector3>)
    requires
        slots.len() == MAX_LIGHTS,
        forall|i: int| 0 <= i < MAX_LIGHTS ==> (#[trigger] slots[i]) is None,
    ensures
        spec_add_lights(slots, positions).1.len() == positions.len(),
        forall|k: int|
            0 <= k < positions.len() ==> #[trigger] spec_add_lights(slots, positions).1[k] == (if k
                < MAX_LIGHTS {
                Some(k as usize)
            } else {
                None::<LightId>
            }),
        spec_add_lights(slots, positions).0.len() == MAX_LIGHTS,
        forall|i: int|
            0 <= i < MAX_LIGHTS ==> ((#[trigger] spec_add_lights(slots, positions).0[i]) is Some
                <==> i < positions.len()),
    decreases positions.len(),
{
    if positions.len() > 0 {
        let n = positions.len() - 1;
        law_add_light_fills_in_order(slots, positions.drop_last());
        let before = spec_add_lights(slots, positions.drop_last());
        if n < MAX_LIGHTS {
            assert(is_first_free(before.0, n)) by {
                assert forall|j: int| 0 <= j < n implies (#[trigger] before.0[j]) is Some by {}
                assert(!(before.0[n] is Some));
            }
            assert forall|i: int| is_first_free(before.0, i) implies i == n by {
                lemma_first_free_unique(before.0, i, n);
            }
        } else {
            assert(is_full(before.0));
            lemma_full_or_free(before.0);
        }
    }
}

/// Whether shadows are rendered, and the buffer through which the shaders
/// learn of it.
#[derive(Clone, Copy, Debug, PartialEq, Eq, Structural)]
pub struct LightConfig {
    pub shadows_enabled: bool,
    pub buffer: BufferId,
}

/// The light configuration as the shaders read it: one byte for the flag,
/// then three bytes of padding.
#[derive(Clone, Copy, Debug, PartialEq, Eq)]
pub struct LightConfigRaw {
    pub shadows_enabled: bool,
    pub padding: [u8; 3],
}

impl LightConfigRaw {
    /// The number of bytes of the configuration.
    pub open spec fn spec_size() -> nat {
        4
    }

    /// The bytes of the configuration: one for the flag, which is 1 when
    /// shadows are on and 0 when they are off, then the padding.
    pub open spec fn spec_bytes(self) -> Seq<u8> {
        seq![
            if self.shadows_enabled {
                1u8
            } else {
                0u8
            },
            self.padding@[0],
            self.padding@[1],
            self.padding@[2],
        ]
    }

    /// The bytes of the configuration.
    pub fn bytes(&self) -> (bytes: Vec<u8>)
        ensures
            bytes@ == self.spec_bytes(),
            bytes@.len() == Self::spec_size(),
    {
        let mut bytes = Vec::new();
        bytes.push(if self.shadows_enabled { 1u8 } else { 0u8 });
        bytes.push(self.padding[0]);
        bytes.push(self.padding[1]);
        bytes.push(self.padding[2]);
        assert(bytes@ =~= self.spec_bytes());
        bytes
    }
}

impl LightConfig {
    /// A configuration with shadows switched on, to be held in `buffer`.
    pub fn new(buffer: BufferId) -> (config: Self)
        ensures
            config.shadows_enabled,
            config.buffer == buffer,
    {
        LightConfig { shadows_enabled: true, buffer }
    }

    /// The configuration's buffer, whole, as the shaders are to see it.
    pub fn binding_resource(&self) -> (binding: BufferBinding)
        ensures
            binding == (BufferBinding { buffer: self.buffer, offset: 0, size: None }),
    {
        BufferBinding { buffer: self.buffer, offset: 0, size: None }
    }

    /// The number of bytes that a shader binding of the configuration spans.
    pub fn binding_size() -> (n: u64)
        ensures
            n == LightConfigRaw::spec_size(),
    {
        4
    }

    /// The configuration as the shaders read it: the flag, and zeros as
    /// padding.
    pub open spec fn spec_to_raw(self) -> LightConfigRaw {
        LightConfigRaw { shadows_enabled: self.shadows_enabled, padding: [0u8, 0u8, 0u8] }
    }

    /// The configuration as the shaders read it.
    pub fn to_raw(&self) -> (raw: LightConfigRaw)
        ensures
            raw == self.spec_to_raw(),
            raw.shadows_enabled == self.shadows_enabled,
            raw.padding@ == seq![0u8, 0u8, 0u8],
    {
        let raw = LightConfigRaw { shadows_enabled: self.shadows_enabled, padding: [0u8, 0u8, 0u8] };
        assert(raw.padding@ =~= seq![0u8, 0u8, 0u8]);
        assert(raw.padding =~= self.spec_to_raw().padding);
        raw
    }

    /// The write of the configuration to the start of its buffer.
    pub open spec fn spec_upload(self) -> Command {
        Command::WriteBuffer {
            buffer: self.buffer,
            offset: 0,
            data: Payload::LightConfig(self.spec_to_raw()),
        }
    }

    /// Records the write of the configuration into its buffer.
    pub fn upload(&self, encoder: &mut CommandEncoder)
        ensures
            final(encoder)@ == old(encoder)@.push(self.spec_upload()),
    {
        encoder.write_buffer(self.buffer, 0, Payload::LightConfig(self.to_raw()));
    }
}

/// The lights of the scene and the GPU resources that go with them.
pub struct Lights {
    pub lights: [Option<Light>; MAX_LIGHTS],
    /// The cube-map shadow texture of each slot.
    pub shadow_textures: [TextureId; MAX_LIGHTS],
    /// Material used to render the lights' billboards.
    pub material: MaterialId,
    pub config: LightConfig,
    /// The buffer that holds the packed image of the lights.
    pub buffer: BufferId,
    pub bind_group: BindGroupId,
}

impl Lights {
    /// The slots as a sequence.
    pub open spec fn slots(&self) -> Seq<Option<Light>> {
        self.lights@
    }

    /// The two hold the same GPU resources, material and configuration.
    pub open spec fn same_resources(&self, other: Lights) -> bool {
        &&& self.shadow_textures == other.shadow_textures
        &&& self.material == other.material
        &&& self.config == other.config
        &&& self.buffer == other.buffer
        &&& self.bind_group == other.bind_group
    }

    /// A set of lights with every slot empty.
    pub fn new(
        shadow_textures: [TextureId; MAX_LIGHTS],
        material: MaterialId,
        config: LightConfig,
        buffer: BufferId,
        bind_group: BindGroupId,
    ) -> (lights: Self)
        ensures
            forall|i: int| 0 <= i < MAX_LIGHTS ==> (#[trigger] lights.slots()[i]) is None,
            lights.shadow_textures == shadow_textures,
            lights.material == material,
            lights.config == config,
            lights.buffer == buffer,
            lights.bind_group == bind_group,
    {
        Lights { lights: [None; MAX_LIGHTS], shadow_textures, material, config, buffer, bind_group }
    }

    /// The first empty slot, or `None` when every slot is occupied.
    pub fn first_free(&self) -> (id: Option<LightId>)
        ensures
            match id {
                Some(i) => is_first_free(self.slots(), i as int),
                None => is_full(self.slots()),
            },
    {
        let mut i: usize = 0;
        while i < MAX_LIGHTS
            invariant
                i <= MAX_LIGHTS,
                forall|j: int| 0 <= j < i ==> (#[trigger] self.slots()[j]) is Some,
            decreases MAX_LIGHTS - i,
        {
            if self.lights[i].is_none() {
                return Some(i);
            }
            i += 1;
        }
        None
    }

    /// Puts a white point light at `position` into the first empty slot and
    /// returns that slot's index. Returns `None`, and changes nothing, when
    /// every slot is occupied.
    pub fn add_light(&mut self, position: Vector3) -> (id: Option<LightId>)
        ensures
            (final(self).slots(), id) == spec_add_light(old(self).slots(), position),
            match id {
                Some(i) => is_first_free(old(self).slots(), i as int) && final(self).slots()
                    == old(self).slots().update(
                    i as int,
                    Some(Light::spec_new(position, spec_white())),
                ),
                None => is_full(old(self).slots()) && final(self).slots() == old(self).slots(),
            },
            final(self).same_resources(*old(self)),
    {
        match self.first_free() {
            Some(i) => {
                proof {
                    assert forall|k: int| is_first_free(old(self).slots(), k) implies k == i by {
                        lemma_first_free_unique(old(self).slots(), k, i as int);
                    }
                }
                self.lights[i] = Some(Light::new(position, Vector3::new(ONE, ONE, ONE)));
                Some(i)
            },
            None => {
                proof {
                    lemma_full_or_free(old(self).slots());
                }
                None
            },
        }
    }

    /// Moves the light in slot `id` to `position` and says whether there was
    /// one: an empty slot, or an `id` that names no slot, is left as it is.
    /// The packed image and the shadow transforms are not touched: they are
    /// made again, by the caller, from the new position.
    pub fn update_position(&mut self, id: LightId, position: Vector3) -> (moved: bool)
        ensures
            moved == (id < MAX_LIGHTS && old(self).slots()[id as int] is Some),
            moved ==> final(self).slots() == old(self).slots().update(
                id as int,
                Some(
                    Light {
                        position,
                        color: old(self).slots()[id as int]->0.color,
                        light_type: old(self).slots()[id as int]->0.light_type,
                    },
                ),
            ),
            !moved ==> final(self).slots() == old(self).slots(),
            final(self).same_resources(*old(self)),
    {
        if id < MAX_LIGHTS {
            if let Some(light) = self.lights[id] {
                self.lights[id] = Some(
                    Light { position, color: light.color, light_type: light.light_type },
                );
                return true;
            }
        }
        false
    }

    /// Empties slot `id` and returns the light that was in it, if any. No
    /// other slot changes, so every other id names the light it named before.
    pub fn remove(&mut self, id: LightId) -> (removed: Option<Light>)
        ensures
            removed == (if id < MAX_LIGHTS {
                old(self).slots()[id as int]
            } else {
                None
            }),
            final(self).slots() == (if id < MAX_LIGHTS {
                old(self).slots().update(id as int, None)
            } else {
                old(self).slots()
            }),
            final(self).same_resources(*old(self)),
    {
        if id < MAX_LIGHTS {
            let removed = self.lights[id];
            self.lights[id] = None;
            removed
        } else {
            None
        }
    }

    /// The packed image of the lights.
    pub fn to_raw(&self) -> (raw: LightsRaw)
        ensures
            is_packed(self.slots(), raw),
            raw == spec_pack(self.slots()),
    {
        let raw = Self::map_raw(&self.lights);
        proof {
            lemma_packed_unique(self.slots(), raw, spec_pack(self.slots()));
        }
        raw
    }

    /// The staged copy of the packed image into the lights' buffer.
    pub open spec fn spec_upload(&self) -> Command {
        Command::StageBuffer {
            destination: self.buffer,
            data: Payload::Lights(spec_pack(self.slots())),
        }
    }

    /// Records the upload of the packed image: it is staged and copied into
    /// the lights' buffer.
    pub fn upload(&self, encoder: &mut CommandEncoder)
        ensures
            final(encoder)@ == old(encoder)@.push(self.spec_upload()),
            is_packed(self.slots(), spec_pack(self.slots())),
    {
        encoder.stage_buffer(self.buffer, Payload::Lights(self.to_raw()));
    }

    /// The packed image of the first `MAX_LIGHTS` of the given slots: the
    /// position and colour of each light, padded with a zero, and zeros for
    /// an empty slot.
    pub fn map_raw(lights: &[Option<Light>]) -> (raw: LightsRaw)
        requires
            lights@.len() >= MAX_LIGHTS,
        ensures
            is_packed(lights@, raw),
    {
        let mut positions = [Vector4::zero(); MAX_LIGHTS];
        let mut colors = [Vector4::zero(); MAX_LIGHTS];
        let mut i: usize = 0;
        while i < MAX_LIGHTS
            invariant
                i <= MAX_LIGHTS,
                lights@.len() >= MAX_LIGHTS,
                forall|j: int|
                    0 <= j < i ==> #[trigger] positions@[j] == packed_position(lights@[j]),
                forall|j: int| 0 <= j < i ==> #[trigger] colors@[j] == packed_color(lights@[j]),
                forall|j: int|
                    i <= j < MAX_LIGHTS ==> #[trigger] positions@[j] == Vector4::spec_zero(),
                forall|j: int|
                    i <= j < MAX_LIGHTS ==> #[trigger] colors@[j] == Vector4::spec_zero(),
            decreases MAX_LIGHTS - i,
        {
            if let Some(light) = &lights[i] {
                positions[i] = light.position.extend(ZERO);
                colors[i] = light.color.extend(ZERO);
            }
            i += 1;
        }
        LightsRaw { positions, colors }
    }
}

} // verus!
