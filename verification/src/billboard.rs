//! Billboards: quads that always face the camera, drawn in one instanced
//! draw per material.

use std::collections::HashMap;
use vstd::pervasive::unreached;
use vstd::prelude::*;
use crate::command::{all_pass_scoped, Command, CommandEncoder, Payload};
use crate::geometry::{Plane, PLANE_INDEX_COUNT};
use crate::math::{Matrix4, Vector3, Vector4, ONE, ZERO};
use crate::model::{InstanceRaw, MaterialId};
use crate::resource::{BindGroupId, BufferId, Span};
use crate::Materials;

verus! {

broadcast use vstd::std_specs::hash::group_hash_axioms;

/// The number of billboards of one material for which its instance buffer
/// has room.
pub const MAX_BILLBOARDS: u64 = 10000;

/// A billboard is known by the number it got when it was inserted.
pub type BillboardId = usize;

#[derive(Clone, Copy, Debug, PartialEq, Eq, Structural)]
pub struct Billboard {
    pub position: Vector3,
    pub material: MaterialId,
}

/// The transform that puts a quad at `position`, turned to face a camera with
/// view matrix `view`: the rotation of `view` transposed, which undoes the
/// camera's rotation, and `position` as translation.
pub open spec fn spec_billboard_transform(view: Matrix4, position: Vector3) -> Matrix4 {
    Matrix4 {
        x: Vector4 { x: view.x.x, y: view.y.x, z: view.z.x, w: ZERO },
        y: Vector4 { x: view.x.y, y: view.y.y, z: view.z.y, w: ZERO },
        z: Vector4 { x: view.x.z, y: view.y.z, z: view.z.z, w: ZERO },
        w: Vector4 { x: position.x, y: position.y, z: position.z, w: ONE },
    }
}

/// The transform of a billboard at `position` for a camera with view matrix
/// `view`. It is made anew for every frame and stored nowhere.
pub fn billboard_transform(view: &Matrix4, position: Vector3) -> (transform: Matrix4)
    ensures
        transform == spec_billboard_transform(*view, position),
        transform.w == position.spec_extend(ONE),
{
    Matrix4 {
        x: Vector4 { x: view.x.x, y: view.y.x, z: view.z.x, w: ZERO },
        y: Vector4 { x: view.x.y, y: view.y.y, z: view.z.y, w: ZERO },
        z: Vector4 { x: view.x.z, y: view.y.z, z: view.z.z, w: ZERO },
        w: Vector4 { x: position.x, y: position.y, z: position.z, w: ONE },
    }
}

/// However the camera is turned, a billboard stays where it is: the
/// translation column of its transform is its position, for every view
/// matrix. Two cameras that differ in any way give the same translation.
pub proof fn law_billboard_translation_is_position(
    view_a: Matrix4,
    view_b: Matrix4,
    position: Vector3,
)
    ensures
        spec_billboard_transform(view_a, position).w == position.spec_extend(ONE),
        spec_billboard_transform(view_a, position).w == spec_billboard_transform(
            view_b,
            position,
        ).w,
{
}

/// The rotation of a billboard's transform is the camera's rotation
/// transposed: row and column change places.
pub proof fn law_billboard_rotation_is_transposed(view: Matrix4, position: Vector3)
    ensures
        ({
            let t = spec_billboard_transform(view, position);
            &&& t.x.spec_truncate() == (Vector3 { x: view.x.x, y: view.y.x, z: view.z.x })
            &&& t.y.spec_truncate() == (Vector3 { x: view.x.y, y: view.y.y, z: view.z.y })
            &&& t.z.spec_truncate() == (Vector3 { x: view.x.z, y: view.y.z, z: view.z.z })
            &&& t.x.w == ZERO && t.y.w == ZERO && t.z.w == ZERO
        }),
{
}

/// The billboards of one material: how many there are, and the buffer that
/// holds their instances.
#[derive(Clone, Copy, Debug, PartialEq, Eq, Structural)]
pub struct BillboardData {
    pub material: MaterialId,
    pub num_instances: u32,
    pub instance_buffer: BufferId,
    pub instance_bind_group: BindGroupId,
}

/// The instance buffer of a material and the bind group through which the
/// shaders read it.
#[derive(Clone, Copy, Debug, PartialEq, Eq, Structural)]
pub struct InstanceResources {
    pub instance_buffer: BufferId,
    pub instance_bind_group: BindGroupId,
}

/// Why a billboard could not be inserted.
#[derive(Clone, Copy, Debug, PartialEq, Eq, Structural)]
pub enum BillboardError {
    /// The material has `MAX_BILLBOARDS` billboards already: its instance
    /// buffer is full.
    Full,
    /// The billboard is the first of its material and no instance buffer
    /// came with it.
    MissingResources,
}

/// The number of billboards among `billboards` that have `material`.
pub open spec fn count_material(billboards: Seq<Billboard>, material: MaterialId) -> nat
    decreases billboards.len(),
{
    if billboards.len() == 0 {
        0
    } else {
        count_material(billboards.drop_last(), material) + (if billboards.last().material
            == material {
            1nat
        } else {
            0nat
        })
    }
}

/// No more billboards have a material than there are billboards, and none
/// has it if none names it.
pub proof fn lemma_count_material(billboards: Seq<Billboard>, material: MaterialId)
    ensures
        count_material(billboards, material) <= billboards.len(),
        (forall|i: int| 0 <= i < billboards.len() ==> (#[trigger] billboards[i]).material
            != material) ==> count_material(billboards, material) == 0,
    decreases billboards.len(),
{
    if billboards.len() > 0 {
        lemma_count_material(billboards.drop_last(), material);
        if forall|i: int| 0 <= i < billboards.len() ==> (#[trigger] billboards[i]).material
            != material {
            assert forall|i: int| 0 <= i < billboards.drop_last().len() implies (
            #[trigger] billboards.drop_last()[i]).material != material by {
                assert(billboards.drop_last()[i] == billboards[i]);
            }
            assert(billboards.last() == billboards[billboards.len() - 1]);
        }
    }
}

/// The place of billboard `id` among the billboards of its material: the
/// number of billboards before it that have its material.
pub open spec fn spec_rank(billboards: Seq<Billboard>, id: int) -> nat {
    count_material(billboards.subrange(0, id), billboards[id].material)
}

/// Billboard `id` has `material` and is number `slot` among the billboards
/// of that material.
pub open spec fn is_in_slot(
    billboards: Seq<Billboard>,
    material: MaterialId,
    slot: nat,
    id: int,
) -> bool {
    &&& 0 <= id < billboards.len()
    &&& billboards[id].material == material
    &&& spec_rank(billboards, id) == slot
}

/// One billboard more among the first ones counts one more if it has the
/// material, and the same if it has not.
proof fn lemma_count_step(billboards: Seq<Billboard>, i: int, material: MaterialId)
    requires
        0 <= i < billboards.len(),
    ensures
        count_material(billboards.subrange(0, i + 1), material) == count_material(
            billboards.subrange(0, i),
            material,
        ) + (if billboards[i].material == material {
            1nat
        } else {
            0nat
        }),
{
    let next = billboards.subrange(0, i + 1);
    assert(next.drop_last() =~= billboards.subrange(0, i));
    assert(next.last() == billboards[i]);
}

/// Among more of the first billboards, no fewer have the material.
proof fn lemma_count_prefix(billboards: Seq<Billboard>, i: int, j: int, material: MaterialId)
    requires
        0 <= i <= j <= billboards.len(),
    ensures
        count_material(billboards.subrange(0, i), material) <= count_material(
            billboards.subrange(0, j),
            material,
        ),
    decreases j - i,
{
    if i < j {
        lemma_count_prefix(billboards, i, j - 1, material);
        lemma_count_step(billboards, j - 1, material);
    }
}

/// The place of a billboard among those of its material is below their
/// number.
pub proof fn lemma_rank_below_count(billboards: Seq<Billboard>, id: int)
    requires
        0 <= id < billboards.len(),
    ensures
        spec_rank(billboards, id) < count_material(billboards, billboards[id].material),
{
    let material = billboards[id].material;
    lemma_count_step(billboards, id, material);
    lemma_count_prefix(billboards, id + 1, billboards.len() as int, material);
    assert(billboards.subrange(0, billboards.len() as int) =~= billboards);
}

/// The billboards of a material fill the first places of its instance
/// buffer, one each: for every place below the number of billboards of the
/// material there is one billboard of that material in it, and no second.
pub proof fn law_slots_of_a_material_are_filled_once(
    billboards: Seq<Billboard>,
    material: MaterialId,
    slot: nat,
)
    requires
        slot < count_material(billboards, material),
    ensures
        exists|id: int| is_in_slot(billboards, material, slot, id),
        forall|a: int, b: int|
            is_in_slot(billboards, material, slot, a) && is_in_slot(billboards, material, slot, b)
                ==> a == b,
    decreases billboards.len(),
{
    assert forall|a: int, b: int|
        is_in_slot(billboards, material, slot, a) && is_in_slot(
            billboards,
            material,
            slot,
            b,
        ) implies a == b by {
        if a < b {
            lemma_count_step(billboards, a, material);
            lemma_count_prefix(billboards, a + 1, b, material);
        } else if b < a {
            lemma_count_step(billboards, b, material);
            lemma_count_prefix(billboards, b + 1, a, material);
        }
    }
    let n = billboards.len() as int;
    let before = billboards.drop_last();
    if billboards.last().material == material && slot == count_material(before, material) {
        assert(billboards.subrange(0, n - 1) =~= before);
        assert(is_in_slot(billboards, material, slot, n - 1));
    } else {
        law_slots_of_a_material_are_filled_once(before, material, slot);
        let id = choose|id: int| is_in_slot(before, material, slot, id);
        assert(before.subrange(0, id) =~= billboards.subrange(0, id));
        assert(is_in_slot(billboards, material, slot, id));
    }
}

/// Whether some batch among `batches` is for `material`.
pub open spec fn has_batch(batches: Seq<BillboardData>, material: MaterialId) -> bool {
    exists|i: int| 0 <= i < batches.len() && (#[trigger] batches[i]).material == material
}

/// The batches after one more billboard of `material` has come: the batch of
/// the material counts one more, and the others are as they were.
pub open spec fn spec_count_instance(batches: Seq<BillboardData>, material: MaterialId) -> Seq<
    BillboardData,
> {
    Seq::new(
        batches.len(),
        |i: int|
            if batches[i].material == material {
                BillboardData {
                    material: batches[i].material,
                    num_instances: (batches[i].num_instances + 1) as u32,
                    instance_buffer: batches[i].instance_buffer,
                    instance_bind_group: batches[i].instance_bind_group,
                }
            } else {
                batches[i]
            },
    )
}

/// What inserting `billboard` does to the batches: the batch of its material
/// counts one more, or, for the first billboard of a material, a batch with
/// the resources in `fresh` and a count of one comes last.
pub open spec fn spec_insert_batches(
    batches: Seq<BillboardData>,
    billboard: Billboard,
    fresh: Option<InstanceResources>,
) -> Seq<BillboardData> {
    if has_batch(batches, billboard.material) {
        spec_count_instance(batches, billboard.material)
    } else {
        batches.push(
            BillboardData {
                material: billboard.material,
                num_instances: 1,
                instance_buffer: fresh->0.instance_buffer,
                instance_bind_group: fresh->0.instance_bind_group,
            },
        )
    }
}

/// The batch of `material` among `batches`.
pub open spec fn spec_batch_of(batches: Seq<BillboardData>, material: MaterialId) -> BillboardData {
    batches[choose|i: int| 0 <= i < batches.len() && (#[trigger] batches[i]).material == material]
}

/// The size in bytes of the instance buffer of a material: room for
/// `MAX_BILLBOARDS` instances.
pub open spec fn spec_instance_buffer_size() -> nat {
    (MAX_BILLBOARDS * InstanceRaw::spec_size()) as nat
}

/// The size in bytes that the instance buffer of a material must have.
pub fn instance_buffer_size() -> (size: u64)
    ensures
        size == spec_instance_buffer_size(),
{
    MAX_BILLBOARDS * InstanceRaw::size()
}

/// The write of the instance of the billboard with id `id`: its transform
/// for the camera with view matrix `view` goes into the instance buffer of
/// its material, at its place among the billboards of that material.
pub open spec fn spec_instance_write(
    billboards: Seq<Billboard>,
    batches: Seq<BillboardData>,
    view: Matrix4,
    id: int,
) -> Command {
    Command::WriteBuffer {
        buffer: spec_batch_of(batches, billboards[id].material).instance_buffer,
        offset: (spec_rank(billboards, id) * InstanceRaw::spec_size()) as u64,
        data: Payload::Instance(
            InstanceRaw { model: spec_billboard_transform(view, billboards[id].position) },
        ),
    }
}

/// The commands that draw one batch: its material's textures at 0, its
/// instances at 2, and one draw of the quad for all of them.
pub open spec fn spec_render_batch(batch: BillboardData, materials: Materials) -> Seq<Command> {
    seq![
        Command::SetBindGroup {
            index: 0,
            group: materials@[batch.material].bind_group,
            offset: None,
        },
        Command::SetBindGroup { index: 2, group: batch.instance_bind_group, offset: None },
        Command::DrawIndexed {
            indices: Span { start: 0, end: PLANE_INDEX_COUNT },
            base_vertex: 0,
            instances: Span { start: 0, end: batch.num_instances },
        },
    ]
}

/// The commands that draw the first `count` of `batches`, in their order.
pub open spec fn spec_render_batches(
    batches: Seq<BillboardData>,
    materials: Materials,
    count: nat,
) -> Seq<Command>
    decreases count,
{
    if count == 0 {
        Seq::empty()
    } else {
        spec_render_batches(batches, materials, (count - 1) as nat) + spec_render_batch(
            batches[count - 1],
            materials,
        )
    }
}

/// Drawing batches takes only commands that belong to a render pass.
pub proof fn lemma_render_batches_pass_scoped(
    batches: Seq<BillboardData>,
    materials: Materials,
    count: nat,
)
    ensures
        all_pass_scoped(spec_render_batches(batches, materials, count)),
    decreases count,
{
    if count > 0 {
        lemma_render_batches_pass_scoped(batches, materials, (count - 1) as nat);
    }
}

/// How many billboards have a material depends on their materials alone.
proof fn lemma_count_by_material(a: Seq<Billboard>, b: Seq<Billboard>, material: MaterialId)
    requires
        a.len() == b.len(),
        forall|i: int| 0 <= i < a.len() ==> (#[trigger] a[i]).material == b[i].material,
    ensures
        count_material(a, material) == count_material(b, material),
    decreases a.len(),
{
    if a.len() > 0 {
        assert forall|i: int| 0 <= i < a.drop_last().len() implies (#[trigger] a.drop_last()[i]).material
            == b.drop_last()[i].material by {
            assert(a.drop_last()[i] == a[i]);
            assert(b.drop_last()[i] == b[i]);
        }
        lemma_count_by_material(a.drop_last(), b.drop_last(), material);
        assert(a.last().material == a[a.len() - 1].material);
    }
}

/// A billboard together with its place among the billboards of its material.
#[derive(Clone, Copy)]
struct Placed {
    billboard: Billboard,
    rank: u32,
}

/// A batch together with its place in the order in which batches are drawn.
#[derive(Clone, Copy)]
struct Batch {
    data: BillboardData,
    place: usize,
}

pub struct Billboards {
    next_id: BillboardId,
    billboards: HashMap<BillboardId, Placed>,
    instances: HashMap<MaterialId, Batch>,
    /// The materials in the order in which their first billboards came,
    /// which is the order in which their batches are drawn.
    order: Vec<MaterialId>,
    plane: Plane,
}

impl Billboards {
    /// The billboards in the order of their ids.
    pub closed spec fn billboards(&self) -> Seq<Billboard> {
        Seq::new(self.next_id as nat, |id: int| self.billboards@[id as usize].billboard)
    }

    /// The batches, one per material, in the order in which the materials
    /// first came.
    pub closed spec fn batches(&self) -> Seq<BillboardData> {
        Seq::new(self.order@.len(), |i: int| self.instances@[self.order@[i]].data)
    }

    /// The quad on which every billboard is drawn.
    pub closed spec fn plane(&self) -> Plane {
        self.plane
    }

    /// The place that is kept for each billboard in the instance buffer of
    /// its material.
    pub closed spec fn ranks(&self) -> Seq<u32> {
        Seq::new(self.next_id as nat, |id: int| self.billboards@[id as usize].rank)
    }

    /// The maps hold what the ids and the order of the materials speak of:
    /// a billboard under every id that was given out, and under every
    /// material of the order its batch, which knows its place in the order.
    pub closed spec fn maps_fit(&self) -> bool {
        &&& forall|id: usize| id < self.next_id ==> #[trigger] self.billboards@.contains_key(id)
        &&& forall|i: int|
            0 <= i < self.order@.len() ==> {
                &&& self.instances@.contains_key(#[trigger] self.order@[i])
                &&& self.instances@[self.order@[i]].place == i
                &&& self.instances@[self.order@[i]].data.material == self.order@[i]
            }
    }

    /// Every material in use has one batch, every batch counts the
    /// billboards of its material, which are no more than its instance
    /// buffer has room for, and every billboard has its place among those of
    /// its material.
    pub open spec fn wf(&self) -> bool {
        &&& self.maps_fit()
        &&& self.ranks().len() == self.billboards().len()
        &&& forall|i: int|
            0 <= i < self.billboards().len() ==> #[trigger] self.ranks()[i] == spec_rank(
                self.billboards(),
                i,
            )
        &&& forall|i: int|
            0 <= i < self.batches().len() ==> (#[trigger] self.batches()[i]).num_instances
                <= MAX_BILLBOARDS
        &&& forall|i: int, j: int|
            0 <= i < j < self.batches().len() ==> (#[trigger] self.batches()[i]).material != (
            #[trigger] self.batches()[j]).material
        &&& forall|i: int|
            0 <= i < self.batches().len() ==> (#[trigger] self.batches()[i]).num_instances
                == count_material(self.billboards(), self.batches()[i].material)
        &&& forall|i: int|
            0 <= i < self.billboards().len() ==> has_batch(
                self.batches(),
                (#[trigger] self.billboards()[i]).material,
            )
    }

    /// No billboards, to be drawn on `plane`.
    pub fn new(plane: Plane) -> (billboards: Self)
        ensures
            billboards.wf(),
            billboards.billboards() == Seq::<Billboard>::empty(),
            billboards.batches() == Seq::<BillboardData>::empty(),
            billboards.plane() == plane,
    {
        Billboards {
            next_id: 0,
            billboards: HashMap::new(),
            instances: HashMap::new(),
            order: Vec::new(),
            plane,
        }
    }

    /// The number of billboards.
    pub fn len(&self) -> (n: usize)
        ensures
            n == self.billboards().len(),
    {
        self.next_id
    }

    /// The billboard with id `id` and its place.
    fn placed(&self, id: BillboardId) -> (placed: Placed)
        requires
            self.maps_fit(),
            id < self.billboards().len(),
        ensures
            placed.billboard == self.billboards()[id as int],
            placed.rank == self.ranks()[id as int],
    {
        match self.billboards.get(&id) {
            Some(placed) => *placed,
            None => unreached(),
        }
    }

    /// The batch at place `place` of the order.
    fn batch(&self, place: usize) -> (batch: BillboardData)
        requires
            self.maps_fit(),
            place < self.batches().len(),
        ensures
            batch == self.batches()[place as int],
    {
        match self.instances.get(&self.order[place]) {
            Some(batch) => batch.data,
            None => unreached(),
        }
    }

    /// The place of the batch of `material`, if it has one.
    fn lookup(&self, material: MaterialId) -> (found: Option<usize>)
        requires
            self.maps_fit(),
        ensures
            match found {
                Some(i) => {
                    &&& i < self.batches().len()
                    &&& self.batches()[i as int].material == material
                    &&& forall|j: int|
                        0 <= j < self.batches().len() && j != i ==> (
                        #[trigger] self.batches()[j]).material != material
                },
                None => !has_batch(self.batches(), material),
            },
    {
        let found = match self.instances.get(&material) {
            Some(batch) => {
                if batch.place < self.order.len() && self.order[batch.place] == material {
                    Some(batch.place)
                } else {
                    None
                }
            },
            None => None,
        };
        proof {
            assert forall|j: int| 0 <= j < self.batches().len() && (
            #[trigger] self.batches()[j]).material == material implies found == Some(
                j as usize,
            ) by {
                assert(self.order@[j] == material);
            }
        }
        found
    }

    /// The place of the batch of `material` among the batches, if it has
    /// one.
    pub fn find_instances(&self, material: MaterialId) -> (found: Option<usize>)
        requires
            self.wf(),
        ensures
            match found {
                Some(i) => {
                    &&& i < self.batches().len()
                    &&& self.batches()[i as int].material == material
                    &&& forall|j: int|
                        0 <= j < self.batches().len() && j != i ==> (
                        #[trigger] self.batches()[j]).material != material
                },
                None => !has_batch(self.batches(), material),
            },
    {
        self.lookup(material)
    }

    /// The number of billboards with an id below `end` that have `material`.
    fn count_below(&self, end: usize, material: MaterialId) -> (n: usize)
        requires
            self.maps_fit(),
            end <= self.billboards().len(),
        ensures
            n == count_material(self.billboards().subrange(0, end as int), material),
    {
        let mut n: usize = 0;
        let mut i: usize = 0;
        while i < end
            invariant
                i <= end <= self.billboards().len(),
                self.maps_fit(),
                n <= i,
                n == count_material(self.billboards().subrange(0, i as int), material),
            decreases end - i,
        {
            proof {
                lemma_count_step(self.billboards(), i as int, material);
            }
            if self.placed(i).billboard.material == material {
                n += 1;
            }
            i += 1;
        }
        n
    }

    /// The number of billboards with an id below `end` that have `material`.
    pub fn count_before(&self, end: usize, material: MaterialId) -> (n: usize)
        requires
            self.wf(),
            end <= self.billboards().len(),
        ensures
            n == count_material(self.billboards().subrange(0, end as int), material),
    {
        self.count_below(end, material)
    }

    /// The number of billboards that have `material`.
    pub fn count(&self, material: MaterialId) -> (n: usize)
        requires
            self.wf(),
        ensures
            n == count_material(self.billboards(), material),
    {
        assert(self.billboards().subrange(0, self.billboards().len() as int)
            =~= self.billboards());
        self.count_below(self.next_id, material)
    }

    /// Whether the maps hold what the ids and the order speak of.
    fn maps_are_fit(&self) -> (ok: bool)
        ensures
            ok == self.maps_fit(),
    {
        let mut id: usize = 0;
        while id < self.next_id
            invariant
                id <= self.next_id,
                forall|k: usize| k < id ==> #[trigger] self.billboards@.contains_key(k),
            decreases self.next_id - id,
        {
            if !self.billboards.contains_key(&id) {
                return false;
            }
            id += 1;
        }
        let mut i: usize = 0;
        while i < self.order.len()
            invariant
                i <= self.order@.len(),
                forall|k: usize| k < self.next_id ==> #[trigger] self.billboards@.contains_key(k),
                forall|j: int|
                    0 <= j < i ==> {
                        &&& self.instances@.contains_key(#[trigger] self.order@[j])
                        &&& self.instances@[self.order@[j]].place == j
                        &&& self.instances@[self.order@[j]].data.material == self.order@[j]
                    },
            decreases self.order@.len() - i,
        {
            let material = self.order[i];
            match self.instances.get(&material) {
                Some(batch) => {
                    if batch.place != i || batch.data.material != material {
                        assert(self.order@[i as int] == material);
                        return false;
                    }
                },
                None => {
                    assert(self.order@[i as int] == material);
                    return false;
                },
            }
            i += 1;
        }
        true
    }

    /// Whether the billboards are well formed. Billboards that were made
    /// with `new` and changed through the functions of this type always are.
    pub fn is_well_formed(&self) -> (ok: bool)
        ensures
            ok == self.wf(),
    {
        if !self.maps_are_fit() {
            return false;
        }
        let mut r: usize = 0;
        while r < self.next_id
            invariant
                r <= self.billboards().len(),
                self.maps_fit(),
                forall|j: int|
                    0 <= j < r ==> #[trigger] self.ranks()[j] == spec_rank(self.billboards(), j),
            decreases self.billboards().len() - r,
        {
            let placed = self.placed(r);
            if placed.rank as usize != self.count_below(r, placed.billboard.material) {
                return false;
            }
            r += 1;
        }
        let mut i: usize = 0;
        while i < self.order.len()
            invariant
                i <= self.batches().len(),
                self.maps_fit(),
                forall|a: int|
                    0 <= a < i ==> (#[trigger] self.batches()[a]).num_instances <= MAX_BILLBOARDS,
                forall|a: int|
                    0 <= a < i ==> (#[trigger] self.batches()[a]).num_instances == count_material(
                        self.billboards(),
                        self.batches()[a].material,
                    ),
            decreases self.batches().len() - i,
        {
            let batch = self.batch(i);
            if batch.num_instances as u64 > MAX_BILLBOARDS {
                return false;
            }
            assert(self.billboards().subrange(0, self.billboards().len() as int)
                =~= self.billboards());
            if batch.num_instances as usize != self.count_below(self.next_id, batch.material) {
                return false;
            }
            i += 1;
        }
        proof {
            assert forall|a: int, b: int| 0 <= a < b < self.batches().len() implies (
            #[trigger] self.batches()[a]).material != (#[trigger] self.batches()[b]).material by {
                assert(self.order@[a] == self.batches()[a].material);
                assert(self.order@[b] == self.batches()[b].material);
            }
        }
        let mut k: usize = 0;
        while k < self.next_id
            invariant
                k <= self.billboards().len(),
                self.maps_fit(),
                forall|j: int|
                    0 <= j < k ==> has_batch(
                        self.batches(),
                        (#[trigger] self.billboards()[j]).material,
                    ),
            decreases self.billboards().len() - k,
        {
            match self.lookup(self.placed(k).billboard.material) {
                Some(found) => {
                    proof {
                        assert(self.batches()[found as int].material == self.billboards()[k as int].material);
                    }
                },
                None => {
                    return false;
                },
            }
            k += 1;
        }
        true
    }

    /// The billboard with the given id, if there is one.
    pub fn get(&self, id: BillboardId) -> (billboard: Option<Billboard>)
        requires
            self.wf(),
        ensures
            billboard == (if id < self.billboards().len() {
                Some(self.billboards()[id as int])
            } else {
                None
            }),
    {
        if id < self.next_id {
            Some(self.placed(id).billboard)
        } else {
            None
        }
    }

    /// Inserts `billboard` and returns its id: ids are given out in order,
    /// from zero. The batch of its material counts one more, and the
    /// billboard takes the next place in the material's instance buffer. For
    /// the first billboard of a material the batch is made, with the instance
    /// buffer and bind group in `fresh`; for every other, `fresh` is not
    /// looked at.
    ///
    /// Nothing is inserted when the material has `MAX_BILLBOARDS` billboards
    /// already, or when a batch would have to be made and `fresh` is `None`.
    pub fn insert(&mut self, billboard: Billboard, fresh: Option<InstanceResources>) -> (result:
        Result<BillboardId, BillboardError>)
        requires
            old(self).wf(),
            old(self).billboards().len() < usize::MAX,
        ensures
            final(self).wf(),
            final(self).plane() == old(self).plane(),
            match result {
                Ok(id) => {
                    &&& count_material(old(self).billboards(), billboard.material)
                        < MAX_BILLBOARDS
                    &&& has_batch(old(self).batches(), billboard.material) || fresh is Some
                    &&& id == old(self).billboards().len()
                    &&& final(self).billboards() == old(self).billboards().push(billboard)
                    &&& final(self).batches() == spec_insert_batches(
                        old(self).batches(),
                        billboard,
                        fresh,
                    )
                },
                Err(BillboardError::Full) => {
                    &&& count_material(old(self).billboards(), billboard.material)
                        >= MAX_BILLBOARDS
                    &&& final(self).billboards() == old(self).billboards()
                    &&& final(self).batches() == old(self).batches()
                },
                Err(BillboardError::MissingResources) => {
                    &&& count_material(old(self).billboards(), billboard.material)
                        < MAX_BILLBOARDS
                    &&& !has_batch(old(self).batches(), billboard.material)
                    &&& fresh is None
                    &&& final(self).billboards() == old(self).billboards()
                    &&& final(self).batches() == old(self).batches()
                },
            },
    {
        let material = billboard.material;
        let ghost old_batches = self.batches();
        let ghost old_billboards = self.billboards();
        let ghost old_ranks = self.ranks();
        let ghost place: int;
        let rank: u32;
        match self.lookup(material) {
            Some(i) => {
                let batch = self.batch(i);
                if batch.num_instances as u64 >= MAX_BILLBOARDS {
                    return Err(BillboardError::Full);
                }
                proof {
                    place = i as int;
                }
                rank = batch.num_instances;
                self.instances.insert(
                    material,
                    Batch {
                        data: BillboardData {
                            material: batch.material,
                            num_instances: batch.num_instances + 1,
                            instance_buffer: batch.instance_buffer,
                            instance_bind_group: batch.instance_bind_group,
                        },
                        place: i,
                    },
                );
                proof {
                    assert(old(self).order@[i as int] == material);
                    assert(has_batch(old_batches, material));
                    assert forall|j: int| 0 <= j < self.order@.len() && j != i implies (
                    #[trigger] self.order@[j]) != material by {
                        assert(old_batches[j].material != material);
                    }
                    assert(self.batches() =~= spec_count_instance(old_batches, material));
                }
            },
            None => {
                proof {
                    assert forall|j: int| 0 <= j < old_billboards.len() implies (
                    #[trigger] old_billboards[j]).material != material by {
                        assert(has_batch(old_batches, old_billboards[j].material));
                    }
                    lemma_count_material(old_billboards, material);
                }
                match fresh {
                    Some(resources) => {
                        rank = 0;
                        let next = self.order.len();
                        self.order.push(material);
                        self.instances.insert(
                            material,
                            Batch {
                                data: BillboardData {
                                    material,
                                    num_instances: 1,
                                    instance_buffer: resources.instance_buffer,
                                    instance_bind_group: resources.instance_bind_group,
                                },
                                place: next,
                            },
                        );
                        proof {
                            place = old_batches.len() as int;
                            assert forall|j: int| 0 <= j < old_batches.len() implies (
                            #[trigger] self.order@[j]) != material by {
                                assert(old(self).order@[j] == old_batches[j].material);
                                assert(old_batches[j].material != material);
                            }
                            assert(self.batches() =~= spec_insert_batches(
                                old_batches,
                                billboard,
                                fresh,
                            ));
                        }
                    },
                    None => {
                        return Err(BillboardError::MissingResources);
                    },
                }
            },
        }
        let id = self.next_id;
        self.billboards.insert(id, Placed { billboard, rank });
        self.next_id = id + 1;
        proof {
            let new_billboards = self.billboards();
            let new_batches = self.batches();
            assert(new_billboards =~= old_billboards.push(billboard));
            assert(self.ranks() =~= old_ranks.push(rank));
            assert(new_billboards.drop_last() =~= old_billboards);
            assert(new_billboards.last() == billboard);
            assert forall|j: int| 0 <= j < new_billboards.len() implies #[trigger] self.ranks()[j]
                == spec_rank(new_billboards, j) by {
                assert(new_billboards.subrange(0, j) =~= old_billboards.subrange(0, j));
                if j < old_billboards.len() {
                    assert(old_ranks[j] == spec_rank(old_billboards, j));
                } else {
                    assert(old_billboards.subrange(0, j) =~= old_billboards);
                }
            }
            assert forall|j: int| 0 <= j < new_batches.len() implies (#[trigger] new_batches[j]).num_instances
                == count_material(new_billboards, new_batches[j].material) && new_batches[j].num_instances
                <= MAX_BILLBOARDS by {
                if j < old_batches.len() {
                    assert(old_batches[j].num_instances == count_material(
                        old_billboards,
                        old_batches[j].material,
                    ));
                    assert(old_batches[j].num_instances <= MAX_BILLBOARDS);
                }
            }
            assert forall|a: int, b: int| 0 <= a < b < new_batches.len() implies (
            #[trigger] new_batches[a]).material != (#[trigger] new_batches[b]).material by {
                if b < old_batches.len() {
                    assert(old_batches[a].material != old_batches[b].material);
                } else {
                    assert(old_batches[a].material != material);
                }
            }
            assert forall|j: int| 0 <= j < new_billboards.len() implies has_batch(
                new_batches,
                (#[trigger] new_billboards[j]).material,
            ) by {
                if j < old_billboards.len() {
                    assert(new_billboards[j] == old_billboards[j]);
                    assert(has_batch(old_batches, old_billboards[j].material));
                    let k = choose|k: int|
                        0 <= k < old_batches.len() && (#[trigger] old_batches[k]).material
                            == old_billboards[j].material;
                    assert(new_batches[k].material == old_billboards[j].material);
                } else {
                    assert(new_batches[place].material == material);
                }
            }
        }
        Ok(id)
    }

    /// Moves the billboard with the given id to `position` and says whether
    /// there is one.
    pub fn set_position(&mut self, id: BillboardId, position: Vector3) -> (moved: bool)
        requires
            old(self).wf(),
        ensures
            final(self).wf(),
            final(self).plane() == old(self).plane(),
            final(self).batches() == old(self).batches(),
            moved == (id < old(self).billboards().len()),
            final(self).billboards() == (if moved {
                old(self).billboards().update(
                    id as int,
                    Billboard { position, material: old(self).billboards()[id as int].material },
                )
            } else {
                old(self).billboards()
            }),
    {
        if id < self.next_id {
            let placed = self.placed(id);
            let moved = Billboard { position, material: placed.billboard.material };
            self.billboards.insert(id, Placed { billboard: moved, rank: placed.rank });
            proof {
                assert(self.billboards() =~= old(self).billboards().update(id as int, moved));
                assert(self.ranks() =~= old(self).ranks());
                assert(self.batches() =~= old(self).batches());
                assert forall|j: int| 0 <= j < self.batches().len() implies (
                #[trigger] self.batches()[j]).num_instances == count_material(
                    self.billboards(),
                    self.batches()[j].material,
                ) by {
                    lemma_count_by_material(
                        old(self).billboards(),
                        self.billboards(),
                        self.batches()[j].material,
                    );
                }
                assert forall|j: int| 0 <= j < self.billboards().len() implies has_batch(
                    self.batches(),
                    (#[trigger] self.billboards()[j]).material,
                ) by {
                    assert(has_batch(old(self).batches(), old(self).billboards()[j].material));
                }
                assert forall|j: int| 0 <= j < self.billboards().len() implies #[trigger] self.ranks()[j]
                    == spec_rank(self.billboards(), j) by {
                    assert(old(self).ranks()[j] == spec_rank(old(self).billboards(), j));
                    lemma_count_by_material(
                        old(self).billboards().subrange(0, j),
                        self.billboards().subrange(0, j),
                        self.billboards()[j].material,
                    );
                }
            }
            true
        } else {
            false
        }
    }

    /// The writes of all instances, in the order of the billboards' ids.
    pub open spec fn spec_upload(&self, view: Matrix4) -> Seq<Command> {
        Seq::new(
            self.billboards().len(),
            |id: int| spec_instance_write(self.billboards(), self.batches(), view, id),
        )
    }

    /// Every instance that a batch draws is written, and once. For every
    /// batch and every place below its count there is one billboard of the
    /// batch's material whose instance the upload writes into that place of
    /// the batch's buffer, and there is no second billboard of that material
    /// for the place.
    pub proof fn law_every_drawn_instance_is_written_once(
        &self,
        view: Matrix4,
        batch: int,
        slot: nat,
    )
        requires
            self.wf(),
            0 <= batch < self.batches().len(),
            slot < self.batches()[batch].num_instances,
        ensures
            exists|id: int|
                #![trigger self.spec_upload(view)[id]]
                is_in_slot(self.billboards(), self.batches()[batch].material, slot, id)
                    && self.spec_upload(view)[id] == (Command::WriteBuffer {
                    buffer: self.batches()[batch].instance_buffer,
                    offset: (slot * InstanceRaw::spec_size()) as u64,
                    data: Payload::Instance(
                        InstanceRaw {
                            model: spec_billboard_transform(view, self.billboards()[id].position),
                        },
                    ),
                }),
            forall|a: int, b: int|
                is_in_slot(self.billboards(), self.batches()[batch].material, slot, a)
                    && is_in_slot(self.billboards(), self.batches()[batch].material, slot, b)
                    ==> a == b,
    {
        let material = self.batches()[batch].material;
        assert(self.batches()[batch].num_instances == count_material(self.billboards(), material));
        law_slots_of_a_material_are_filled_once(self.billboards(), material, slot);
        let id = choose|id: int| is_in_slot(self.billboards(), material, slot, id);
        let chosen = choose|c: int|
            0 <= c < self.batches().len() && (#[trigger] self.batches()[c]).material == material;
        if chosen < batch {
            assert(self.batches()[chosen].material != self.batches()[batch].material);
        } else if batch < chosen {
            assert(self.batches()[batch].material != self.batches()[chosen].material);
        }
        assert(spec_batch_of(self.batches(), material) == self.batches()[batch]);
        assert(self.spec_upload(view)[id] == spec_instance_write(
            self.billboards(),
            self.batches(),
            view,
            id,
        ));
    }

    /// Records, for every billboard, the write of its instance into the
    /// instance buffer of its material. The transform is made from the
    /// camera's view matrix and the billboard's position; the instance goes
    /// to the billboard's place among the billboards of its material, and
    /// ends within the buffer.
    pub fn upload(&self, encoder: &mut CommandEncoder, view: &Matrix4)
        requires
            self.wf(),
        ensures
            final(encoder)@ == old(encoder)@ + self.spec_upload(*view),
            forall|id: int|
                0 <= id < self.billboards().len() ==> (#[trigger] spec_rank(self.billboards(), id))
                    * InstanceRaw::spec_size() + InstanceRaw::spec_size()
                    <= spec_instance_buffer_size(),
    {
        proof {
            assert forall|id: int| 0 <= id < self.billboards().len() implies (#[trigger] spec_rank(
                self.billboards(),
                id,
            )) < MAX_BILLBOARDS by {
                self.lemma_rank_fits(id);
            }
        }
        let mut id: usize = 0;
        while id < self.next_id
            invariant
                id <= self.billboards().len(),
                self.wf(),
                encoder@ == old(encoder)@ + Seq::new(
                    id as nat,
                    |k: int| spec_instance_write(self.billboards(), self.batches(), *view, k),
                ),
            decreases self.billboards().len() - id,
        {
            let placed = self.placed(id);
            let billboard = placed.billboard;
            let instance = InstanceRaw { model: billboard_transform(view, billboard.position) };
            proof {
                assert(has_batch(self.batches(), self.billboards()[id as int].material));
                self.lemma_rank_fits(id as int);
                assert(self.ranks()[id as int] == spec_rank(self.billboards(), id as int));
            }
            match self.lookup(billboard.material) {
                Some(i) => {
                    proof {
                        let c = choose|c: int|
                            0 <= c < self.batches().len() && (#[trigger] self.batches()[c]).material
                                == billboard.material;
                        assert(c == i);
                    }
                    let offset = (placed.rank as u64) * InstanceRaw::size();
                    encoder.write_buffer(
                        self.batch(i).instance_buffer,
                        offset,
                        Payload::Instance(instance),
                    );
                },
                None => {
                    proof {
                        assert(false);
                    }
                },
            }
            id += 1;
        }
    }

    /// The place of every billboard lies within the instance buffer of its
    /// material.
    proof fn lemma_rank_fits(&self, id: int)
        requires
            self.wf(),
            0 <= id < self.billboards().len(),
        ensures
            spec_rank(self.billboards(), id) < MAX_BILLBOARDS,
    {
        lemma_rank_below_count(self.billboards(), id);
        let material = self.billboards()[id].material;
        assert(has_batch(self.batches(), material));
        let c = choose|c: int|
            0 <= c < self.batches().len() && (#[trigger] self.batches()[c]).material == material;
        assert(self.batches()[c].num_instances == count_material(self.billboards(), material));
    }

    /// The commands that draw the billboards: the quad's buffers and the
    /// camera uniforms at 1, then the batches in their order.
    pub open spec fn spec_render(
        &self,
        materials: Materials,
        uniforms_bind_group: BindGroupId,
    ) -> Seq<Command> {
        seq![
            Command::SetVertexBuffer { slot: 0, buffer: self.plane().vertex_buffer },
            Command::SetIndexBuffer { buffer: self.plane().index_buffer },
            Command::SetBindGroup { index: 1, group: uniforms_bind_group, offset: None },
        ] + spec_render_batches(self.batches(), materials, self.batches().len())
    }

    /// Every batch is of a material that `materials` holds.
    pub open spec fn materials_known(&self, materials: Materials) -> bool {
        forall|i: int|
            0 <= i < self.batches().len() ==> materials@.contains_key(
                (#[trigger] self.batches()[i]).material,
            )
    }

    /// Whether every batch is of a material that `materials` holds.
    pub fn knows_materials(&self, materials: &Materials) -> (known: bool)
        requires
            self.wf(),
        ensures
            known == self.materials_known(*materials),
    {
        let mut i: usize = 0;
        while i < self.order.len()
            invariant
                i <= self.batches().len(),
                self.wf(),
                forall|j: int|
                    0 <= j < i ==> materials@.contains_key((#[trigger] self.batches()[j]).material),
            decreases self.batches().len() - i,
        {
            if !materials.contains(self.batch(i).material) {
                return false;
            }
            i += 1;
        }
        true
    }

    /// Records the drawing of all billboards into the pass that is under
    /// way: one instanced draw of the quad for each material.
    pub fn render(
        &self,
        encoder: &mut CommandEncoder,
        materials: &Materials,
        uniforms_bind_group: BindGroupId,
    )
        requires
            self.wf(),
            self.materials_known(*materials),
        ensures
            final(encoder)@ == old(encoder)@ + self.spec_render(*materials, uniforms_bind_group),
    {
        encoder.set_vertex_buffer(0, self.plane.vertex_buffer);
        encoder.set_index_buffer(self.plane.index_buffer);
        encoder.set_bind_group(1, uniforms_bind_group, None);
        let ghost head = seq![
            Command::SetVertexBuffer { slot: 0, buffer: self.plane().vertex_buffer },
            Command::SetIndexBuffer { buffer: self.plane().index_buffer },
            Command::SetBindGroup { index: 1, group: uniforms_bind_group, offset: None },
        ];
        assert(encoder@ =~= old(encoder)@ + head);
        let mut i: usize = 0;
        while i < self.order.len()
            invariant
                i <= self.batches().len(),
                self.wf(),
                self.materials_known(*materials),
                encoder@ == old(encoder)@ + head + spec_render_batches(
                    self.batches(),
                    *materials,
                    i as nat,
                ),
            decreases self.batches().len() - i,
        {
            let data = self.batch(i);
            let material = materials.get(data.material);
            encoder.set_bind_group(0, material.bind_group, None);
            encoder.set_bind_group(2, data.instance_bind_group, None);
            encoder.draw_indexed(
                Span { start: 0, end: PLANE_INDEX_COUNT },
                0,
                Span { start: 0, end: data.num_instances },
            );
            assert(encoder@ =~= old(encoder)@ + head + spec_render_batches(
                self.batches(),
                *materials,
                (i + 1) as nat,
            ));
            i += 1;
        }
        assert(encoder@ =~= old(encoder)@ + (head + spec_render_batches(
            self.batches(),
            *materials,
            self.batches().len(),
        )));
    }
}

} // verus!
