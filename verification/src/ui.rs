//! The debug overlay: a switch for the shadows, and the shadow maps drawn
//! small for inspection.

use vstd::prelude::*;
use crate::command::{Command, CommandEncoder};
use crate::debug::DebugPass;
use crate::light::MAX_LIGHTS;
use crate::resource::{BindGroupId, TextureViewId};
use crate::shadow::CUBE_FACES;

verus! {

/// The state of the debug overlay.
#[derive(Clone, Debug, PartialEq, Eq)]
pub struct DebugUi {
    pub is_visible: bool,
    /// What the overlay's shadow switch says.
    pub shadows_enabled: bool,
    /// For each face of each light's shadow map, the overlay's picture of it.
    pub shadow_map_views: Vec<TextureViewId>,
    /// For each face of each light's shadow map, the bind group through which
    /// the debug pass reads it.
    pub shadow_bind_groups: Vec<BindGroupId>,
}

/// The commands that draw the first `count` shadow maps into their pictures.
pub open spec fn spec_render_shadow_maps(
    debug_pass: DebugPass,
    views: Seq<TextureViewId>,
    bind_groups: Seq<BindGroupId>,
    count: nat,
) -> Seq<Command>
    decreases count,
{
    if count == 0 {
        Seq::empty()
    } else {
        spec_render_shadow_maps(debug_pass, views, bind_groups, (count - 1) as nat)
            + debug_pass.spec_render(views[count - 1], bind_groups[count - 1])
    }
}

/// Drawing shadow maps into their pictures writes no shadow map: no pass has
/// a depth target and nothing is copied.
pub proof fn lemma_render_shadow_maps_overlay(
    debug_pass: DebugPass,
    views: Seq<TextureViewId>,
    bind_groups: Seq<BindGroupId>,
    count: nat,
)
    ensures
        forall|k: int|
            0 <= k < spec_render_shadow_maps(debug_pass, views, bind_groups, count).len() ==> (
            #[trigger] spec_render_shadow_maps(
                debug_pass,
                views,
                bind_groups,
                count,
            )[k]).is_overlay_work(),
    decreases count,
{
    if count > 0 {
        lemma_render_shadow_maps_overlay(debug_pass, views, bind_groups, (count - 1) as nat);
        let before = spec_render_shadow_maps(debug_pass, views, bind_groups, (count - 1) as nat);
        let one = debug_pass.spec_render(views[count - 1], bind_groups[count - 1]);
        assert forall|k: int| 0 <= k < (before + one).len() implies (#[trigger] (before
            + one)[k]).is_overlay_work() by {
            if k < before.len() {
                assert((before + one)[k] == before[k]);
            } else {
                assert((before + one)[k] == one[k - before.len()]);
            }
        }
    }
}

impl DebugUi {
    /// There is a bind group for every picture.
    pub open spec fn wf(&self) -> bool {
        self.shadow_map_views@.len() == self.shadow_bind_groups@.len()
    }

    /// The number of shadow maps that the overlay shows: six for each light.
    pub fn shadow_map_count() -> (n: usize)
        ensures
            n == CUBE_FACES * MAX_LIGHTS,
    {
        6 * MAX_LIGHTS
    }

    /// An overlay that is hidden, with the shadow switch on.
    pub fn new(shadow_map_views: Vec<TextureViewId>, shadow_bind_groups: Vec<BindGroupId>) -> (ui:
        Self)
        ensures
            !ui.is_visible,
            ui.shadows_enabled,
            ui.shadow_map_views == shadow_map_views,
            ui.shadow_bind_groups == shadow_bind_groups,
    {
        DebugUi { is_visible: false, shadows_enabled: true, shadow_map_views, shadow_bind_groups }
    }

    /// The commands that draw the overlay onto `output`: every shadow map is
    /// drawn into its picture, and then the overlay itself is drawn.
    pub open spec fn spec_render(&self, output: TextureViewId, debug_pass: DebugPass) -> Seq<
        Command,
    > {
        spec_render_shadow_maps(
            debug_pass,
            self.shadow_map_views@,
            self.shadow_bind_groups@,
            self.shadow_map_views@.len(),
        ) + seq![Command::RenderUi { target: output }]
    }

    /// Records the drawing of the overlay onto `output`.
    pub fn render(&self, encoder: &mut CommandEncoder, output: TextureViewId, debug_pass: &DebugPass)
        requires
            self.wf(),
        ensures
            final(encoder)@ == old(encoder)@ + self.spec_render(output, *debug_pass),
    {
        let mut i: usize = 0;
        while i < self.shadow_map_views.len()
            invariant
                i <= self.shadow_map_views@.len(),
                self.wf(),
                encoder@ == old(encoder)@ + spec_render_shadow_maps(
                    *debug_pass,
                    self.shadow_map_views@,
                    self.shadow_bind_groups@,
                    i as nat,
                ),
            decreases self.shadow_map_views@.len() - i,
        {
            debug_pass.render(encoder, self.shadow_map_views[i], self.shadow_bind_groups[i]);
            i += 1;
        }
        encoder.render_ui(output);
    }
}

} // verus!
