//! The shadow accumulator for directional lights.

use vstd::prelude::*;

use crate::effect::{Base as EffectBase, BufferInfo, InputInfo};
use crate::gapi::Engine;
use crate::image::Format;
use crate::node;
use crate::pipeline;
use crate::pipeline::PipelineType;

verus! {

/// Builds the directional shadow accumulator template: it consumes
/// position, normal and the shadow-map array and accumulates shadow
/// strengths into its output. The uniform carries the cascade matrices,
/// direction and strength, laid out by the owning model layer.
#[verifier::rlimit(30)]
pub fn new(eng: &mut Engine, pipmgr: &mut pipeline::Manager, width: usize, height: usize, uniform: Vec<u8>) -> (r: EffectBase)
    requires
        old(pipmgr).wf(),
        old(eng).wf(),
        old(eng).spec_next_handle() + 0x400000000 <= u64::MAX,
    ensures
        r.wf(),
        final(pipmgr).wf(),
        final(pipmgr).spec_config() == old(pipmgr).spec_config(),
        r.base.spec_node_id() == node::SHADOW_ACCUMULATOR_DIRECTIONAL_NODE,
        r.base.spec_name() == "shadow-accumulator-directional"@,
        r.base.spec_input_ids() =~= seq![node::POSITION_LINK, node::NORMAL_LINK, node::SHADOW_MAP_0_LINK, node::SHADOW_MAP_1_LINK, node::SHADOW_MAP_2_LINK, node::SHADOW_MAP_3_LINK, node::SHADOW_MAP_4_LINK, node::SHADOW_MAP_5_LINK],
        r.base.spec_input_names() =~= seq!["position"@, "normal"@, "shadow-map-0"@, "shadow-map-1"@, "shadow-map-2"@, "shadow-map-3"@, "shadow-map-4"@, "shadow-map-5"@],
        r.base.spec_output_ids() =~= seq![node::SINGLE_OUTPUT_LINK],
        r.base.spec_output_names() =~= seq!["single-output"@],
        forall|i: int|
            0 <= i < r.base.spec_providers().len() ==> r.base.spec_providers()[i] is None,
        r.shared_data.textures@.len() == 1,
        r.shared_data.pipeline.decided_for(PipelineType::ShadowAccumulatorDirectional, old(pipmgr).spec_config()),
        r.render_data.fresh_shape(
            old(eng).spec_frames_data().len() as int,
            1,
            uniform@,
            8,
        ),
        r.render_data.in_range(
            old(eng).spec_next_handle() as int,
            final(eng).spec_next_handle() as int,
        ),
        Engine::static_state_eq(*old(eng), *final(eng)),
        final(eng).spec_current_frame() == old(eng).spec_current_frame(),
        final(eng).spec_actions() == old(eng).spec_actions(),
        old(eng).spec_next_handle() < final(eng).spec_next_handle(),
        final(eng).spec_next_handle() <= old(eng).spec_next_handle() + 0x400000000,
{
    let mut buffer_infos: Vec<BufferInfo> = Vec::new();
    buffer_infos.push(
        BufferInfo {
            width,
            height,
            format: Format::FlagBits8,
            id: node::SINGLE_OUTPUT_LINK,
            name: "single-output".to_owned(),
        },
    );
    let mut input_infos: Vec<InputInfo> = Vec::new();
    input_infos.push(InputInfo { id: node::POSITION_LINK, name: "position".to_owned() });
    input_infos.push(InputInfo { id: node::NORMAL_LINK, name: "normal".to_owned() });
    input_infos.push(InputInfo { id: node::SHADOW_MAP_0_LINK, name: "shadow-map-0".to_owned() });
    input_infos.push(InputInfo { id: node::SHADOW_MAP_1_LINK, name: "shadow-map-1".to_owned() });
    input_infos.push(InputInfo { id: node::SHADOW_MAP_2_LINK, name: "shadow-map-2".to_owned() });
    input_infos.push(InputInfo { id: node::SHADOW_MAP_3_LINK, name: "shadow-map-3".to_owned() });
    input_infos.push(InputInfo { id: node::SHADOW_MAP_4_LINK, name: "shadow-map-4".to_owned() });
    input_infos.push(InputInfo { id: node::SHADOW_MAP_5_LINK, name: "shadow-map-5".to_owned() });
    let worker_slots: usize = 1;
    proof {
        reveal_strlit("position");
        reveal_strlit("normal");
        reveal_strlit("shadow-map-0");
        reveal_strlit("shadow-map-1");
        reveal_strlit("shadow-map-2");
        reveal_strlit("shadow-map-3");
        reveal_strlit("shadow-map-4");
        reveal_strlit("shadow-map-5");
        reveal_strlit("single-output");
        assert("position"@.len() == 8);
        assert("normal"@.len() == 6);
        assert("shadow-map-0"@.len() == 12);
        assert("shadow-map-0"@[11] == '0');
        assert("shadow-map-1"@[11] == '1');
        assert("shadow-map-2"@[11] == '2');
        assert("shadow-map-3"@[11] == '3');
        assert("shadow-map-4"@[11] == '4');
        assert("shadow-map-5"@[11] == '5');
        assert(buffer_infos@.map_values(|bf: BufferInfo| bf.id) =~= seq![
            node::SINGLE_OUTPUT_LINK,
        ]);
        assert(buffer_infos@.map_values(|bf: BufferInfo| bf.name@) =~= seq!["single-output"@]);
        assert(input_infos@.map_values(|inf: InputInfo| inf.id) =~= seq![node::POSITION_LINK, node::NORMAL_LINK, node::SHADOW_MAP_0_LINK, node::SHADOW_MAP_1_LINK, node::SHADOW_MAP_2_LINK, node::SHADOW_MAP_3_LINK, node::SHADOW_MAP_4_LINK, node::SHADOW_MAP_5_LINK]);
        assert(input_infos@.map_values(|inf: InputInfo| inf.name@) =~= seq!["position"@, "normal"@, "shadow-map-0"@, "shadow-map-1"@, "shadow-map-2"@, "shadow-map-3"@, "shadow-map-4"@, "shadow-map-5"@]);
    }
    EffectBase::new_with_worker_slots(
        eng,
        pipmgr,
        &buffer_infos,
        uniform,
        PipelineType::ShadowAccumulatorDirectional,
        node::SHADOW_ACCUMULATOR_DIRECTIONAL_NODE,
        "shadow-accumulator-directional".to_owned(),
        &input_infos,
        worker_slots,
    )
}

} // verus!
