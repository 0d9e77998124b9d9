//! The shadow-mapping depth pass of one light frustum.

use vstd::prelude::*;

use crate::effect::{Base as EffectBase, BufferInfo, InputInfo};
use crate::gapi::Engine;
use crate::image::Format;
use crate::node;
use crate::pipeline;
use crate::pipeline::PipelineType;

verus! {

/// Builds the shadow mapper template: no inputs; one depth output holding
/// the light's shadow map. The uniform carries the light's
/// model-view-projection matrix, laid out by the owning model layer.
/// Scene recording runs in parallel, one secondary buffer per worker.
pub fn new(eng: &mut Engine, pipmgr: &mut pipeline::Manager, width: usize, height: usize, uniform: Vec<u8>) -> (r: EffectBase)
    requires
        old(pipmgr).wf(),
        old(eng).wf(),
        old(eng).spec_next_handle() + 0x400000000 <= u64::MAX,
    ensures
        r.wf(),
        final(pipmgr).wf(),
        final(pipmgr).spec_config() == old(pipmgr).spec_config(),
        r.base.spec_node_id() == node::SHADOW_MAPPER_NODE,
        r.base.spec_name() == "shadow-mapper"@,
        r.base.spec_input_ids() =~= Seq::<u64>::empty(),
        
        r.base.spec_output_ids() =~= seq![node::SINGLE_OUTPUT_LINK],
        r.base.spec_output_names() =~= seq!["single-output"@],
        forall|i: int|
            0 <= i < r.base.spec_providers().len() ==> r.base.spec_providers()[i] is None,
        r.shared_data.textures@.len() == 1,
        r.shared_data.pipeline.decided_for(PipelineType::ShadowMapper, old(pipmgr).spec_config()),
        r.render_data.fresh_shape(
            old(eng).spec_frames_data().len() as int,
            old(eng).spec_kernels_data().len() as int,
            uniform@,
            0,
        ),
        r.render_data.in_range(
            old(eng).spec_next_handle() as int,
            final(eng).spec_next_handle() as int,
        ),
        Engine::static_state_eq(*old(eng), *final(eng)),
        final(eng).spec_current_frame() == old(eng).spec_current_frame(),
        final(eng).spec_actions() == old(eng).spec_actions(),
        old(eng).spec_next_handle() < final(eng).spec_next_handle(),
        final(eng).spec_next_handle() <= old(eng).spec_next_handle() + 0x400000000,
{
    let mut buffer_infos: Vec<BufferInfo> = Vec::new();
    buffer_infos.push(
        BufferInfo {
            width,
            height,
            format: Format::DepthFloat,
            id: node::SINGLE_OUTPUT_LINK,
            name: "single-output".to_owned(),
        },
    );
    let mut input_infos: Vec<InputInfo> = Vec::new();

    let worker_slots = eng.get_kernels_count();
    proof {
        reveal_strlit("single-output");
        assert(buffer_infos@.map_values(|bf: BufferInfo| bf.id) =~= seq![
            node::SINGLE_OUTPUT_LINK,
        ]);
        assert(buffer_infos@.map_values(|bf: BufferInfo| bf.name@) =~= seq!["single-output"@]);
        assert(input_infos@.map_values(|inf: InputInfo| inf.id) =~= Seq::<u64>::empty());
        assert(input_infos@.map_values(|inf: InputInfo| inf.name@) =~= Seq::<Seq<char>>::empty());
    }
    EffectBase::new_with_worker_slots(
        eng,
        pipmgr,
        &buffer_infos,
        uniform,
        PipelineType::ShadowMapper,
        node::SHADOW_MAPPER_NODE,
        "shadow-mapper".to_owned(),
        &input_infos,
        worker_slots,
    )
}

} // verus!
