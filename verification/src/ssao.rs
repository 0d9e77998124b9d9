//! The screen-space ambient-occlusion pass.

use vstd::prelude::*;

use crate::effect::{Base as EffectBase, BufferInfo, InputInfo};
use crate::gapi::Engine;
use crate::image::Format;
use crate::node;
use crate::pipeline;
use crate::pipeline::PipelineType;

verus! {

/// Builds the screen-space ambient-occlusion template: it consumes
/// position, normal and depth and produces the occlusion image. The
/// uniform carries the sample kernel, drawn by the owning model layer.
pub fn new(eng: &mut Engine, pipmgr: &mut pipeline::Manager, width: usize, height: usize, uniform: Vec<u8>) -> (r: EffectBase)
    requires
        old(pipmgr).wf(),
        old(eng).wf(),
        old(eng).spec_next_handle() + 0x400000000 <= u64::MAX,
    ensures
        r.wf(),
        final(pipmgr).wf(),
        final(pipmgr).spec_config() == old(pipmgr).spec_config(),
        r.base.spec_node_id() == node::SSAO_NODE,
        r.base.spec_name() == "ssao"@,
        r.base.spec_input_ids() =~= seq![node::POSITION_LINK, node::NORMAL_LINK, node::DEPTH_LINK],
        r.base.spec_input_names() =~= seq!["position"@, "normal"@, "depth"@],
        r.base.spec_output_ids() =~= seq![node::SINGLE_OUTPUT_LINK],
        r.base.spec_output_names() =~= seq!["single-output"@],
        forall|i: int|
            0 <= i < r.base.spec_providers().len() ==> r.base.spec_providers()[i] is None,
        r.shared_data.textures@.len() == 1,
        r.shared_data.pipeline.decided_for(PipelineType::Ssao, old(pipmgr).spec_config()),
        r.render_data.fresh_shape(
            old(eng).spec_frames_data().len() as int,
            1,
            uniform@,
            3,
        ),
        r.render_data.in_range(
            old(eng).spec_next_handle() as int,
            final(eng).spec_next_handle() as int,
        ),
        Engine::static_state_eq(*old(eng), *final(eng)),
        final(eng).spec_current_frame() == old(eng).spec_current_frame(),
        final(eng).spec_actions() == old(eng).spec_actions(),
        old(eng).spec_next_handle() < final(eng).spec_next_handle(),
        final(eng).spec_next_handle() <= old(eng).spec_next_handle() + 0x400000000,
{
    let mut buffer_infos: Vec<BufferInfo> = Vec::new();
    buffer_infos.push(
        BufferInfo {
            width,
            height,
            format: Format::FloatUniform8,
            id: node::SINGLE_OUTPUT_LINK,
            name: "single-output".to_owned(),
        },
    );
    let mut input_infos: Vec<InputInfo> = Vec::new();
    input_infos.push(InputInfo { id: node::POSITION_LINK, name: "position".to_owned() });
    input_infos.push(InputInfo { id: node::NORMAL_LINK, name: "normal".to_owned() });
    input_infos.push(InputInfo { id: node::DEPTH_LINK, name: "depth".to_owned() });
    let worker_slots: usize = 1;
    proof {
        reveal_strlit("position");
        reveal_strlit("normal");
        reveal_strlit("depth");
        reveal_strlit("single-output");
        assert("position"@.len() == 8);
        assert("normal"@.len() == 6);
        assert("depth"@.len() == 5);
        assert(buffer_infos@.map_values(|bf: BufferInfo| bf.id) =~= seq![
            node::SINGLE_OUTPUT_LINK,
        ]);
        assert(buffer_infos@.map_values(|bf: BufferInfo| bf.name@) =~= seq!["single-output"@]);
        assert(input_infos@.map_values(|inf: InputInfo| inf.id) =~= seq![node::POSITION_LINK, node::NORMAL_LINK, node::DEPTH_LINK]);
        assert(input_infos@.map_values(|inf: InputInfo| inf.name@) =~= seq!["position"@, "normal"@, "depth"@]);
    }
    EffectBase::new_with_worker_slots(
        eng,
        pipmgr,
        &buffer_infos,
        uniform,
        PipelineType::Ssao,
        node::SSAO_NODE,
        "ssao".to_owned(),
        &input_infos,
        worker_slots,
    )
}

} // verus!
