//! The deferred physically-based composition pass.

use vstd::prelude::*;

use crate::effect::{Base as EffectBase, BufferInfo, InputInfo};
use crate::gapi::Engine;
use crate::image::Format;
use crate::node;
use crate::pipeline;
use crate::pipeline::PipelineType;

verus! {

/// Builds the deferred physically-based composition template: it consumes
/// the whole g-buffer plus ambient occlusion and accumulated shadows, and
/// produces the composed color image. The uniform carries the pixel step
/// of the target, laid out by the owning model layer.
#[verifier::rlimit(30)]
pub fn new(eng: &mut Engine, pipmgr: &mut pipeline::Manager, width: usize, height: usize, uniform: Vec<u8>) -> (r: EffectBase)
    requires
        old(pipmgr).wf(),
        old(eng).wf(),
        old(eng).spec_next_handle() + 0x400000000 <= u64::MAX,
    ensures
        r.wf(),
        final(pipmgr).wf(),
        final(pipmgr).spec_config() == old(pipmgr).spec_config(),
        r.base.spec_node_id() == node::DEFERRED_PBR_NODE,
        r.base.spec_name() == "deferred-pbr"@,
        r.base.spec_input_ids() =~= seq![node::POSITION_LINK, node::NORMAL_LINK, node::ALBEDO_LINK, node::DEPTH_LINK, node::OCCLUSION_LINK, node::ACCUMULATED_SHADOWS_LINK],
        r.base.spec_input_names() =~= seq!["position"@, "normal"@, "albedo"@, "depth"@, "occlusion"@, "accumulated-shadows"@],
        r.base.spec_output_ids() =~= seq![node::SINGLE_OUTPUT_LINK],
        r.base.spec_output_names() =~= seq!["single-output"@],
        forall|i: int|
            0 <= i < r.base.spec_providers().len() ==> r.base.spec_providers()[i] is None,
        r.shared_data.textures@.len() == 1,
        r.shared_data.pipeline.decided_for(PipelineType::DeferredPbr, old(pipmgr).spec_config()),
        r.render_data.fresh_shape(
            old(eng).spec_frames_data().len() as int,
            1,
            uniform@,
            6,
        ),
        r.render_data.in_range(
            old(eng).spec_next_handle() as int,
            final(eng).spec_next_handle() as int,
        ),
        Engine::static_state_eq(*old(eng), *final(eng)),
        final(eng).spec_current_frame() == old(eng).spec_current_frame(),
        final(eng).spec_actions() == old(eng).spec_actions(),
        old(eng).spec_next_handle() < final(eng).spec_next_handle(),
        final(eng).spec_next_handle() <= old(eng).spec_next_handle() + 0x400000000,
{
    let mut buffer_infos: Vec<BufferInfo> = Vec::new();
    buffer_infos.push(
        BufferInfo {
            width,
            height,
            format: Format::RgbaFloat,
            id: node::SINGLE_OUTPUT_LINK,
            name: "single-output".to_owned(),
        },
    );
    let mut input_infos: Vec<InputInfo> = Vec::new();
    input_infos.push(InputInfo { id: node::POSITION_LINK, name: "position".to_owned() });
    input_infos.push(InputInfo { id: node::NORMAL_LINK, name: "normal".to_owned() });
    input_infos.push(InputInfo { id: node::ALBEDO_LINK, name: "albedo".to_owned() });
    input_infos.push(InputInfo { id: node::DEPTH_LINK, name: "depth".to_owned() });
    input_infos.push(InputInfo { id: node::OCCLUSION_LINK, name: "occlusion".to_owned() });
    input_infos.push(InputInfo { id: node::ACCUMULATED_SHADOWS_LINK, name: "accumulated-shadows".to_owned() });
    let worker_slots: usize = 1;
    proof {
        reveal_strlit("position");
        reveal_strlit("normal");
        reveal_strlit("albedo");
        reveal_strlit("depth");
        reveal_strlit("occlusion");
        reveal_strlit("accumulated-shadows");
        reveal_strlit("single-output");
        assert("position"@.len() == 8);
        assert("normal"@.len() == 6);
        assert("albedo"@.len() == 6);
        assert("depth"@.len() == 5);
        assert("occlusion"@.len() == 9);
        assert("accumulated-shadows"@.len() == 19);
        assert("normal"@[0] == 'n');
        assert("albedo"@[0] == 'a');
        assert(buffer_infos@.map_values(|bf: BufferInfo| bf.id) =~= seq![
            node::SINGLE_OUTPUT_LINK,
        ]);
        assert(buffer_infos@.map_values(|bf: BufferInfo| bf.name@) =~= seq!["single-output"@]);
        assert(input_infos@.map_values(|inf: InputInfo| inf.id) =~= seq![node::POSITION_LINK, node::NORMAL_LINK, node::ALBEDO_LINK, node::DEPTH_LINK, node::OCCLUSION_LINK, node::ACCUMULATED_SHADOWS_LINK]);
        assert(input_infos@.map_values(|inf: InputInfo| inf.name@) =~= seq!["position"@, "normal"@, "albedo"@, "depth"@, "occlusion"@, "accumulated-shadows"@]);
    }
    EffectBase::new_with_worker_slots(
        eng,
        pipmgr,
        &buffer_infos,
        uniform,
        PipelineType::DeferredPbr,
        node::DEFERRED_PBR_NODE,
        "deferred-pbr".to_owned(),
        &input_infos,
        worker_slots,
    )
}

} // verus!
