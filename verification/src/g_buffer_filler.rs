//! The g-buffer filler: the pass that produces the position, normal,
//! albedo and depth images every deferred pass reads.

use vstd::prelude::*;

use crate::effect::{Base as EffectBase, BufferInfo, InputInfo};
use crate::gapi::Engine;
use crate::image::Format;
use crate::node;
use crate::pipeline;
use crate::pipeline::PipelineType;

verus! {

/// Builds the g-buffer filler template: no inputs; position, normal,
/// albedo and depth outputs, each an attachment sized by the backend to
/// the render surface; scene recording runs in parallel, one secondary
/// buffer per worker.
pub fn new(eng: &mut Engine, pipmgr: &mut pipeline::Manager) -> (r: EffectBase)
    requires
        old(pipmgr).wf(),
        old(eng).wf(),
        old(eng).spec_next_handle() + 0x400000000 <= u64::MAX,
    ensures
        r.wf(),
        final(pipmgr).wf(),
        final(pipmgr).spec_config() == old(pipmgr).spec_config(),
        r.base.spec_node_id() == node::G_BUFFER_FILLER_NODE,
        r.base.spec_name() == "g-buffer-filler"@,
        r.base.spec_input_ids() =~= Seq::<u64>::empty(),
        r.base.spec_output_ids() =~= seq![
            node::POSITION_LINK,
            node::NORMAL_LINK,
            node::ALBEDO_LINK,
            node::DEPTH_LINK,
        ],
        r.base.spec_output_names() =~= seq!["position"@, "normal"@, "albedo"@, "depth"@],
        forall|i: int|
            0 <= i < r.base.spec_providers().len() ==> r.base.spec_providers()[i] is None,
        r.shared_data.textures@.len() == 4,
        r.shared_data.pipeline.decided_for(PipelineType::GBufferFiller, old(pipmgr).spec_config()),
        r.render_data.fresh_shape(
            old(eng).spec_frames_data().len() as int,
            old(eng).spec_kernels_data().len() as int,
            Seq::<u8>::empty(),
            0,
        ),
        r.render_data.in_range(
            old(eng).spec_next_handle() as int,
            final(eng).spec_next_handle() as int,
        ),
        Engine::static_state_eq(*old(eng), *final(eng)),
        final(eng).spec_current_frame() == old(eng).spec_current_frame(),
        final(eng).spec_actions() == old(eng).spec_actions(),
        old(eng).spec_next_handle() < final(eng).spec_next_handle(),
        final(eng).spec_next_handle() <= old(eng).spec_next_handle() + 0x400000000,
{
    let mut buffer_infos: Vec<BufferInfo> = Vec::new();
    buffer_infos.push(
        BufferInfo {
            width: 0,
            height: 0,
            format: Format::RgbaFloat,
            id: node::POSITION_LINK,
            name: "position".to_owned(),
        },
    );
    buffer_infos.push(
        BufferInfo {
            width: 0,
            height: 0,
            format: Format::RgbaFloat,
            id: node::NORMAL_LINK,
            name: "normal".to_owned(),
        },
    );
    buffer_infos.push(
        BufferInfo {
            width: 0,
            height: 0,
            format: Format::RgbaFloat,
            id: node::ALBEDO_LINK,
            name: "albedo".to_owned(),
        },
    );
    buffer_infos.push(
        BufferInfo {
            width: 0,
            height: 0,
            format: Format::DepthFloat,
            id: node::DEPTH_LINK,
            name: "depth".to_owned(),
        },
    );
    let input_infos: Vec<InputInfo> = Vec::new();
    let worker_slots = eng.get_kernels_count();
    proof {
        reveal_strlit("position");
        reveal_strlit("normal");
        reveal_strlit("albedo");
        reveal_strlit("depth");
        assert("position"@.len() == 8);
        assert("normal"@.len() == 6);
        assert("albedo"@.len() == 6);
        assert("depth"@.len() == 5);
        assert("normal"@[0] == 'n');
        assert("albedo"@[0] == 'a');
        assert(buffer_infos@.map_values(|bf: BufferInfo| bf.id) =~= seq![
            node::POSITION_LINK,
            node::NORMAL_LINK,
            node::ALBEDO_LINK,
            node::DEPTH_LINK,
        ]);
        assert(buffer_infos@.map_values(|bf: BufferInfo| bf.name@) =~= seq![
            "position"@,
            "normal"@,
            "albedo"@,
            "depth"@,
        ]);
        assert(input_infos@.map_values(|inf: InputInfo| inf.id) =~= Seq::<u64>::empty());
        assert(input_infos@.map_values(|inf: InputInfo| inf.name@) =~= Seq::<Seq<char>>::empty());
    }
    EffectBase::new_with_worker_slots(
        eng,
        pipmgr,
        &buffer_infos,
        Vec::new(),
        PipelineType::GBufferFiller,
        node::G_BUFFER_FILLER_NODE,
        "g-buffer-filler".to_owned(),
        &input_infos,
        worker_slots,
    )
}

} // verus!
