//! The framework's guarantees, stated and proved as laws over the
//! contracts of the graph and the scheduler.

use vstd::prelude::*;

use crate::effect;
use crate::gapi::{Action, FrameData};
use crate::node;
use crate::node::Provider;
use crate::tree::{tick_shape, Tree};

verus! {

/// Binding invariant: when an input link of a live instance is bound, it
/// is bound to exactly one provider, a live instance with a declared
/// output link at the bound index, and what the node reads on that input
/// - the texture its `record` consumes - is exactly that provider's
/// produced resource.
pub proof fn lemma_binding_invariant(t: Tree, n: int, i: int)
    requires
        t.wf(),
        0 <= n < t.spec_nodes().len(),
        0 <= i < t.spec_nodes()[n].base.spec_providers().len(),
        t.spec_nodes()[n].base.spec_providers()[i] is Some,
    ensures
        ({
            let p = t.spec_nodes()[n].base.spec_providers()[i]->Some_0;
            &&& p.node < t.spec_nodes().len()
            &&& p.node != n
            &&& p.output_index < t.spec_nodes()[p.node as int].base.spec_outputs_count()
            &&& t.spec_nodes()[n].render_data.input_textures@[i] == Some(
                t.spec_nodes()[p.node as int].shared_data.textures@[p.output_index as int],
            )
        }),
{
    assert(t.node_wf(n));
}

/// Template/instance independence: two instances cloned from one template
/// carry the identical shared data - the same pipeline, render pass,
/// framebuffer and produced images - while their render data (command
/// buffers, semaphores, uniform storage) name no GPU object in common.
///
/// `create_new` supplies the premises: each instance's render data lies in
/// the handle window open during its own creation, and the windows of two
/// creations are disjoint.
pub proof fn lemma_template_instance_independence(
    t: effect::Base,
    i1: effect::Base,
    i2: effect::Base,
    lo1: int,
    hi1: int,
    hi2: int,
)
    requires
        effect::shared_eq(i1.shared_data, t.shared_data),
        effect::shared_eq(i2.shared_data, t.shared_data),
        i1.render_data.in_range(lo1, hi1),
        i2.render_data.in_range(hi1, hi2),
    ensures
        effect::shared_eq(i1.shared_data, i2.shared_data),
        forall|h: u64|
            i1.render_data.contains_handle(h) ==> !i2.render_data.contains_handle(h),
{
}

/// Frame-slot non-overlap: between two ticks assigned the same swapchain
/// slot, the earlier tick's last submission carries the slot's fence, and
/// the later tick waits on that fence before any of its own submissions.
/// The backend performs the log in order, and a fence wait returns only
/// once the device has signaled the fenced submission; so no command
/// buffer of the slot is re-recorded or re-submitted while the earlier
/// tick's work is still executing.
pub proof fn lemma_frame_slot_non_overlap(
    log: Seq<Action>,
    s1: int,
    l1: int,
    s2: int,
    l2: int,
    fd: FrameData,
    image_index: usize,
)
    requires
        tick_shape(log, s1, l1, fd, image_index),
        tick_shape(log, s2, l2, fd, image_index),
        s1 + l1 <= s2,
    ensures
        log[s2] == Action::WaitFence(fd.wait_fence),
        log[s1 + l1 - 2] matches Action::Submit(s) && s.fence == Some(fd.wait_fence),
        s1 + l1 - 2 < s2,
        forall|j: int|
            s2 + 2 <= j < s2 + l2 - 1 ==> ((#[trigger] log[j]) matches Action::Submit(s) && s1 + l1
                - 2 < s2 < j),
{
}

/// Ordering: when node `b` consumes node `a`'s output (through input link
/// `i`), then in every recorded frame the semaphore `a`'s submission
/// signals stands in `b`'s submission's wait list - the provider's GPU
/// work is ordered before the consumer's.
pub proof fn lemma_submission_ordering(
    t: Tree,
    b: int,
    i: int,
    frame: int,
    stage_b: u64,
    sub_a: Action,
    sub_b: Action,
)
    requires
        t.wf(),
        0 <= b < t.spec_nodes().len(),
        0 <= i < t.spec_nodes()[b].base.spec_providers().len(),
        t.spec_nodes()[b].base.spec_providers()[i] is Some,
        0 <= frame < t.spec_frames_count(),
        t.node_submission(
            t.spec_nodes()[b].base.spec_providers()[i]->Some_0.node as int,
            frame,
            stage_b,
            sub_a,
        ),
        t.node_submission(b, frame, stage_b, sub_b),
    ensures
        ({
            let sa = sub_a->Submit_0;
            let sb = sub_b->Submit_0;
            exists|k: int| 0 <= k < sb.waits@.len() && sb.waits@[k] == sa.signals@[0]
        }),
{
    assert(t.node_wf(b));
    let p = t.spec_nodes()[b].base.spec_providers()[i]->Some_0;
    let sa = sub_a->Submit_0;
    let sb = sub_b->Submit_0;
    assert(sa.signals@[0] == t.spec_nodes()[p.node as int].render_data.frames_data@[frame].semaphore);
    assert(sb.waits@[1 + i] == t.provider_semaphore(b, i, frame));
    assert(sb.waits@[1 + i] == sa.signals@[0]);
    assert(0 <= 1 + i < sb.waits@.len());
}

/// Rebinding determinism: binding an input link that is already bound
/// replaces the earlier provider with the new one - the last registration
/// wins - and no other link is touched. `register_provider_for_link`'s
/// contract makes the outcome independent of the earlier binding.
pub proof fn lemma_rebinding_replaces(
    b0: node::Base,
    b1: node::Base,
    b2: node::Base,
    i: int,
    p1: Provider,
    p2: Provider,
)
    requires
        0 <= i < b0.spec_providers().len(),
        b1.spec_providers() == b0.spec_providers().update(i, Some(p1)),
        b2.spec_providers() == b1.spec_providers().update(i, Some(p2)),
    ensures
        b2.spec_providers()[i] == Some(p2),
        b2.spec_providers().len() == b0.spec_providers().len(),
        forall|j: int|
            0 <= j < b0.spec_providers().len() && j != i ==> b2.spec_providers()[j]
                == b0.spec_providers()[j],
{
}

} // verus!
