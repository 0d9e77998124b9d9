//! The live render graph: node instances and the wiring between them.
//!
//! Instances live in one arena and name each other by index. A bound
//! provider is a strong edge: the arena never drops a node, so everything
//! a consumer reads stays alive at least as long as the consumer. The
//! consumer back-references kept on output links are weak hints and confer
//! no ownership.
//!
//! The arena maintains the binding invariant: every input link of a live
//! instance is either unbound or bound to exactly one provider through one
//! of its declared output links, and the consumer's cached input texture
//! is exactly the texture that provider produces there.

use vstd::prelude::*;

use crate::effect;
use crate::effect::SceneView;
use crate::error::Error;
use crate::gapi;
use crate::gapi::Engine;
use crate::node::Provider;
use crate::object::Id;

verus! {

/// Operation kinds a whole tree of passes can run as.
#[derive(Clone, Copy, PartialEq, Eq, Structural, Debug)]
pub enum TreeType {
    DeferredPbr,
    ForwardPbr,
    Shadower,
    Unlit,
}

/// Ids below this are reserved for built-in tree kinds.
pub const USER_STARTING_TREE_TYPE_ID: u64 = 1048576;

/// The arena of live node instances of one running graph.
pub struct Tree {
    nodes: Vec<effect::Base>,
    frames_count: usize,
}

impl Tree {
    pub closed spec fn spec_nodes(&self) -> Seq<effect::Base> {
        self.nodes@
    }

    pub closed spec fn spec_frames_count(&self) -> int {
        self.frames_count as int
    }

    /// The bindings of the node at `n` are valid: each bound provider is
    /// another live node with an output link at the bound index, and the
    /// cached input texture is that provider's produced texture; each
    /// unbound input caches nothing.
    pub open spec fn node_wf(&self, n: int) -> bool {
        let node = self.spec_nodes()[n];
        &&& node.wf()
        &&& node.render_data.frames_data@.len() == self.spec_frames_count()
        &&& forall|i: int|
            0 <= i < node.base.spec_providers().len() ==> match #[trigger] node.base.spec_providers()[i] {
                Some(p) => {
                    &&& p.node < self.spec_nodes().len()
                    &&& p.node != n
                    &&& p.output_index < self.spec_nodes()[p.node as int].base.spec_outputs_count()
                    &&& node.render_data.input_textures@[i] == Some(
                        self.spec_nodes()[p.node as int].shared_data.textures@[p.output_index as int],
                    )
                },
                None => node.render_data.input_textures@[i] is None,
            }
    }

    pub open spec fn wf(&self) -> bool {
        &&& 1 <= self.spec_frames_count() <= 100000
        &&& forall|n: int| 0 <= n < self.spec_nodes().len() ==> self.node_wf(n)
    }

    /// An empty graph for the given frame-in-flight count.
    pub fn new(frames_count: usize) -> (r: Self)
        requires
            1 <= frames_count <= 100000,
        ensures
            r.wf(),
            r.spec_nodes().len() == 0,
            r.spec_frames_count() == frames_count,
    {
        Tree { nodes: Vec::new(), frames_count }
    }

    pub fn nodes_count(&self) -> (r: usize)
        ensures
            r == self.spec_nodes().len(),
    {
        self.nodes.len()
    }

    pub fn get_frames_count(&self) -> (r: usize)
        ensures
            r == self.spec_frames_count(),
    {
        self.frames_count
    }

    /// A read view of the node at `n`.
    pub fn get_node(&self, n: usize) -> (r: &effect::Base)
        requires
            n < self.spec_nodes().len(),
        ensures
            *r == self.spec_nodes()[n as int],
    {
        &self.nodes[n]
    }

    /// Instantiates a template into the graph: a fresh instance whose
    /// shared data names the template's GPU objects and whose render data
    /// is newly allocated, nothing bound. Returns the instance's slot.
    pub fn create_instance(&mut self, template: &effect::Base, eng: &mut Engine) -> (h: usize)
        requires
            old(self).wf(),
            template.wf(),
            template.spec_sec_count() > 1 ==> template.spec_sec_count() <= old(
                eng,
            ).spec_kernels_data().len(),
            old(eng).spec_frames_data().len() == old(self).spec_frames_count(),
            old(eng).spec_next_handle() + 0x400000000 <= u64::MAX,
        ensures
            final(self).wf(),
            final(self).spec_frames_count() == old(self).spec_frames_count(),
            h == old(self).spec_nodes().len(),
            final(self).spec_nodes().len() == old(self).spec_nodes().len() + 1,
            forall|m: int|
                0 <= m < old(self).spec_nodes().len() ==> final(self).spec_nodes()[m] == old(
                    self,
                ).spec_nodes()[m],
            ({
                let inst = final(self).spec_nodes()[h as int];
                &&& inst.base.spec_node_id() == template.base.spec_node_id()
                &&& inst.base.spec_name() == template.base.spec_name()
                &&& inst.base.spec_input_ids() == template.base.spec_input_ids()
                &&& inst.base.spec_input_names() == template.base.spec_input_names()
                &&& inst.base.spec_output_ids() == template.base.spec_output_ids()
                &&& inst.base.spec_output_names() == template.base.spec_output_names()
                &&& forall|i: int|
                    0 <= i < inst.base.spec_providers().len() ==> inst.base.spec_providers()[i]
                        is None
                &&& effect::shared_eq(inst.shared_data, template.shared_data)
                &&& inst.render_data.fresh_shape(
                    old(self).spec_frames_count(),
                    template.spec_sec_count(),
                    template.render_data.uniform@,
                    template.base.spec_inputs_count() as int,
                )
                &&& inst.render_data.in_range(
                    old(eng).spec_next_handle() as int,
                    final(eng).spec_next_handle() as int,
                )
            }),
            Engine::static_state_eq(*old(eng), *final(eng)),
            final(eng).spec_current_frame() == old(eng).spec_current_frame(),
            final(eng).spec_actions() == old(eng).spec_actions(),
            old(eng).spec_next_handle() < final(eng).spec_next_handle(),
            final(eng).spec_next_handle() <= old(eng).spec_next_handle() + 0x400000000,
    {
        let instance = template.create_new(eng);
        let h = self.nodes.len();
        self.nodes.push(instance);
        proof {
            assert forall|n: int| 0 <= n < self.spec_nodes().len() implies self.node_wf(n) by {
                if n < self.spec_nodes().len() - 1 {
                    assert(old(self).node_wf(n));
                }
            }
        }
        h
    }

    /// What one provider registration does: in the consumer, the addressed
    /// input slot holds the new provider and caches its produced texture
    /// while every frame record is marked stale; in the provider, the
    /// addressed output gains the consumer as a weak back-reference; no
    /// other node, link or datum changes.
    pub open spec fn provider_bound(
        old_t: Tree,
        new_t: Tree,
        consumer: int,
        input_index: int,
        provider: int,
        output_index: int,
    ) -> bool {
        let oc = old_t.spec_nodes()[consumer];
        let nc = new_t.spec_nodes()[consumer];
        let op = old_t.spec_nodes()[provider];
        let np = new_t.spec_nodes()[provider];
        &&& forall|m: int|
            0 <= m < old_t.spec_nodes().len() && m != consumer && m != provider
                ==> new_t.spec_nodes()[m] == old_t.spec_nodes()[m]
        &&& nc.base.spec_providers() == oc.base.spec_providers().update(
            input_index,
            Some(
                Provider {
                    node: provider as usize,
                    output_index: output_index as usize,
                },
            ),
        )
        &&& nc.render_data.input_textures@ == oc.render_data.input_textures@.update(
            input_index,
            Some(op.shared_data.textures@[output_index]),
        )
        &&& nc.base.spec_input_ids() == oc.base.spec_input_ids()
        &&& nc.base.spec_output_ids() == oc.base.spec_output_ids()
        &&& nc.base.spec_consumers() == oc.base.spec_consumers()
        &&& nc.shared_data == oc.shared_data
        &&& nc.render_data.uniform@ == oc.render_data.uniform@
        &&& nc.render_data.uniform_buffer == oc.render_data.uniform_buffer
        &&& nc.render_data.frames_data@.len() == oc.render_data.frames_data@.len()
        &&& forall|f: int|
            0 <= f < oc.render_data.frames_data@.len() ==> effect::Base::marked_changed(
                oc.render_data.frames_data@[f],
                #[trigger] nc.render_data.frames_data@[f],
            )
        &&& np.base.spec_consumers() == op.base.spec_consumers().update(
            output_index,
            op.base.spec_consumers()[output_index].push(consumer as usize),
        )
        &&& np.base.spec_providers() == op.base.spec_providers()
        &&& np.shared_data == op.shared_data
        &&& np.render_data == op.render_data
    }

    /// Binds one input link of `consumer` to one output link of
    /// `provider`: the consumer reads, on that input, the texture the
    /// provider produces on that output. Rebinding an already-bound input
    /// replaces the old provider deterministically: the last registration
    /// wins. The provider gains a weak back-reference to the consumer on
    /// that output. Out-of-range indices are authoring errors and are
    /// excluded up front.
    pub fn register_provider(
        &mut self,
        consumer: usize,
        input_index: usize,
        provider: usize,
        output_index: usize,
    )
        requires
            old(self).wf(),
            consumer < old(self).spec_nodes().len(),
            provider < old(self).spec_nodes().len(),
            consumer != provider,
            input_index < old(self).spec_nodes()[consumer as int].base.spec_inputs_count(),
            output_index < old(self).spec_nodes()[provider as int].base.spec_outputs_count(),
        ensures
            final(self).wf(),
            final(self).spec_frames_count() == old(self).spec_frames_count(),
            final(self).spec_nodes().len() == old(self).spec_nodes().len(),
            Tree::provider_bound(
                *old(self),
                *final(self),
                consumer as int,
                input_index as int,
                provider as int,
                output_index as int,
            ),
    {
        proof {
            assert(old(self).node_wf(consumer as int));
            assert(old(self).node_wf(provider as int));
        }
        let texture = {
            let p = &self.nodes[provider];
            p.get_output_texture(output_index)
        };
        let mut cnode = self.nodes.remove(consumer);
        cnode.register_provider_for_link(
            input_index,
            Provider { node: provider, output_index },
            texture,
        );
        self.nodes.insert(consumer, cnode);
        let mut pnode = self.nodes.remove(provider);
        pnode.base.register_consumer_for_link(output_index, consumer);
        self.nodes.insert(provider, pnode);
        proof {
            assert(self.nodes@ =~= old(self).spec_nodes().update(
                consumer as int,
                self.nodes@[consumer as int],
            ).update(provider as int, self.nodes@[provider as int]));
            assert forall|n: int| 0 <= n < self.spec_nodes().len() implies self.node_wf(n) by {
                assert(old(self).node_wf(n));
                assert(old(self).node_wf(consumer as int));
            }
        }
    }

    /// Recording changes nothing a submission depends on: links and
    /// bindings, and every frame's primary buffer and semaphore, are as
    /// before.
    pub open spec fn same_submission_interface(a: effect::Base, b: effect::Base) -> bool {
        &&& b.base == a.base
        &&& b.render_data.frames_data@.len() == a.render_data.frames_data@.len()
        &&& forall|f: int|
            0 <= f < a.render_data.frames_data@.len() ==> (#[trigger] b.render_data.frames_data@[f]).pri_cmd
                == a.render_data.frames_data@[f].pri_cmd && b.render_data.frames_data@[f].semaphore
                == a.render_data.frames_data@[f].semaphore
    }

    /// Binds the consumer's input link declared with this id to one output
    /// link of `provider`, as `register_provider` does. Naming an id that
    /// no input link of the consumer declares is an authoring error and is
    /// reported, changing nothing.
    pub fn register_provider_for_link_by_id(
        &mut self,
        consumer: usize,
        id: Id,
        provider: usize,
        output_index: usize,
    ) -> (r: Result<(), Error>)
        requires
            old(self).wf(),
            consumer < old(self).spec_nodes().len(),
            provider < old(self).spec_nodes().len(),
            consumer != provider,
            output_index < old(self).spec_nodes()[provider as int].base.spec_outputs_count(),
        ensures
            final(self).wf(),
            final(self).spec_frames_count() == old(self).spec_frames_count(),
            final(self).spec_nodes().len() == old(self).spec_nodes().len(),
            match r {
                Result::Ok(u) => exists|ii: int|
                    0 <= ii < old(self).spec_nodes()[consumer as int].base.spec_input_ids().len()
                        && #[trigger] old(
                        self,
                    ).spec_nodes()[consumer as int].base.spec_input_ids()[ii] == id
                        && Tree::provider_bound(
                        *old(self),
                        *final(self),
                        consumer as int,
                        ii,
                        provider as int,
                        output_index as int,
                    ),
                Result::Err(e) => {
                    &&& e == (Error::UnknownLinkId { link_id: id })
                    &&& *final(self) == *old(self)
                    &&& forall|ii: int|
                        0 <= ii < old(
                            self,
                        ).spec_nodes()[consumer as int].base.spec_input_ids().len() ==> #[trigger] old(
                            self,
                        ).spec_nodes()[consumer as int].base.spec_input_ids()[ii] != id
                },
            },
    {
        let idx = {
            let c = &self.nodes[consumer];
            c.base.get_input_link_index_by_id(id)
        };
        match idx {
            Some(i) => {
                self.register_provider(consumer, i, provider, output_index);
                Ok(())
            },
            None => Err(Error::UnknownLinkId { link_id: id }),
        }
    }

    /// Binds the consumer's input link declared with this name to one
    /// output link of `provider`, as `register_provider` does. Naming a
    /// name that no input link of the consumer declares is an authoring
    /// error and is reported, changing nothing.
    pub fn register_provider_for_link_by_name(
        &mut self,
        consumer: usize,
        name: &String,
        provider: usize,
        output_index: usize,
    ) -> (r: Result<(), Error>)
        requires
            old(self).wf(),
            consumer < old(self).spec_nodes().len(),
            provider < old(self).spec_nodes().len(),
            consumer != provider,
            output_index < old(self).spec_nodes()[provider as int].base.spec_outputs_count(),
        ensures
            final(self).wf(),
            final(self).spec_frames_count() == old(self).spec_frames_count(),
            final(self).spec_nodes().len() == old(self).spec_nodes().len(),
            match r {
                Result::Ok(u) => exists|ii: int|
                    0 <= ii < old(
                        self,
                    ).spec_nodes()[consumer as int].base.spec_input_names().len() && #[trigger] old(
                        self,
                    ).spec_nodes()[consumer as int].base.spec_input_names()[ii] == name@
                        && Tree::provider_bound(
                        *old(self),
                        *final(self),
                        consumer as int,
                        ii,
                        provider as int,
                        output_index as int,
                    ),
                Result::Err(e) => {
                    &&& e == Error::UnknownLinkName
                    &&& *final(self) == *old(self)
                    &&& forall|ii: int|
                        0 <= ii < old(
                            self,
                        ).spec_nodes()[consumer as int].base.spec_input_names().len()
                            ==> #[trigger] old(
                            self,
                        ).spec_nodes()[consumer as int].base.spec_input_names()[ii] != name@
                },
            },
    {
        let idx = {
            let c = &self.nodes[consumer];
            c.base.get_input_link_index_by_name(name)
        };
        match idx {
            Some(i) => {
                proof {
                    assert(old(self).node_wf(consumer as int));
                }
                self.register_provider(consumer, i, provider, output_index);
                Ok(())
            },
            None => Err(Error::UnknownLinkName),
        }
    }

    /// Every position of the order names a live node.
    pub open spec fn valid_order(&self, order: Seq<usize>) -> bool {
        forall|j: int| 0 <= j < order.len() ==> (#[trigger] order[j]) < self.spec_nodes().len()
    }

    /// Dependency order: every bound provider of a node stands somewhere
    /// before that node in the order, so a consumer is always submitted
    /// after everything it waits on.
    pub open spec fn order_respects_dependencies(&self, order: Seq<usize>) -> bool {
        forall|j: int, i: int|
            0 <= j < order.len() && 0 <= i
                < self.spec_nodes()[order[j] as int].base.spec_providers().len() && (
            #[trigger] self.spec_nodes()[order[j] as int].base.spec_providers()[i]) is Some
                ==> exists|k: int|
                0 <= k < j && order[k]
                    == self.spec_nodes()[order[j] as int].base.spec_providers()[i]->Some_0.node
    }

    /// Decides whether the order is fit to submit: every entry names a
    /// live node and every bound provider comes before its consumer.
    pub fn check_order(&self, order: &Vec<usize>) -> (r: bool)
        requires
            self.wf(),
        ensures
            r == (self.valid_order(order@) && self.order_respects_dependencies(order@)),
    {
        let n = order.len();
        let mut j: usize = 0;
        while j < n
            invariant
                self.wf(),
                j <= n,
                n == order@.len(),
                forall|jj: int| 0 <= jj < j ==> (#[trigger] order@[jj]) < self.spec_nodes().len(),
                forall|jj: int, i: int|
                    0 <= jj < j && 0 <= i
                        < self.spec_nodes()[order@[jj] as int].base.spec_providers().len() && (
                    #[trigger] self.spec_nodes()[order@[jj] as int].base.spec_providers()[i])
                        is Some ==> exists|k: int|
                        0 <= k < jj && order@[k]
                            == self.spec_nodes()[order@[jj] as int].base.spec_providers()[i]->Some_0.node,
            decreases n - j,
        {
            let node = order[j];
            if node >= self.nodes.len() {
                return false;
            }
            proof {
                assert(self.node_wf(node as int));
            }
            let pcount = self.nodes[node].base.get_all_providers().len();
            let mut i: usize = 0;
            while i < pcount
                invariant
                    self.wf(),
                    j < n,
                    n == order@.len(),
                    i <= pcount,
                    node == order@[j as int],
                    node < self.spec_nodes().len(),
                    pcount == self.spec_nodes()[node as int].base.spec_providers().len(),
                    forall|ii: int|
                        0 <= ii < i && (
                        #[trigger] self.spec_nodes()[node as int].base.spec_providers()[ii])
                            is Some ==> exists|k: int|
                            0 <= k < j && order@[k]
                                == self.spec_nodes()[node as int].base.spec_providers()[ii]->Some_0.node,
                decreases pcount - i,
            {
                match self.nodes[node].base.get_link_provider(i) {
                    Some(p) => {
                        let mut found = false;
                        let mut k: usize = 0;
                        while k < j && !found
                            invariant
                                k <= j,
                                j < n,
                                n == order@.len(),
                                found ==> exists|kk: int| 0 <= kk < j && order@[kk] == p.node,
                                !found ==> forall|kk: int| 0 <= kk < k ==> order@[kk] != p.node,
                            decreases (if found { 0int } else { 1int }), j - k,
                        {
                            if order[k] == p.node {
                                found = true;
                            } else {
                                k = k + 1;
                            }
                        }
                        if !found {
                            proof {
                                assert(self.spec_nodes()[order@[j as int] as int].base.spec_providers()[i as int]
                                    is Some);
                                assert(forall|kk: int|
                                    0 <= kk < j ==> order@[kk]
                                        != self.spec_nodes()[order@[j as int] as int].base.spec_providers()[i as int]->Some_0.node);
                            }
                            return false;
                        }
                    },
                    None => {},
                }
                i = i + 1;
            }
            j = j + 1;
        }
        true
    }


    /// A full submission schedule: every live node exactly once, each
    /// after all of its providers.
    pub open spec fn complete_order(&self, order: Seq<usize>) -> bool {
        &&& order.len() == self.spec_nodes().len()
        &&& self.valid_order(order)
        &&& order.no_duplicates()
        &&& self.order_respects_dependencies(order)
    }

    /// The graph admits a full submission schedule: its bound edges form
    /// no cycle.
    pub open spec fn schedulable(&self) -> bool {
        exists|order: Seq<usize>| self.complete_order(order)
    }

    /// Computes a submission order for the whole graph: every node comes
    /// after all of its providers. Fails exactly when no such order
    /// exists, that is, when the bound edges form a cycle.
    #[verifier::rlimit(50)]
    pub fn submission_order(&self) -> (r: Option<Vec<usize>>)
        requires
            self.wf(),
        ensures
            match r {
                Some(order) => self.complete_order(order@),
                None => !self.schedulable(),
            },
    {
        let n = self.nodes.len();
        let mut placed: Vec<bool> = Vec::new();
        let mut z: usize = 0;
        while z < n
            invariant
                z <= n,
                placed@.len() == z,
                forall|m: int| 0 <= m < z ==> !placed@[m],
            decreases n - z,
        {
            placed.push(false);
            z = z + 1;
        }
        let mut order: Vec<usize> = Vec::new();
        while order.len() < n
            invariant
                self.wf(),
                n == self.spec_nodes().len(),
                placed@.len() == n,
                order@.len() <= n,
                forall|k: int| 0 <= k < order@.len() ==> (#[trigger] order@[k]) < n,
                order@.no_duplicates(),
                forall|k: int| 0 <= k < order@.len() ==> placed@[(#[trigger] order@[k]) as int],
                forall|m: int|
                    0 <= m < n && placed@[m] ==> exists|k: int|
                        0 <= k < order@.len() && order@[k] as int == m,
                self.order_respects_dependencies(order@),
            decreases n - order@.len(),
        {
            let mut m: usize = 0;
            let mut chosen: Option<usize> = None;
            while m < n && chosen.is_none()
                invariant
                    self.wf(),
                    n == self.spec_nodes().len(),
                    placed@.len() == n,
                    m <= n,
                    match chosen {
                        Some(c) => {
                            &&& c < n
                            &&& !placed@[c as int]
                            &&& forall|i: int|
                                0 <= i < self.spec_nodes()[c as int].base.spec_providers().len()
                                    && (
                                #[trigger] self.spec_nodes()[c as int].base.spec_providers()[i])
                                    is Some ==> placed@[self.spec_nodes()[c as int].base.spec_providers()[i]->Some_0.node as int]
                        },
                        None => forall|mm: int|
                            0 <= mm < m && !placed@[mm] ==> exists|i: int|
                                0 <= i
                                    < self.spec_nodes()[mm].base.spec_providers().len()
                                    && self.spec_nodes()[mm].base.spec_providers()[i] is Some
                                    && !placed@[self.spec_nodes()[mm].base.spec_providers()[i]->Some_0.node as int],
                    },
                decreases (if chosen is Some { 0int } else { 1int }), n - m,
            {
                if !placed[m] {
                    proof {
                        assert(self.node_wf(m as int));
                    }
                    let pcount = self.nodes[m].base.get_all_providers().len();
                    let mut all_ok = true;
                    let mut i: usize = 0;
                    while i < pcount && all_ok
                        invariant
                            self.wf(),
                            n == self.spec_nodes().len(),
                            placed@.len() == n,
                            m < n,
                            i <= pcount,
                            pcount == self.spec_nodes()[m as int].base.spec_providers().len(),
                            all_ok ==> forall|ii: int|
                                0 <= ii < i && (
                                #[trigger] self.spec_nodes()[m as int].base.spec_providers()[ii])
                                    is Some ==> placed@[self.spec_nodes()[m as int].base.spec_providers()[ii]->Some_0.node as int],
                            !all_ok ==> exists|ii: int|
                                0 <= ii < pcount
                                    && self.spec_nodes()[m as int].base.spec_providers()[ii]
                                    is Some
                                    && !placed@[self.spec_nodes()[m as int].base.spec_providers()[ii]->Some_0.node as int],
                        decreases (if all_ok { 1int } else { 0int }), pcount - i,
                    {
                        proof {
                            assert(self.node_wf(m as int));
                        }
                        match self.nodes[m].base.get_link_provider(i) {
                            Some(p) => {
                                if !placed[p.node] {
                                    all_ok = false;
                                }
                            },
                            None => {},
                        }
                        if all_ok {
                            i = i + 1;
                        }
                    }
                    if all_ok {
                        chosen = Some(m);
                    }
                }
                if chosen.is_none() {
                    m = m + 1;
                }
            }
            match chosen {
                Some(c) => {
                    let ghost old_order = order@;
                    let ghost old_placed = placed@;
                    placed.set(c, true);
                    order.push(c);
                    proof {
                        assert(order@ == old_order.push(c));
                        assert(order@[order@.len() - 1] == c);
                        assert forall|k1: int, k2: int|
                            0 <= k1 < k2 < order@.len() implies order@[k1] != order@[k2] by {
                            if k2 == order@.len() - 1 {
                                assert(old_placed[(order@[k1]) as int]);
                            }
                        }
                        assert(order@.no_duplicates());
                        assert forall|m: int|
                            0 <= m < n && placed@[m] implies exists|k: int|
                            0 <= k < order@.len() && order@[k] as int == m by {
                            if m == c as int {
                                assert(order@[order@.len() - 1] as int == m);
                            } else {
                                assert(old_placed[m]);
                                let k = choose|k: int|
                                    0 <= k < old_order.len() && old_order[k] as int == m;
                                assert(order@[k] as int == m);
                            }
                        }
                        assert forall|j: int, i: int|
                            0 <= j < order@.len() && 0 <= i
                                < self.spec_nodes()[order@[j] as int].base.spec_providers().len()
                                && (
                            #[trigger] self.spec_nodes()[order@[j] as int].base.spec_providers()[i])
                                is Some implies exists|k: int|
                            0 <= k < j && order@[k]
                                == self.spec_nodes()[order@[j] as int].base.spec_providers()[i]->Some_0.node by {
                            if j == order@.len() - 1 {
                                assert(order@[j] == c);
                                assert(self.spec_nodes()[c as int].base.spec_providers()[i]
                                    is Some);
                                assert(self.node_wf(c as int));
                                let p =
                                    self.spec_nodes()[c as int].base.spec_providers()[i]->Some_0;
                                assert(p.node < n);
                                assert(old_placed[p.node as int]);
                                let k = choose|k: int|
                                    0 <= k < old_order.len() && old_order[k] as int
                                        == p.node as int;
                                assert(order@[k] == old_order[k]);
                                assert(order@[k] as int == p.node as int);
                                assert(order@[k] == p.node);
                                assert(k < j);
                            } else {
                                assert(order@[j] == old_order[j]);
                                let k = choose|k: int|
                                    0 <= k < j && old_order[k]
                                        == self.spec_nodes()[old_order[j] as int].base.spec_providers()[i]->Some_0.node;
                                assert(order@[k]
                                    == self.spec_nodes()[order@[j] as int].base.spec_providers()[i]->Some_0.node);
                            }
                        }
                    }
                },
                None => {
                    proof {
                        if forall|mm: int| 0 <= mm < n ==> placed@[mm] {
                            lemma_placed_count(order@, placed@, n as int);
                            assert(false);
                        }
                        self.lemma_stuck_means_cycle(placed@);
                    }
                    return None;
                },
            }
        }
        Some(order)
    }

    /// A stuck scheduling state refutes schedulability: when every
    /// unplaced node has an unplaced provider, the unplaced nodes form a
    /// cycle, and no complete order can begin with any of them.
    #[verifier::rlimit(100)]
    proof fn lemma_stuck_means_cycle(&self, placed: Seq<bool>)
        requires
            self.wf(),
            placed.len() == self.spec_nodes().len(),
            placed.len() <= usize::MAX,
            exists|m: int| 0 <= m < placed.len() && !placed[m],
            forall|m: int|
                0 <= m < placed.len() && !placed[m] ==> exists|i: int|
                    0 <= i < self.spec_nodes()[m].base.spec_providers().len()
                        && self.spec_nodes()[m].base.spec_providers()[i] is Some && !placed[(
                    self.spec_nodes()[m].base.spec_providers()[i]->Some_0.node) as int],
        ensures
            !self.schedulable(),
    {
        if self.schedulable() {
            let order = choose|order: Seq<usize>| self.complete_order(order);
            assert(self.complete_order(order));
            lemma_full_range_coverage(order, self.spec_nodes().len() as int);
            self.lemma_prefix_all_placed(placed, order, order.len() as int);
            let m = choose|m: int| 0 <= m < placed.len() && !placed[m];
            assert(order.contains(m as usize));
            let k = choose|k: int| 0 <= k < order.len() && order[k] == m as usize;
            assert(placed[order[k] as int]);
            assert(order[k] as int == m);
            assert(placed[m]);
            assert(false);
        }
    }

    /// In a stuck state, every prefix of a complete order consists of
    /// placed nodes: an unplaced node would need an unplaced provider
    /// earlier in the order, against the induction hypothesis.
    proof fn lemma_prefix_all_placed(&self, placed: Seq<bool>, order: Seq<usize>, tlen: int)
        requires
            self.wf(),
            placed.len() == self.spec_nodes().len(),
            self.complete_order(order),
            0 <= tlen <= order.len(),
            forall|m: int|
                0 <= m < placed.len() && !placed[m] ==> exists|i: int|
                    0 <= i < self.spec_nodes()[m].base.spec_providers().len()
                        && self.spec_nodes()[m].base.spec_providers()[i] is Some && !placed[(
                    self.spec_nodes()[m].base.spec_providers()[i]->Some_0.node) as int],
        ensures
            forall|k: int| 0 <= k < tlen ==> placed[(#[trigger] order[k]) as int],
        decreases tlen,
    {
        if tlen > 0 {
            self.lemma_prefix_all_placed(placed, order, tlen - 1);
            let node = order[tlen - 1] as int;
            if !placed[node] {
                let i = choose|i: int|
                    0 <= i < self.spec_nodes()[node].base.spec_providers().len()
                        && self.spec_nodes()[node].base.spec_providers()[i] is Some && !placed[(
                    self.spec_nodes()[node].base.spec_providers()[i]->Some_0.node) as int];
                assert(self.spec_nodes()[order[tlen - 1] as int].base.spec_providers()[i]
                    is Some);
                let p = self.spec_nodes()[node].base.spec_providers()[i]->Some_0;
                let k = choose|k: int| 0 <= k < tlen - 1 && order[k] == p.node;
                assert(placed[order[k] as int]);
                assert(false);
            }
        }
    }

    /// The per-frame semaphore of the provider bound to input `i` of the
    /// node at `n`.
    pub open spec fn provider_semaphore(&self, n: int, i: int, frame: int) -> u64 {
        let p = self.spec_nodes()[n].base.spec_providers()[i]->Some_0;
        self.spec_nodes()[p.node as int].render_data.frames_data@[frame].semaphore
    }

    /// Records the node's commands for one frame into one worker's
    /// secondary buffer. Recording a node whose inputs are not all bound
    /// is an authoring error: nothing changes and the first unbound link
    /// is reported. On success the recorded pass reads, for every input,
    /// exactly the texture produced by the bound provider.
    #[verifier::rlimit(50)]
    pub fn record_node(
        &mut self,
        node: usize,
        kernel_index: usize,
        frame_index: usize,
        eng: &mut Engine,
        scene: &SceneView,
    ) -> (r: Result<(), Error>)
        requires
            old(self).wf(),
            node < old(self).spec_nodes().len(),
            kernel_index < old(self).spec_nodes()[node as int].spec_sec_count(),
            frame_index < old(self).spec_frames_count(),
            old(eng).spec_next_handle() < u64::MAX,
        ensures
            final(self).wf(),
            final(self).spec_frames_count() == old(self).spec_frames_count(),
            final(self).spec_nodes().len() == old(self).spec_nodes().len(),
            forall|m: int|
                0 <= m < old(self).spec_nodes().len() && m != node ==> final(self).spec_nodes()[m]
                    == old(self).spec_nodes()[m],
            match r {
                Result::Err(e) => {
                    let onode = old(self).spec_nodes()[node as int];
                    &&& e matches Error::UnboundInput { input_index }
                    &&& 0 <= input_index < onode.render_data.input_textures@.len()
                    &&& onode.base.spec_providers()[input_index as int] is None
                    &&& forall|j: int|
                        0 <= j < input_index ==> (
                        #[trigger] onode.render_data.input_textures@[j]) is Some
                    &&& final(self).spec_nodes() == old(self).spec_nodes()
                    &&& *final(eng) == *old(eng)
                },
                Result::Ok(u) => {
                    let onode = old(self).spec_nodes()[node as int];
                    let nnode = final(self).spec_nodes()[node as int];
                    let pass = nnode.render_data.frames_data@[frame_index as int].kernels_data@[kernel_index as int].recorded->Some_0;
                    &&& onode.base.all_inputs_bound()
                    &&& nnode.base == onode.base
                    &&& nnode.shared_data == onode.shared_data
                    &&& nnode.render_data.input_textures@ == onode.render_data.input_textures@
                    &&& nnode.render_data.uniform@ == onode.render_data.uniform@
                    &&& nnode.render_data.frames_data@.len()
                        == onode.render_data.frames_data@.len()
                    &&& Tree::same_submission_interface(onode, nnode)
                    &&& nnode.spec_sec_count() == onode.spec_sec_count()
                    &&& nnode.render_data.frames_data@[frame_index as int].kernels_data@[kernel_index as int].recorded
                        is Some
                    &&& onode.recorded_pass_ok(pass, *scene)
                    &&& forall|i: int|
                        0 <= i < onode.base.spec_providers().len()
                            && (#[trigger] onode.base.spec_providers()[i]) is Some
                            ==> pass.inputs@[i] == old(self).spec_nodes()[onode.base.spec_providers()[i]->Some_0.node as int].shared_data.textures@[onode.base.spec_providers()[i]->Some_0.output_index as int]
                    &&& old(eng).spec_next_handle() <= final(eng).spec_next_handle() <= old(
                        eng,
                    ).spec_next_handle() + 1
                    &&& Engine::static_state_eq(*old(eng), *final(eng))
                    &&& final(eng).spec_current_frame() == old(eng).spec_current_frame()
                    &&& final(eng).spec_actions() == old(eng).spec_actions()
                },
            },
    {
        proof {
            assert(old(self).node_wf(node as int));
        }
        let mut nd = self.nodes.remove(node);
        let r = nd.record(kernel_index, frame_index, eng, scene);
        self.nodes.insert(node, nd);
        proof {
            assert(self.nodes@ =~= old(self).spec_nodes().update(
                node as int,
                self.nodes@[node as int],
            ));
        }
        match r {
            Ok(u) => {
                proof {
                    let onode = old(self).spec_nodes()[node as int];
                    assert forall|i: int|
                        0 <= i < onode.render_data.input_textures@.len() implies onode.base.spec_providers()[i]
                        is Some by {
                        assert(onode.render_data.input_textures@[i] is Some);
                        if onode.base.spec_providers()[i] is None {
                            assert(onode.render_data.input_textures@[i] is None);
                        }
                    }
                    assert forall|n: int| 0 <= n < self.spec_nodes().len() implies self.node_wf(
                        n,
                    ) by {
                        assert(old(self).node_wf(n));
                        let newn = self.spec_nodes()[n];
                        let oldn = old(self).spec_nodes()[n];
                        assert(newn.base == oldn.base);
                        assert(newn.shared_data == oldn.shared_data);
                        assert(newn.render_data.input_textures@
                            == oldn.render_data.input_textures@);
                        assert(newn.wf());
                        assert forall|i: int|
                            0 <= i < newn.base.spec_providers().len() implies match #[trigger] newn.base.spec_providers()[i] {
                            Some(p) => {
                                &&& p.node < self.spec_nodes().len()
                                &&& p.node != n
                                &&& p.output_index
                                    < self.spec_nodes()[p.node as int].base.spec_outputs_count()
                                &&& newn.render_data.input_textures@[i] == Some(
                                    self.spec_nodes()[p.node as int].shared_data.textures@[p.output_index as int],
                                )
                            },
                            None => newn.render_data.input_textures@[i] is None,
                        } by {
                            match oldn.base.spec_providers()[i] {
                                Some(p) => {
                                    assert(self.spec_nodes()[p.node as int].shared_data
                                        == old(self).spec_nodes()[p.node as int].shared_data);
                                    assert(self.spec_nodes()[p.node as int].base
                                        == old(self).spec_nodes()[p.node as int].base);
                                },
                                None => {},
                            }
                        }
                    }
                }
                Ok(())
            },
            Err(e) => {
                proof {
                    assert(self.nodes@ =~= old(self).spec_nodes());
                    let onode = old(self).spec_nodes()[node as int];
                    let i = e->UnboundInput_input_index as int;
                    if onode.base.spec_providers()[i] is Some {
                        assert(onode.render_data.input_textures@[i] is Some);
                    }
                    assert forall|n: int| 0 <= n < self.spec_nodes().len() implies self.node_wf(
                        n,
                    ) by {
                        assert(old(self).node_wf(n));
                        assert(self.spec_nodes()[n] == old(self).spec_nodes()[n]);
                    }
                }
                Err(e)
            },
        }
    }

    /// Hands the node's frame to the scheduler: one submission that
    /// executes the node's primary buffer, waits on the frame's stage-B
    /// semaphore and on the per-frame semaphore of every bound provider,
    /// and signals the node's own per-frame semaphore.
    pub fn submit_node(&self, node: usize, frame: usize, eng: &mut Engine)
        requires
            self.wf(),
            node < self.spec_nodes().len(),
            frame < self.spec_frames_count(),
            self.spec_nodes()[node as int].base.all_inputs_bound(),
            old(eng).spec_current_frame() < old(eng).spec_frames_data().len(),
        ensures
            Engine::log_grew(*old(eng), *final(eng), 1),
            Engine::static_state_eq(*old(eng), *final(eng)),
            final(eng).spec_next_handle() == old(eng).spec_next_handle(),
            final(eng).spec_current_frame() == old(eng).spec_current_frame(),
            self.node_submission(
                node as int,
                frame as int,
                old(eng).spec_frames_data()[old(eng).spec_current_frame()].second_data_semaphore,
                final(eng).spec_actions().last(),
            ),
    {
        proof {
            assert(self.node_wf(node as int));
        }
        let stage_b = eng.get_starting_semaphore();
        let mut waits: Vec<u64> = Vec::new();
        waits.push(stage_b);
        let pcount = self.nodes[node].base.get_all_providers().len();
        let mut i: usize = 0;
        while i < pcount
            invariant
                self.wf(),
                node < self.spec_nodes().len(),
                frame < self.spec_frames_count(),
                self.spec_nodes()[node as int].base.all_inputs_bound(),
                pcount == self.spec_nodes()[node as int].base.spec_providers().len(),
                i <= pcount,
                waits@.len() == 1 + i,
                waits@[0] == stage_b,
                forall|j: int|
                    0 <= j < i ==> #[trigger] waits@[1 + j] == self.provider_semaphore(
                        node as int,
                        j,
                        frame as int,
                    ),
            decreases pcount - i,
        {
            proof {
                assert(self.node_wf(node as int));
            }
            match self.nodes[node].base.get_link_provider(i) {
                Some(p) => {
                    proof {
                        assert(self.node_wf(p.node as int));
                    }
                    waits.push(self.nodes[p.node].render_data.frames_data[frame].semaphore);
                },
                None => {
                    proof {
                        assert(false);
                    }
                    waits.push(0);
                },
            }
            i = i + 1;
        }
        let mut cmds: Vec<u64> = Vec::new();
        cmds.push(self.nodes[node].render_data.frames_data[frame].pri_cmd);
        let mut signals: Vec<u64> = Vec::new();
        signals.push(self.nodes[node].render_data.frames_data[frame].semaphore);
        eng.submit_multiple(&waits, &cmds, &signals);
    }
}


/// The shape of one frame tick in the action log: the segment
/// `[start, start + len)` begins by waiting and resetting the slot's
/// fence, every submission before the last carries no fence, the last
/// submission carries the slot's fence, and the tick ends by presenting
/// the slot's image gated on its render-complete semaphore.
pub open spec fn tick_shape(
    log: Seq<gapi::Action>,
    start: int,
    len: int,
    fd: gapi::FrameData,
    image_index: usize,
) -> bool {
    &&& len >= 6
    &&& 0 <= start
    &&& start + len <= log.len()
    &&& log[start] == gapi::Action::WaitFence(fd.wait_fence)
    &&& log[start + 1] == gapi::Action::ResetFence(fd.wait_fence)
    &&& forall|j: int|
        start + 2 <= j < start + len - 2 ==> ((#[trigger] log[j]) matches gapi::Action::Submit(s)
            && s.fence is None)
    &&& log[start + len - 2] matches gapi::Action::Submit(s) && s.fence == Some(fd.wait_fence)
        && s.signals@ =~= seq![fd.render_semaphore]
    &&& log[start + len - 1] == (gapi::Action::Present {
        image_index,
        wait_semaphore: fd.render_semaphore,
    })
}

impl Tree {
    /// One submission of the node at `n` for `frame`: executes the node's
    /// primary buffer, waits on stage B and on every bound provider's
    /// per-frame semaphore, signals the node's own per-frame semaphore,
    /// and carries no fence.
    pub open spec fn node_submission(
        &self,
        n: int,
        frame: int,
        stage_b: u64,
        a: gapi::Action,
    ) -> bool {
        let nd = self.spec_nodes()[n];
        &&& a matches gapi::Action::Submit(s)
        &&& s.fence is None
        &&& s.cmds@ =~= seq![nd.render_data.frames_data@[frame].pri_cmd]
        &&& s.signals@ =~= seq![nd.render_data.frames_data@[frame].semaphore]
        &&& s.waits@.len() == 1 + nd.base.spec_providers().len()
        &&& s.waits@[0] == stage_b
        &&& forall|i: int|
            0 <= i < nd.base.spec_providers().len() && (#[trigger] nd.base.spec_providers()[i])
                is Some ==> s.waits@[1 + i] == self.provider_semaphore(n, i, frame)
    }

    /// A submission observed in one graph state is the same submission in
    /// another state that differs only in what recording may change.
    proof fn lemma_submission_interface_lift(
        t_old: Tree,
        t_new: Tree,
        n: int,
        frame: int,
        stage_b: u64,
        a: gapi::Action,
    )
        requires
            t_old.wf(),
            t_new.spec_nodes().len() == t_old.spec_nodes().len(),
            t_new.spec_frames_count() == t_old.spec_frames_count(),
            0 <= n < t_old.spec_nodes().len(),
            0 <= frame < t_old.spec_frames_count(),
            forall|m: int|
                0 <= m < t_old.spec_nodes().len() ==> Tree::same_submission_interface(
                    t_old.spec_nodes()[m],
                    #[trigger] t_new.spec_nodes()[m],
                ),
            t_new.node_submission(n, frame, stage_b, a),
        ensures
            t_old.node_submission(n, frame, stage_b, a),
    {
        assert(t_old.node_wf(n));
        let ndo = t_old.spec_nodes()[n];
        let ndn = t_new.spec_nodes()[n];
        assert(Tree::same_submission_interface(ndo, ndn));
        assert(ndn.render_data.frames_data@[frame].pri_cmd
            == ndo.render_data.frames_data@[frame].pri_cmd);
        assert(ndn.render_data.frames_data@[frame].semaphore
            == ndo.render_data.frames_data@[frame].semaphore);
        let su = a->Submit_0;
        assert forall|i: int|
            0 <= i < ndo.base.spec_providers().len() && (#[trigger] ndo.base.spec_providers()[i])
                is Some implies su.waits@[1 + i] == t_old.provider_semaphore(n, i, frame) by {
            let p = ndo.base.spec_providers()[i]->Some_0;
            assert(p.node < t_old.spec_nodes().len());
            assert(t_old.node_wf(p.node as int));
            assert(Tree::same_submission_interface(
                t_old.spec_nodes()[p.node as int],
                t_new.spec_nodes()[p.node as int],
            ));
            assert(t_new.spec_nodes()[p.node as int].render_data.frames_data@[frame].semaphore
                == t_old.spec_nodes()[p.node as int].render_data.frames_data@[frame].semaphore);
        }
    }

    /// Drives one whole frame: begins the tick on the acquired slot,
    /// records every node of `order` (each worker slot in turn; the
    /// running engine hands the slots to its worker threads in parallel,
    /// each owning its own secondary buffer), submits each node in the
    /// given dependency order, and ends the tick with the fenced
    /// composition submission and the present.
    ///
    /// A swapchain that needs a refresh aborts the frame untouched. The
    /// appended log segment always has the tick shape for the acquired
    /// slot, and carries one correctly wired submission per node of
    /// `order`, in order.
    #[verifier::rlimit(100)]
    pub fn render_frame(
        &mut self,
        eng: &mut Engine,
        acquired: gapi::NextImageResult,
        order: &Vec<usize>,
        scene: &SceneView,
    ) -> (r: Result<(), Error>)
        requires
            old(self).wf(),
            old(eng).wf(),
            old(eng).spec_frames_data().len() == old(self).spec_frames_count(),
            acquired matches gapi::NextImageResult::Next(c) ==> c < old(
                self,
            ).spec_frames_count(),
            order@.len() <= 100000,
            forall|j: int|
                0 <= j < order@.len() ==> #[trigger] order@[j] < old(self).spec_nodes().len(),
            forall|j: int|
                0 <= j < order@.len() ==> old(self).spec_nodes()[#[trigger] order@[j] as int].base.all_inputs_bound(),
            old(self).order_respects_dependencies(order@),
            old(eng).spec_next_handle() + 0x300000000 <= u64::MAX,
        ensures
            final(self).wf(),
            final(eng).wf(),
            final(self).spec_frames_count() == old(self).spec_frames_count(),
            final(self).spec_nodes().len() == old(self).spec_nodes().len(),
            Engine::static_state_eq(*old(eng), *final(eng)),
            match acquired {
                gapi::NextImageResult::NeedsRefresh => {
                    &&& r == Err::<(), Error>(Error::SwapchainNeedsRefresh)
                    &&& *final(self) == *old(self)
                    &&& *final(eng) == *old(eng)
                },
                gapi::NextImageResult::Next(c) => {
                    let fd = old(eng).spec_frames_data()[c as int];
                    let n0 = old(eng).spec_actions().len() as int;
                    let ticklen = 6 + order@.len() as int;
                    &&& r is Ok
                    &&& final(eng).spec_current_frame() == c
                    &&& Engine::log_grew(*old(eng), *final(eng), ticklen)
                    &&& tick_shape(final(eng).spec_actions(), n0, ticklen, fd, c)
                    &&& forall|j: int|
                        0 <= j < order@.len() ==> old(self).node_submission(
                            order@[j] as int,
                            c as int,
                            fd.second_data_semaphore,
                            #[trigger] final(eng).spec_actions()[n0 + 4 + j],
                        )
                },
            },
    {
        let c = match acquired {
            gapi::NextImageResult::Next(c) => c,
            gapi::NextImageResult::NeedsRefresh => {
                return Err(Error::SwapchainNeedsRefresh);
            },
        };
        let start_result = eng.start_rendering(acquired);
        proof {
            assert(start_result is Ok);
        }
        let ghost eng1 = *eng;
        let ghost n0 = old(eng).spec_actions().len() as int;
        let ghost fd = old(eng).spec_frames_data()[c as int];
        let ghost stage_b = fd.second_data_semaphore;
        let count = order.len();
        let mut j: usize = 0;
        while j < count
            invariant
                old(self).wf(),
                self.wf(),
                j <= count,
                count == order@.len(),
                count <= 100000,
                c < self.spec_frames_count(),
                self.spec_frames_count() == old(self).spec_frames_count(),
                self.spec_nodes().len() == old(self).spec_nodes().len(),
                forall|jj: int|
                    0 <= jj < count ==> #[trigger] order@[jj] < old(self).spec_nodes().len(),
                forall|jj: int|
                    0 <= jj < count ==> old(self).spec_nodes()[#[trigger] order@[jj] as int].base.all_inputs_bound(),
                forall|m: int|
                    0 <= m < old(self).spec_nodes().len() ==> Tree::same_submission_interface(
                        old(self).spec_nodes()[m],
                        #[trigger] self.spec_nodes()[m],
                    ),
                Engine::static_state_eq(eng1, *eng),
                eng.spec_current_frame() == eng1.spec_current_frame(),
                eng1.spec_current_frame() == c,
                eng1.spec_frames_data() == old(eng).spec_frames_data(),
                c < eng1.spec_frames_data().len(),
                eng1.spec_kernels_data() == old(eng).spec_kernels_data(),
                eng1.spec_actions().len() == n0 + 4,
                fd == old(eng).spec_frames_data()[c as int],
                stage_b == fd.second_data_semaphore,
                eng1.spec_next_handle() == old(eng).spec_next_handle(),
                eng1.spec_next_handle() + 0x300000000 <= u64::MAX,
                eng.spec_next_handle() <= eng1.spec_next_handle() + 100001 * j,
                eng.spec_actions().len() == n0 + 4 + j,
                eng.spec_actions().subrange(0, n0 + 4) == eng1.spec_actions(),
                forall|jj: int|
                    0 <= jj < j ==> old(self).node_submission(
                        order@[jj] as int,
                        c as int,
                        stage_b,
                        #[trigger] eng.spec_actions()[n0 + 4 + jj],
                    ),
                forall|jj: int|
                    n0 + 4 <= jj < n0 + 4 + j ==> ((#[trigger] eng.spec_actions()[jj]) matches gapi::Action::Submit(s)
                        && s.fence is None),
            decreases count - j,
        {
            let idx = order[j];
            proof {
                assert(old(self).node_wf(idx as int));
                assert(self.node_wf(idx as int));
                assert(Tree::same_submission_interface(
                    old(self).spec_nodes()[idx as int],
                    self.spec_nodes()[idx as int],
                ));
                assert(self.spec_nodes()[idx as int].base == old(
                    self,
                ).spec_nodes()[idx as int].base);
                assert(old(self).spec_nodes()[idx as int].base.all_inputs_bound());
            }
            let sec = self.nodes[idx].render_data.frames_data[0].kernels_data.len();
            let ghost eng_loop = *eng;
            let mut k: usize = 0;
            while k < sec
                invariant
                    old(self).wf(),
                    self.wf(),
                    k <= sec,
                    idx < self.spec_nodes().len(),
                    self.spec_nodes().len() == old(self).spec_nodes().len(),
                    self.spec_frames_count() == old(self).spec_frames_count(),
                    c < self.spec_frames_count(),
                    sec == self.spec_nodes()[idx as int].spec_sec_count(),
                    sec <= 100000,
                    self.spec_nodes()[idx as int].base.all_inputs_bound(),
                    forall|m: int|
                        0 <= m < old(self).spec_nodes().len() ==> Tree::same_submission_interface(
                            old(self).spec_nodes()[m],
                            #[trigger] self.spec_nodes()[m],
                        ),
                    Engine::static_state_eq(eng_loop, *eng),
                    eng.spec_current_frame() == eng_loop.spec_current_frame(),
                    eng.spec_actions() == eng_loop.spec_actions(),
                    eng.spec_next_handle() <= eng_loop.spec_next_handle() + k,
                    eng_loop.spec_next_handle() as int + 100000 <= u64::MAX,
                decreases sec - k,
            {
                let ghost pre = *self;
                let rr = self.record_node(idx, k, c, eng, scene);
                proof {
                    if rr is Err {
                        let e = rr->Err_0;
                        let i = e->UnboundInput_input_index as int;
                        assert(pre.node_wf(idx as int));
                        assert(pre.spec_nodes()[idx as int].base.spec_providers()[i] is None);
                        assert(pre.spec_nodes()[idx as int].base.all_inputs_bound());
                        assert(pre.spec_nodes()[idx as int].base.spec_providers()[i] is Some);
                        assert(false);
                    }
                }
                k = k + 1;
            }
            proof {
                assert(self.node_wf(idx as int));
                assert(self.spec_nodes()[idx as int].base.all_inputs_bound());
            }
            let ghost self_at_submit = *self;
            let ghost eng_before_submit = *eng;
            self.submit_node(idx, c, eng);
            proof {
                assert(eng.spec_actions().len() == n0 + 4 + j + 1);
                assert(eng.spec_actions().last() == eng.spec_actions()[n0 + 4 + j]);
                assert(eng_before_submit.spec_frames_data() == eng1.spec_frames_data());
                assert(eng_before_submit.spec_current_frame() == c);
                assert(self_at_submit.node_submission(
                    idx as int,
                    c as int,
                    stage_b,
                    eng.spec_actions()[n0 + 4 + j],
                ));
                Tree::lemma_submission_interface_lift(
                    *old(self),
                    self_at_submit,
                    idx as int,
                    c as int,
                    stage_b,
                    eng.spec_actions()[n0 + 4 + j],
                );
                assert(eng.spec_actions().subrange(0, n0 + 4) =~= eng1.spec_actions());
            }
            j = j + 1;
        }
        let last_wait = if count == 0 {
            eng.get_starting_semaphore()
        } else {
            let last = order[count - 1];
            proof {
                assert(self.node_wf(last as int));
            }
            self.nodes[last].render_data.frames_data[c].semaphore
        };
        let ghost eng2 = *eng;
        eng.end(last_wait);
        proof {
            let log = eng.spec_actions();
            let ticklen = 6 + count as int;
            assert(log.len() == n0 + ticklen);
            assert forall|i: int| 0 <= i < n0 + 4 implies log[i] == eng1.spec_actions()[i] by {
                assert(eng2.spec_actions()[i] == eng2.spec_actions().subrange(0, n0 + 4)[i]);
            }
            assert(log[n0] == gapi::Action::WaitFence(fd.wait_fence));
            assert(log[n0 + 1] == gapi::Action::ResetFence(fd.wait_fence));
            assert(gapi::submit_action(
                log[n0 + 2],
                seq![fd.present_semaphore],
                seq![fd.data_primary_cmd],
                seq![fd.data_semaphore],
                None,
            ));
            assert(gapi::submit_action(
                log[n0 + 3],
                seq![fd.data_semaphore],
                seq![fd.second_data_primary_cmd],
                seq![fd.second_data_semaphore],
                None,
            ));
            assert forall|i: int|
                n0 + 2 <= i < n0 + ticklen - 2 implies ((#[trigger] log[i]) matches gapi::Action::Submit(s)
                && s.fence is None) by {
                if i < n0 + 4 {
                } else {
                    assert(log[i] == eng2.spec_actions()[i]);
                }
            }
            assert(log[n0 + ticklen - 2] == eng.spec_actions()[eng.spec_actions().len() - 2]);
            assert(tick_shape(log, n0, ticklen, fd, c));
        }
        Ok(())
    }
}

/// A duplicate-free sequence of `n` values below `n` covers every value
/// below `n`.
proof fn lemma_full_range_coverage(order: Seq<usize>, n: int)
    requires
        n >= 0,
        order.len() == n,
        order.no_duplicates(),
        forall|k: int| 0 <= k < order.len() ==> (#[trigger] order[k]) < n,
    ensures
        forall|m: int| 0 <= m < n ==> #[trigger] order.contains((m as usize)),
{
    let ints = order.map_values(|u: usize| u as int);
    assert(ints.no_duplicates()) by {
        assert forall|k1: int, k2: int|
            0 <= k1 < order.len() && 0 <= k2 < order.len() && k1 != k2 implies ints[k1]
            != ints[k2] by {
            assert(order[k1] != order[k2]);
        }
    }
    ints.unique_seq_to_set();
    let range = vstd::set_lib::set_int_range(0, n);
    vstd::set_lib::lemma_int_range(0, n);
    assert(ints.to_set().subset_of(range)) by {
        assert forall|x: int| ints.to_set().contains(x) implies range.contains(x) by {
            let k = choose|k: int| 0 <= k < ints.len() && ints[k] == x;
            assert(order[k] < n);
        }
    }
    assert forall|m: int| 0 <= m < n implies #[trigger] order.contains((m as usize)) by {
        if !ints.to_set().contains(m) {
            assert(ints.to_set().subset_of(range.remove(m)));
            vstd::set_lib::lemma_len_subset(ints.to_set(), range.remove(m));
            assert(range.remove(m).len() == n - 1);
            assert(false);
        }
        let k = choose|k: int| 0 <= k < ints.len() && ints[k] == m;
        assert(order[k] == m as usize);
    }
}

/// When every slot is placed and every placed slot stands in the
/// duplicate-free order, the order cannot be shorter than the slot count.
proof fn lemma_placed_count(order: Seq<usize>, placed: Seq<bool>, n: int)
    requires
        n >= 0,
        placed.len() == n,
        order.no_duplicates(),
        forall|k: int| 0 <= k < order.len() ==> (#[trigger] order[k]) < n,
        forall|m: int| 0 <= m < n && placed[m] ==> exists|k: int|
            0 <= k < order.len() && order[k] as int == m,
        forall|m: int| 0 <= m < n ==> placed[m],
    ensures
        order.len() >= n,
{
    let ints = order.map_values(|u: usize| u as int);
    assert(ints.no_duplicates()) by {
        assert forall|k1: int, k2: int|
            0 <= k1 < order.len() && 0 <= k2 < order.len() && k1 != k2 implies ints[k1]
            != ints[k2] by {
            assert(order[k1] != order[k2]);
        }
    }
    ints.unique_seq_to_set();
    let range = vstd::set_lib::set_int_range(0, n);
    vstd::set_lib::lemma_int_range(0, n);
    assert(range.subset_of(ints.to_set())) by {
        assert forall|x: int| range.contains(x) implies ints.to_set().contains(x) by {
            assert(placed[x]);
            let k = choose|k: int| 0 <= k < order.len() && order[k] as int == x;
            assert(ints[k] == x);
        }
    }
    vstd::set_lib::lemma_len_subset(range, ints.to_set());
}

} // verus!
