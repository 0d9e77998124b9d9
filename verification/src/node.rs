//! The common base of render-graph nodes: typed input and output links,
//! and the bindings that wire one node's output to another's input.
//!
//! A link is a named, typed slot identified by a stable numeric id. A node
//! declares an ordered list of input links and output links once; binding
//! happens per instance. Each input link holds at most one provider (a
//! strong reference, here an index into the owning graph), while each
//! output link keeps any number of weak back-references to consumers.

use vstd::prelude::*;

use crate::error::Error;
use crate::object::Id;

verus! {

pub const POSITION_LINK: Id = 1;

pub const NORMAL_LINK: Id = 2;

pub const TANGENT_LINK: Id = 3;

pub const BITANGENT_LINK: Id = 4;

pub const DEPTH_LINK: Id = 5;

pub const OCCLUSION_LINK: Id = 6;

pub const SINGLE_INPUT_LINK: Id = 7;

pub const SINGLE_OUTPUT_LINK: Id = 8;

pub const ALBEDO_LINK: Id = 9;

pub const ACCUMULATED_SHADOWS_LINK: Id = 10;

pub const COLOR_LINK: Id = 11;

pub const SHADOW_MAP_0_LINK: Id = 12;

pub const SHADOW_MAP_1_LINK: Id = 13;

pub const SHADOW_MAP_2_LINK: Id = 14;

pub const SHADOW_MAP_3_LINK: Id = 15;

pub const SHADOW_MAP_4_LINK: Id = 16;

pub const SHADOW_MAP_5_LINK: Id = 17;

/// Ids below this are reserved for built-in links; user links start here.
pub const USER_STARTING_LINK_ID: Id = 1024;

pub const G_BUFFER_FILLER_NODE: Id = 1;

pub const DEFERRED_PBR_NODE: Id = 2;

pub const SHADOW_MAPPER_NODE: Id = 3;

pub const SSAO_NODE: Id = 4;

pub const SSR_NODE: Id = 5;

pub const SHADOW_ACCUMULATOR_DIRECTIONAL_NODE: Id = 6;

pub const SHADOW_ACCUMULATOR_POINT_NODE: Id = 7;

pub const SHADOW_ACCUMULATOR_CONE_NODE: Id = 8;

/// Ids below this are reserved for built-in node kinds; user kinds start
/// here.
pub const USER_STARTING_NODE_ID: Id = 1024;

/// A bound upstream node: which graph slot provides the data, and through
/// which of its output links.
#[derive(Clone, Copy, PartialEq, Eq, Structural, Debug)]
pub struct Provider {
    pub node: usize,
    pub output_index: usize,
}

/// No two links of one list may share an id: a duplicate registration is an
/// authoring error and is rejected at construction.
pub open spec fn distinct_ids(s: Seq<Id>) -> bool {
    forall|i: int, j: int| 0 <= i < j < s.len() ==> s[i] != s[j]
}

/// No two links of one list may share a name.
pub open spec fn distinct_names(s: Seq<Seq<char>>) -> bool {
    forall|i: int, j: int| 0 <= i < j < s.len() ==> s[i] != s[j]
}

/// Link declarations and per-instance bindings shared by every node kind.
pub struct Base {
    node_id: Id,
    name: String,
    input_links_ids: Vec<Id>,
    input_links_names: Vec<String>,
    output_links_ids: Vec<Id>,
    output_links_names: Vec<String>,
    providers: Vec<Option<Provider>>,
    consumers: Vec<Vec<usize>>,
}

impl Base {
    pub closed spec fn spec_node_id(&self) -> Id {
        self.node_id
    }

    pub closed spec fn spec_name(&self) -> Seq<char> {
        self.name@
    }

    pub closed spec fn spec_input_ids(&self) -> Seq<Id> {
        self.input_links_ids@
    }

    pub closed spec fn spec_input_names(&self) -> Seq<Seq<char>> {
        self.input_links_names@.map_values(|s: String| s@)
    }

    pub closed spec fn spec_output_ids(&self) -> Seq<Id> {
        self.output_links_ids@
    }

    pub closed spec fn spec_output_names(&self) -> Seq<Seq<char>> {
        self.output_links_names@.map_values(|s: String| s@)
    }

    pub closed spec fn spec_providers(&self) -> Seq<Option<Provider>> {
        self.providers@
    }

    pub closed spec fn spec_consumers(&self) -> Seq<Seq<usize>> {
        self.consumers@.map_values(|v: Vec<usize>| v@)
    }

    /// The number of declared input links.
    pub open spec fn spec_inputs_count(&self) -> nat {
        self.spec_input_ids().len()
    }

    /// The number of declared output links.
    pub open spec fn spec_outputs_count(&self) -> nat {
        self.spec_output_ids().len()
    }

    /// Every input link is either unbound or bound to exactly one provider;
    /// link lists are parallel and free of duplicate ids and names.
    pub open spec fn wf(&self) -> bool {
        &&& self.spec_input_names().len() == self.spec_inputs_count()
        &&& self.spec_output_names().len() == self.spec_outputs_count()
        &&& self.spec_providers().len() == self.spec_inputs_count()
        &&& self.spec_consumers().len() == self.spec_outputs_count()
        &&& distinct_ids(self.spec_input_ids())
        &&& distinct_names(self.spec_input_names())
        &&& distinct_ids(self.spec_output_ids())
        &&& distinct_names(self.spec_output_names())
    }

    /// True when every declared input link has a provider bound.
    pub open spec fn all_inputs_bound(&self) -> bool {
        forall|i: int| 0 <= i < self.spec_providers().len() ==> self.spec_providers()[i] is Some
    }

    /// Builds the base of a node template. Registering the same id or the
    /// same name twice inside one node is a fatal authoring error, so the
    /// lists are required to be duplicate-free up front.
    pub fn new(
        node_id: Id,
        name: String,
        input_links_names: Vec<String>,
        input_links_ids: Vec<Id>,
        output_links_names: Vec<String>,
        output_links_ids: Vec<Id>,
    ) -> (r: Self)
        requires
            input_links_names@.len() == input_links_ids@.len(),
            output_links_names@.len() == output_links_ids@.len(),
            distinct_ids(input_links_ids@),
            distinct_names(input_links_names@.map_values(|s: String| s@)),
            distinct_ids(output_links_ids@),
            distinct_names(output_links_names@.map_values(|s: String| s@)),
        ensures
            r.wf(),
            r.spec_node_id() == node_id,
            r.spec_name() == name@,
            r.spec_input_ids() == input_links_ids@,
            r.spec_input_names() == input_links_names@.map_values(|s: String| s@),
            r.spec_output_ids() == output_links_ids@,
            r.spec_output_names() == output_links_names@.map_values(|s: String| s@),
            forall|i: int| 0 <= i < r.spec_providers().len() ==> r.spec_providers()[i] is None,
            forall|i: int| 0 <= i < r.spec_consumers().len() ==> r.spec_consumers()[i] =~= Seq::<
                usize,
            >::empty(),
    {
        let inputs_count = input_links_ids.len();
        let outputs_count = output_links_ids.len();
        let mut providers: Vec<Option<Provider>> = Vec::new();
        let mut i: usize = 0;
        while i < inputs_count
            invariant
                i <= inputs_count,
                providers@.len() == i,
                forall|k: int| 0 <= k < i ==> providers@[k] is None,
            decreases inputs_count - i,
        {
            providers.push(None);
            i = i + 1;
        }
        let mut consumers: Vec<Vec<usize>> = Vec::new();
        let mut j: usize = 0;
        while j < outputs_count
            invariant
                j <= outputs_count,
                consumers@.len() == j,
                forall|k: int| 0 <= k < j ==> consumers@[k]@ =~= Seq::<usize>::empty(),
            decreases outputs_count - j,
        {
            consumers.push(Vec::new());
            j = j + 1;
        }
        Base {
            node_id,
            name,
            input_links_names,
            input_links_ids,
            output_links_names,
            output_links_ids,
            providers,
            consumers,
        }
    }

    pub fn get_node_id(&self) -> (r: Id)
        ensures
            r == self.spec_node_id(),
    {
        self.node_id
    }

    pub fn get_name(&self) -> (r: &str)
        ensures
            r@ == self.spec_name(),
    {
        self.name.as_str()
    }

    pub fn get_input_links_ids(&self) -> (r: &Vec<Id>)
        ensures
            r@ == self.spec_input_ids(),
    {
        &self.input_links_ids
    }

    pub fn get_input_links_names(&self) -> (r: &Vec<String>)
        ensures
            r@.map_values(|s: String| s@) == self.spec_input_names(),
    {
        &self.input_links_names
    }

    pub fn get_output_links_ids(&self) -> (r: &Vec<Id>)
        ensures
            r@ == self.spec_output_ids(),
    {
        &self.output_links_ids
    }

    pub fn get_output_links_names(&self) -> (r: &Vec<String>)
        ensures
            r@.map_values(|s: String| s@) == self.spec_output_names(),
    {
        &self.output_links_names
    }

    /// Registered index of an input link id: the first position carrying it.
    pub fn get_input_link_index_by_id(&self, id: Id) -> (r: Option<usize>)
        ensures
            match r {
                Some(i) => i < self.spec_input_ids().len() && self.spec_input_ids()[i as int]
                    == id,
                None => forall|j: int|
                    0 <= j < self.spec_input_ids().len() ==> self.spec_input_ids()[j] != id,
            },
    {
        let mut i: usize = 0;
        let n = self.input_links_ids.len();
        while i < n
            invariant
                i <= n,
                n == self.spec_input_ids().len(),
                forall|j: int| 0 <= j < i ==> self.spec_input_ids()[j] != id,
            decreases n - i,
        {
            if self.input_links_ids[i] == id {
                return Some(i);
            }
            i = i + 1;
        }
        None
    }

    /// Registered index of an input link name.
    pub fn get_input_link_index_by_name(&self, name: &String) -> (r: Option<usize>)
        ensures
            match r {
                Some(i) => i < self.spec_input_names().len() && self.spec_input_names()[i as int]
                    == name@,
                None => forall|j: int|
                    0 <= j < self.spec_input_names().len() ==> self.spec_input_names()[j] != name@,
            },
    {
        let mut i: usize = 0;
        let n = self.input_links_names.len();
        while i < n
            invariant
                i <= n,
                n == self.spec_input_names().len(),
                n == self.input_links_names@.len(),
                forall|j: int| 0 <= j < i ==> self.spec_input_names()[j] != name@,
            decreases n - i,
        {
            if self.input_links_names[i] == *name {
                assert(self.spec_input_names()[i as int] == name@);
                return Some(i);
            }
            assert(self.spec_input_names()[i as int] != name@);
            i = i + 1;
        }
        None
    }

    /// Registered index of an output link id.
    pub fn get_output_link_index_by_id(&self, id: Id) -> (r: Option<usize>)
        ensures
            match r {
                Some(i) => i < self.spec_output_ids().len() && self.spec_output_ids()[i as int]
                    == id,
                None => forall|j: int|
                    0 <= j < self.spec_output_ids().len() ==> self.spec_output_ids()[j] != id,
            },
    {
        let mut i: usize = 0;
        let n = self.output_links_ids.len();
        while i < n
            invariant
                i <= n,
                n == self.spec_output_ids().len(),
                forall|j: int| 0 <= j < i ==> self.spec_output_ids()[j] != id,
            decreases n - i,
        {
            if self.output_links_ids[i] == id {
                return Some(i);
            }
            i = i + 1;
        }
        None
    }

    /// Registered index of an output link name.
    pub fn get_output_link_index_by_name(&self, name: &String) -> (r: Option<usize>)
        ensures
            match r {
                Some(i) => i < self.spec_output_names().len() && self.spec_output_names()[i as int]
                    == name@,
                None => forall|j: int|
                    0 <= j < self.spec_output_names().len() ==> self.spec_output_names()[j]
                        != name@,
            },
    {
        let mut i: usize = 0;
        let n = self.output_links_names.len();
        while i < n
            invariant
                i <= n,
                n == self.spec_output_names().len(),
                n == self.output_links_names@.len(),
                forall|j: int| 0 <= j < i ==> self.spec_output_names()[j] != name@,
            decreases n - i,
        {
            if self.output_links_names[i] == *name {
                assert(self.spec_output_names()[i as int] == name@);
                return Some(i);
            }
            assert(self.spec_output_names()[i as int] != name@);
            i = i + 1;
        }
        None
    }

    /// Binds the input link at `index` to a provider. Binding a link that is
    /// already bound replaces the old provider: the last registration wins,
    /// deterministically.
    pub fn register_provider_for_link(&mut self, index: usize, p: Provider)
        requires
            index < old(self).spec_providers().len(),
        ensures
            final(self).spec_providers() == old(self).spec_providers().update(
                index as int,
                Some(p),
            ),
            final(self).spec_node_id() == old(self).spec_node_id(),
            final(self).spec_name() == old(self).spec_name(),
            final(self).spec_input_ids() == old(self).spec_input_ids(),
            final(self).spec_input_names() == old(self).spec_input_names(),
            final(self).spec_output_ids() == old(self).spec_output_ids(),
            final(self).spec_output_names() == old(self).spec_output_names(),
            final(self).spec_consumers() == old(self).spec_consumers(),
    {
        self.providers.set(index, Some(p));
    }

    /// Appends a weak back-reference to a consumer of the output at `index`.
    pub fn register_consumer_for_link(&mut self, index: usize, c: usize)
        requires
            index < old(self).spec_consumers().len(),
        ensures
            final(self).spec_consumers() == old(self).spec_consumers().update(
                index as int,
                old(self).spec_consumers()[index as int].push(c),
            ),
            final(self).spec_node_id() == old(self).spec_node_id(),
            final(self).spec_name() == old(self).spec_name(),
            final(self).spec_input_ids() == old(self).spec_input_ids(),
            final(self).spec_input_names() == old(self).spec_input_names(),
            final(self).spec_output_ids() == old(self).spec_output_ids(),
            final(self).spec_output_names() == old(self).spec_output_names(),
            final(self).spec_providers() == old(self).spec_providers(),
    {
        let mut list = self.consumers.remove(index);
        list.push(c);
        self.consumers.insert(index, list);
        proof {
            assert(self.consumers@.map_values(|v: Vec<usize>| v@) =~= old(
                self,
            ).spec_consumers().update(
                index as int,
                old(self).spec_consumers()[index as int].push(c),
            ));
        }
    }

    /// Appends a weak consumer back-reference on the output link declared
    /// with this id; naming an id no output link declares is an authoring
    /// error and is reported, changing nothing.
    pub fn register_consumer_for_link_by_id(&mut self, id: Id, c: usize) -> (r: Result<(), Error>)
        requires
            old(self).wf(),
        ensures
            final(self).wf(),
            final(self).spec_node_id() == old(self).spec_node_id(),
            final(self).spec_name() == old(self).spec_name(),
            final(self).spec_input_ids() == old(self).spec_input_ids(),
            final(self).spec_input_names() == old(self).spec_input_names(),
            final(self).spec_output_ids() == old(self).spec_output_ids(),
            final(self).spec_output_names() == old(self).spec_output_names(),
            final(self).spec_providers() == old(self).spec_providers(),
            match r {
                Result::Ok(u) => exists|i: int|
                    0 <= i < old(self).spec_output_ids().len() && #[trigger] old(
                        self,
                    ).spec_output_ids()[i] == id && final(self).spec_consumers() == old(
                        self,
                    ).spec_consumers().update(i, old(self).spec_consumers()[i].push(c)),
                Result::Err(e) => {
                    &&& e == (Error::UnknownLinkId { link_id: id })
                    &&& *final(self) == *old(self)
                    &&& forall|i: int|
                        0 <= i < old(self).spec_output_ids().len() ==> #[trigger] old(
                            self,
                        ).spec_output_ids()[i] != id
                },
            },
    {
        match self.get_output_link_index_by_id(id) {
            Some(i) => {
                self.register_consumer_for_link(i, c);
                Ok(())
            },
            None => Err(Error::UnknownLinkId { link_id: id }),
        }
    }

    /// Appends a weak consumer back-reference on the output link declared
    /// with this name; naming a name no output link declares is an
    /// authoring error and is reported, changing nothing.
    pub fn register_consumer_for_link_by_name(&mut self, name: &String, c: usize) -> (r: Result<
        (),
        Error,
    >)
        requires
            old(self).wf(),
        ensures
            final(self).wf(),
            final(self).spec_node_id() == old(self).spec_node_id(),
            final(self).spec_name() == old(self).spec_name(),
            final(self).spec_input_ids() == old(self).spec_input_ids(),
            final(self).spec_input_names() == old(self).spec_input_names(),
            final(self).spec_output_ids() == old(self).spec_output_ids(),
            final(self).spec_output_names() == old(self).spec_output_names(),
            final(self).spec_providers() == old(self).spec_providers(),
            match r {
                Result::Ok(u) => exists|i: int|
                    0 <= i < old(self).spec_output_names().len() && #[trigger] old(
                        self,
                    ).spec_output_names()[i] == name@ && final(self).spec_consumers() == old(
                        self,
                    ).spec_consumers().update(i, old(self).spec_consumers()[i].push(c)),
                Result::Err(e) => {
                    &&& e == Error::UnknownLinkName
                    &&& *final(self) == *old(self)
                    &&& forall|i: int|
                        0 <= i < old(self).spec_output_names().len() ==> #[trigger] old(
                            self,
                        ).spec_output_names()[i] != name@
                },
            },
    {
        match self.get_output_link_index_by_name(name) {
            Some(i) => {
                self.register_consumer_for_link(i, c);
                Ok(())
            },
            None => Err(Error::UnknownLinkName),
        }
    }

    /// The provider bound to the input link at `index`, if any.
    pub fn get_link_provider(&self, index: usize) -> (r: Option<Provider>)
        requires
            index < self.spec_providers().len(),
        ensures
            r == self.spec_providers()[index as int],
    {
        self.providers[index]
    }

    pub fn get_all_providers(&self) -> (r: &Vec<Option<Provider>>)
        ensures
            r@ == self.spec_providers(),
    {
        &self.providers
    }

    /// The consumers registered on the output link at `index`.
    pub fn get_link_consumers(&self, index: usize) -> (r: &Vec<usize>)
        requires
            index < self.spec_consumers().len(),
        ensures
            r@ == self.spec_consumers()[index as int],
    {
        &self.consumers[index]
    }

    pub fn get_all_consumers(&self) -> (r: &Vec<Vec<usize>>)
        ensures
            r@.map_values(|v: Vec<usize>| v@) == self.spec_consumers(),
    {
        &self.consumers
    }

    /// A fresh copy for a new instance: the immutable link declarations are
    /// kept, the per-instance bindings start out empty.
    pub fn create_new(&self) -> (r: Self)
        requires
            self.wf(),
        ensures
            r.wf(),
            r.spec_node_id() == self.spec_node_id(),
            r.spec_name() == self.spec_name(),
            r.spec_input_ids() == self.spec_input_ids(),
            r.spec_input_names() == self.spec_input_names(),
            r.spec_output_ids() == self.spec_output_ids(),
            r.spec_output_names() == self.spec_output_names(),
            forall|i: int| 0 <= i < r.spec_providers().len() ==> r.spec_providers()[i] is None,
            forall|i: int| 0 <= i < r.spec_consumers().len() ==> r.spec_consumers()[i] =~= Seq::<
                usize,
            >::empty(),
    {
        Base::new(
            self.node_id,
            self.name.clone(),
            self.input_links_names.clone(),
            self.input_links_ids.clone(),
            self.output_links_names.clone(),
            self.output_links_ids.clone(),
        )
    }
}

} // verus!
