//! The node-template manager: a registry of templates keyed by kind id and
//! name. Templates are registered weakly, so the registry never keeps an
//! unused template alive; asking for a node clones the template into a
//! live instance bound to the current engine context.

use vstd::prelude::*;

use crate::effect;
use crate::gapi::Engine;
use crate::object::Id;
use crate::storage::{Storage, WeakStorage};

verus! {

/// Every template the owner holds is well formed and fits this engine's
/// worker pool.
pub open spec fn owner_templates_ok(owner: Storage<effect::Base>, eng: Engine) -> bool {
    forall|j: int|
        0 <= j < owner.spec_entries().len() ==> (#[trigger] owner.spec_entries()[j]).value.wf() && (
        owner.spec_entries()[j].value.spec_sec_count() > 1
            ==> owner.spec_entries()[j].value.spec_sec_count() <= eng.spec_kernels_data().len())
}

/// The registry of node templates.
pub struct Manager {
    storage: WeakStorage,
}

impl Manager {
    pub closed spec fn spec_storage(&self) -> WeakStorage {
        self.storage
    }

    pub open spec fn wf(&self) -> bool {
        self.spec_storage().wf()
    }

    pub fn new() -> (r: Self)
        ensures
            r.wf(),
            r.spec_storage().spec_entries().len() == 0,
    {
        Manager { storage: WeakStorage::new() }
    }

    /// Registers a template under its node kind id and display name.
    /// Registering the same id or name twice is an authoring error.
    pub fn insert(&mut self, n: &effect::Base)
        requires
            old(self).wf(),
            !old(self).spec_storage().contains_id(n.base.spec_node_id()),
            !old(self).spec_storage().contains_name(n.base.spec_name()),
        ensures
            final(self).wf(),
            final(self).spec_storage().spec_entries().len() == old(
                self,
            ).spec_storage().spec_entries().len() + 1,
            forall|j: int|
                0 <= j < old(self).spec_storage().spec_entries().len()
                    ==> final(self).spec_storage().spec_entries()[j] == old(
                    self,
                ).spec_storage().spec_entries()[j],
            final(self).spec_storage().spec_entries().last().id == n.base.spec_node_id(),
            crate::storage::weak_entry_name(final(self).spec_storage().spec_entries().last())
                == Some(n.base.spec_name()),
            final(self).spec_storage().contains_id(n.base.spec_node_id()),
    {
        let id = n.base.get_node_id();
        let name = n.base.get_name().to_owned();
        self.storage.insert(id, Some(name));
    }

    /// A fresh instance of the template registered under this kind id, if
    /// the registration is live: the template must both be registered here
    /// and still be held by its owner.
    pub fn get_with_id(
        &self,
        id: Id,
        owner: &Storage<effect::Base>,
        eng: &mut Engine,
    ) -> (r: Option<effect::Base>)
        requires
            owner_templates_ok(*owner, *old(eng)),
            1 <= old(eng).spec_frames_data().len() <= 100000,
            old(eng).spec_next_handle() + 0x400000000 <= u64::MAX,
        ensures
            match r {
                Some(inst) => {
                    &&& exists|j: int|
                        0 <= j < owner.spec_entries().len() && (#[trigger] owner.spec_entries()[j]).id
                            == id && effect::instance_of(inst, owner.spec_entries()[j].value)
                    &&& inst.wf()
                    &&& inst.render_data.in_range(
                        old(eng).spec_next_handle() as int,
                        final(eng).spec_next_handle() as int,
                    )
                    &&& Engine::static_state_eq(*old(eng), *final(eng))
                    &&& final(eng).spec_current_frame() == old(eng).spec_current_frame()
                    &&& final(eng).spec_actions() == old(eng).spec_actions()
                    &&& final(eng).spec_next_handle() <= old(eng).spec_next_handle()
                        + 0x400000000
                },
                None => {
                    &&& *final(eng) == *old(eng)
                    &&& (!self.spec_storage().contains_id(id) || !owner.contains_id(id))
                },
            },
    {
        match self.storage.get_with_id(id, owner) {
            Some(t) => {
                proof {
                    let j = choose|j: int|
                        0 <= j < owner.spec_entries().len() && owner.spec_entries()[j].id == id
                            && *t == owner.spec_entries()[j].value;
                    assert(owner.spec_entries()[j].value.wf());
                }
                Some(t.create_new(eng))
            },
            None => None,
        }
    }

    /// A fresh instance of the template registered under this name, if the
    /// registration is live: the name must be registered here and the
    /// template stored under the registered key must still be held by its
    /// owner; on a live registration an instance is always returned.
    pub fn get_with_name(
        &self,
        name: &String,
        owner: &Storage<effect::Base>,
        eng: &mut Engine,
    ) -> (r: Option<effect::Base>)
        requires
            owner_templates_ok(*owner, *old(eng)),
            1 <= old(eng).spec_frames_data().len() <= 100000,
            old(eng).spec_next_handle() + 0x400000000 <= u64::MAX,
        ensures
            match r {
                Some(inst) => {
                    &&& exists|j: int, e: int|
                        0 <= j < owner.spec_entries().len() && 0 <= e < self.spec_storage().spec_entries().len()
                            && crate::storage::weak_entry_name(
                            #[trigger] self.spec_storage().spec_entries()[e],
                        ) == Some(name@) && (#[trigger] owner.spec_entries()[j]).id
                            == self.spec_storage().spec_entries()[e].id && effect::instance_of(
                            inst,
                            owner.spec_entries()[j].value,
                        )
                    &&& inst.wf()
                    &&& inst.render_data.in_range(
                        old(eng).spec_next_handle() as int,
                        final(eng).spec_next_handle() as int,
                    )
                    &&& Engine::static_state_eq(*old(eng), *final(eng))
                    &&& final(eng).spec_current_frame() == old(eng).spec_current_frame()
                    &&& final(eng).spec_actions() == old(eng).spec_actions()
                    &&& final(eng).spec_next_handle() <= old(eng).spec_next_handle()
                        + 0x400000000
                },
                None => {
                    &&& *final(eng) == *old(eng)
                    &&& (!self.spec_storage().contains_name(name@) || exists|e: int|
                        0 <= e < self.spec_storage().spec_entries().len()
                            && crate::storage::weak_entry_name(
                            #[trigger] self.spec_storage().spec_entries()[e],
                        ) == Some(name@) && !owner.contains_id(
                            self.spec_storage().spec_entries()[e].id,
                        ))
                },
            },
    {
        match self.storage.get_with_name(name, owner) {
            Some(t) => {
                proof {
                    let (j, e) = choose|j: int, e: int|
                        0 <= j < owner.spec_entries().len() && 0 <= e
                            < self.spec_storage().spec_entries().len() && crate::storage::weak_entry_name(
                            self.spec_storage().spec_entries()[e],
                        ) == Some(name@) && owner.spec_entries()[j].id
                            == self.spec_storage().spec_entries()[e].id && *t
                            == owner.spec_entries()[j].value;
                    assert(owner.spec_entries()[j].value.wf());
                }
                Some(t.create_new(eng))
            },
            None => None,
        }
    }
}

} // verus!
