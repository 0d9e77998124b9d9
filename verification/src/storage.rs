//! Keyed stores for engine objects: an owning store addressed by id and
//! by name, and a weak registry over it.
//!
//! The weak registry holds no value, only keys: looking a key up
//! "upgrades" it against the owning store and fails once the owner has
//! dropped the object. `clean` discards the keys of dropped objects. This
//! reconstructs weak references as an explicit rule: the registry never
//! keeps an object alive.

use vstd::prelude::*;

use crate::object::{Id, Object};

verus! {

/// The element occurs somewhere in the sequence.
pub open spec fn seq_has<T>(s: Seq<T>, e: T) -> bool {
    exists|j: int| 0 <= j < s.len() && s[j] == e
}

/// One stored object with its keys.
pub struct Entry<T> {
    pub id: Id,
    pub name: Option<String>,
    pub value: T,
}

/// The entry's name as a sequence of characters, if it has one.
pub open spec fn entry_name<T>(e: Entry<T>) -> Option<Seq<char>> {
    match e.name {
        Some(n) => Some(n@),
        None => None,
    }
}

/// An owning store addressed by id and, for named objects, by name.
pub struct Storage<T> {
    entries: Vec<Entry<T>>,
}

impl<T> Storage<T> {
    pub closed spec fn spec_entries(&self) -> Seq<Entry<T>> {
        self.entries@
    }

    /// Whether some stored object carries this id.
    pub open spec fn contains_id(&self, id: Id) -> bool {
        exists|j: int| 0 <= j < self.spec_entries().len() && self.spec_entries()[j].id == id
    }

    /// Whether some stored object carries this name.
    pub open spec fn contains_name(&self, name: Seq<char>) -> bool {
        exists|j: int|
            0 <= j < self.spec_entries().len() && entry_name(self.spec_entries()[j]) == Some(name)
    }

    /// Ids are unique, and so are the names of the named objects.
    pub open spec fn wf(&self) -> bool {
        &&& forall|i: int, j: int|
            0 <= i < j < self.spec_entries().len() ==> self.spec_entries()[i].id
                != self.spec_entries()[j].id
        &&& forall|i: int, j: int|
            0 <= i < j < self.spec_entries().len() ==> (entry_name(self.spec_entries()[i]) is Some
                ==> entry_name(self.spec_entries()[i]) != entry_name(self.spec_entries()[j]))
    }

    pub fn new() -> (r: Self)
        ensures
            r.wf(),
            r.spec_entries().len() == 0,
    {
        Storage { entries: Vec::new() }
    }

    /// Stores an object under its own id and name. Storing a second object
    /// under an id or name already present is an authoring error and is
    /// excluded up front.
    pub fn insert(&mut self, t: T) where T: Object
        requires
            old(self).wf(),
            !old(self).contains_id(t.spec_id()),
            t.spec_name() matches Some(n) ==> !old(self).contains_name(n),
        ensures
            final(self).wf(),
            final(self).spec_entries().len() == old(self).spec_entries().len() + 1,
            forall|j: int|
                0 <= j < old(self).spec_entries().len() ==> final(self).spec_entries()[j] == old(
                    self,
                ).spec_entries()[j],
            final(self).spec_entries().last().id == t.spec_id(),
            entry_name(final(self).spec_entries().last()) == t.spec_name(),
            final(self).spec_entries().last().value == t,
    {
        let id = t.get_id();
        let name = match t.get_name() {
            Some(n) => Some(n.to_owned()),
            None => None,
        };
        self.entries.push(Entry { id, name, value: t });
    }

    /// The object stored under this id, if any.
    pub fn get_with_id(&self, id: Id) -> (r: Option<&T>)
        ensures
            match r {
                Some(v) => exists|j: int|
                    0 <= j < self.spec_entries().len() && self.spec_entries()[j].id == id
                        && *v == self.spec_entries()[j].value,
                None => !self.contains_id(id),
            },
    {
        let n = self.entries.len();
        let mut i: usize = 0;
        while i < n
            invariant
                i <= n,
                n == self.spec_entries().len(),
                forall|j: int| 0 <= j < i ==> self.spec_entries()[j].id != id,
            decreases n - i,
        {
            if self.entries[i].id == id {
                return Some(&self.entries[i].value);
            }
            i = i + 1;
        }
        None
    }

    /// The object stored under this name, if any.
    pub fn get_with_name(&self, name: &String) -> (r: Option<&T>)
        ensures
            match r {
                Some(v) => exists|j: int|
                    0 <= j < self.spec_entries().len() && entry_name(self.spec_entries()[j])
                        == Some(name@) && *v == self.spec_entries()[j].value,
                None => !self.contains_name(name@),
            },
    {
        let n = self.entries.len();
        let mut i: usize = 0;
        while i < n
            invariant
                i <= n,
                n == self.spec_entries().len(),
                forall|j: int| 0 <= j < i ==> entry_name(self.spec_entries()[j]) != Some(name@),
            decreases n - i,
        {
            let hit = match &self.entries[i].name {
                Some(en) => *en == *name,
                None => false,
            };
            if hit {
                return Some(&self.entries[i].value);
            }
            proof {
                assert(entry_name(self.spec_entries()[i as int]) != Some(name@));
            }
            i = i + 1;
        }
        None
    }

    /// Drops the object stored under this id, with its name key.
    pub fn delete_with_id(&mut self, id: Id)
        requires
            old(self).wf(),
        ensures
            final(self).wf(),
            !final(self).contains_id(id),
            forall|k: int|
                0 <= k < final(self).spec_entries().len() ==> seq_has(
                    old(self).spec_entries(),
                    #[trigger] final(self).spec_entries()[k],
                ),
            forall|j: int|
                0 <= j < old(self).spec_entries().len() && (#[trigger] old(
                    self,
                ).spec_entries()[j]).id != id ==> seq_has(
                    final(self).spec_entries(),
                    old(self).spec_entries()[j],
                ),
    {
        let n = self.entries.len();
        let mut i: usize = 0;
        while i < n
            invariant
                old(self).wf(),
                i <= n,
                n == old(self).spec_entries().len(),
                *self == *old(self),
                forall|j: int| 0 <= j < i ==> self.spec_entries()[j].id != id,
            decreases n - i,
        {
            if self.entries[i].id == id {
                self.entries.remove(i);
                proof {
                    assert forall|k: int|
                        0 <= k < self.spec_entries().len() implies seq_has(
                        old(self).spec_entries(),
                        #[trigger] self.spec_entries()[k],
                    ) by {
                        if k < i {
                            assert(self.spec_entries()[k] == old(self).spec_entries()[k]);
                        } else {
                            assert(self.spec_entries()[k] == old(self).spec_entries()[k + 1]);
                        }
                    }
                    assert forall|j: int|
                        0 <= j < old(self).spec_entries().len() && (#[trigger] old(
                            self,
                        ).spec_entries()[j]).id != id implies seq_has(
                        self.spec_entries(),
                        old(self).spec_entries()[j],
                    ) by {
                        if j < i {
                            assert(self.spec_entries()[j] == old(self).spec_entries()[j]);
                        } else {
                            assert(j != i);
                            assert(self.spec_entries()[j - 1] == old(self).spec_entries()[j]);
                        }
                    }
                }
                return ;
            }
            i = i + 1;
        }
    }

    /// Drops the object stored under this name, with its id key.
    pub fn delete_with_name(&mut self, name: &String)
        requires
            old(self).wf(),
        ensures
            final(self).wf(),
            !final(self).contains_name(name@),
            forall|k: int|
                0 <= k < final(self).spec_entries().len() ==> seq_has(
                    old(self).spec_entries(),
                    #[trigger] final(self).spec_entries()[k],
                ),
            forall|j: int|
                0 <= j < old(self).spec_entries().len() && entry_name(
                    #[trigger] old(self).spec_entries()[j],
                ) != Some(name@) ==> seq_has(
                    final(self).spec_entries(),
                    old(self).spec_entries()[j],
                ),
    {
        let n = self.entries.len();
        let mut i: usize = 0;
        while i < n
            invariant
                old(self).wf(),
                i <= n,
                n == old(self).spec_entries().len(),
                *self == *old(self),
                forall|j: int| 0 <= j < i ==> entry_name(self.spec_entries()[j]) != Some(name@),
            decreases n - i,
        {
            let hit = match &self.entries[i].name {
                Some(en) => *en == *name,
                None => false,
            };
            if hit {
                self.entries.remove(i);
                proof {
                    assert forall|k: int|
                        0 <= k < self.spec_entries().len() implies seq_has(
                        old(self).spec_entries(),
                        #[trigger] self.spec_entries()[k],
                    ) by {
                        if k < i {
                            assert(self.spec_entries()[k] == old(self).spec_entries()[k]);
                        } else {
                            assert(self.spec_entries()[k] == old(self).spec_entries()[k + 1]);
                        }
                    }
                    assert forall|j: int|
                        0 <= j < old(self).spec_entries().len() && entry_name(
                            #[trigger] old(self).spec_entries()[j],
                        ) != Some(name@) implies seq_has(
                        self.spec_entries(),
                        old(self).spec_entries()[j],
                    ) by {
                        if j < i {
                            assert(self.spec_entries()[j] == old(self).spec_entries()[j]);
                        } else {
                            assert(j != i);
                            assert(self.spec_entries()[j - 1] == old(self).spec_entries()[j]);
                        }
                    }
                }
                return ;
            }
            proof {
                assert(entry_name(self.spec_entries()[i as int]) != Some(name@));
            }
            i = i + 1;
        }
    }
}

/// One weak key: the id and name an object was registered under.
#[derive(Clone, PartialEq, Eq, Debug)]
pub struct WeakEntry {
    pub id: Id,
    pub name: Option<String>,
}

/// The weak entry's name view.
pub open spec fn weak_entry_name(e: WeakEntry) -> Option<Seq<char>> {
    match e.name {
        Some(n) => Some(n@),
        None => None,
    }
}

/// A weak registry: keys without ownership. A lookup upgrades the key
/// against the owning store and fails once the owner dropped the object.
pub struct WeakStorage {
    entries: Vec<WeakEntry>,
}

impl WeakStorage {
    pub closed spec fn spec_entries(&self) -> Seq<WeakEntry> {
        self.entries@
    }

    pub open spec fn contains_id(&self, id: Id) -> bool {
        exists|j: int| 0 <= j < self.spec_entries().len() && self.spec_entries()[j].id == id
    }

    pub open spec fn contains_name(&self, name: Seq<char>) -> bool {
        exists|j: int|
            0 <= j < self.spec_entries().len() && weak_entry_name(self.spec_entries()[j]) == Some(
                name,
            )
    }

    pub open spec fn wf(&self) -> bool {
        &&& forall|i: int, j: int|
            0 <= i < j < self.spec_entries().len() ==> self.spec_entries()[i].id
                != self.spec_entries()[j].id
        &&& forall|i: int, j: int|
            0 <= i < j < self.spec_entries().len() ==> (weak_entry_name(self.spec_entries()[i])
                is Some ==> weak_entry_name(self.spec_entries()[i]) != weak_entry_name(
                self.spec_entries()[j],
            ))
    }

    pub fn new() -> (r: Self)
        ensures
            r.wf(),
            r.spec_entries().len() == 0,
    {
        WeakStorage { entries: Vec::new() }
    }

    /// Registers a key. Registering an id or name twice is an authoring
    /// error and is excluded up front.
    pub fn insert(&mut self, id: Id, name: Option<String>)
        requires
            old(self).wf(),
            !old(self).contains_id(id),
            name matches Some(n) ==> !old(self).contains_name(n@),
        ensures
            final(self).wf(),
            final(self).spec_entries().len() == old(self).spec_entries().len() + 1,
            forall|j: int|
                0 <= j < old(self).spec_entries().len() ==> final(self).spec_entries()[j] == old(
                    self,
                ).spec_entries()[j],
            final(self).spec_entries().last().id == id,
            weak_entry_name(final(self).spec_entries().last()) == (match name {
                Some(n) => Some(n@),
                None => None::<Seq<char>>,
            }),
            final(self).contains_id(id),
    {
        self.entries.push(WeakEntry { id, name });
    }

    /// Upgrades the key registered under `id` against the owner: the
    /// owner's object when the key is registered and the object is still
    /// held, nothing otherwise.
    pub fn get_with_id<'o, T>(&self, id: Id, owner: &'o Storage<T>) -> (r: Option<&'o T>)
        ensures
            match r {
                Some(v) => self.contains_id(id) && exists|j: int|
                    0 <= j < owner.spec_entries().len() && owner.spec_entries()[j].id == id && *v
                        == owner.spec_entries()[j].value,
                None => !self.contains_id(id) || !owner.contains_id(id),
            },
    {
        let n = self.entries.len();
        let mut i: usize = 0;
        while i < n
            invariant
                i <= n,
                n == self.spec_entries().len(),
                forall|j: int| 0 <= j < i ==> self.spec_entries()[j].id != id,
            decreases n - i,
        {
            if self.entries[i].id == id {
                return owner.get_with_id(id);
            }
            i = i + 1;
        }
        None
    }

    /// Upgrades the key registered under `name` against the owner; the
    /// object is looked up by the registered id, the stable key.
    pub fn get_with_name<'o, T>(&self, name: &String, owner: &'o Storage<T>) -> (r: Option<&'o T>)
        ensures
            match r {
                Some(v) => self.contains_name(name@) && exists|j: int, e: int|
                    0 <= j < owner.spec_entries().len() && 0 <= e < self.spec_entries().len()
                        && weak_entry_name(self.spec_entries()[e]) == Some(name@)
                        && owner.spec_entries()[j].id == self.spec_entries()[e].id && *v
                        == owner.spec_entries()[j].value,
                None => !self.contains_name(name@) || exists|e: int|
                    0 <= e < self.spec_entries().len() && weak_entry_name(self.spec_entries()[e])
                        == Some(name@) && !owner.contains_id(self.spec_entries()[e].id),
            },
    {
        let n = self.entries.len();
        let mut i: usize = 0;
        while i < n
            invariant
                i <= n,
                n == self.spec_entries().len(),
                forall|j: int| 0 <= j < i ==> weak_entry_name(self.spec_entries()[j]) != Some(
                    name@,
                ),
            decreases n - i,
        {
            let hit = match &self.entries[i].name {
                Some(en) => *en == *name,
                None => false,
            };
            if hit {
                return owner.get_with_id(self.entries[i].id);
            }
            proof {
                assert(weak_entry_name(self.spec_entries()[i as int]) != Some(name@));
            }
            i = i + 1;
        }
        None
    }

    /// Drops every key whose object the owner no longer holds.
    pub fn clean<T>(&mut self, owner: &Storage<T>)
        requires
            old(self).wf(),
        ensures
            final(self).wf(),
            forall|k: int|
                0 <= k < final(self).spec_entries().len() ==> seq_has(
                    old(self).spec_entries(),
                    #[trigger] final(self).spec_entries()[k],
                ) && owner.contains_id(final(self).spec_entries()[k].id),
            forall|j: int|
                0 <= j < old(self).spec_entries().len() && owner.contains_id(
                    (#[trigger] old(self).spec_entries()[j]).id,
                ) ==> seq_has(final(self).spec_entries(), old(self).spec_entries()[j]),
    {
        let n = self.entries.len();
        let mut kept: Vec<WeakEntry> = Vec::new();
        let mut i: usize = 0;
        while i < n
            invariant
                old(self).wf(),
                i <= n,
                n == old(self).spec_entries().len(),
                *self == *old(self),
                forall|k: int|
                    0 <= k < kept@.len() ==> seq_has(
                        old(self).spec_entries().subrange(0, i as int),
                        #[trigger] kept@[k],
                    ) && owner.contains_id(kept@[k].id),
                forall|j: int|
                    0 <= j < i && owner.contains_id((#[trigger] old(self).spec_entries()[j]).id)
                        ==> seq_has(kept@, old(self).spec_entries()[j]),
                forall|a: int, b: int| 0 <= a < b < kept@.len() ==> kept@[a].id != kept@[b].id,
                forall|a: int, b: int|
                    0 <= a < b < kept@.len() ==> (weak_entry_name(kept@[a]) is Some
                        ==> weak_entry_name(kept@[a]) != weak_entry_name(kept@[b])),
            decreases n - i,
        {
            let ghost kept0 = kept@;
            let alive = match owner.get_with_id(self.entries[i].id) {
                Some(v) => true,
                None => false,
            };
            if alive {
                let e = &self.entries[i];
                kept.push(WeakEntry { id: e.id, name: clone_opt_name(&e.name) });
                proof {
                    assert(kept@.last() == old(self).spec_entries()[i as int]);
                }
            }
            proof {
                let entries = old(self).spec_entries();
                let sub_i = entries.subrange(0, i as int);
                let sub_i1 = entries.subrange(0, i as int + 1);
                assert(sub_i1 =~= sub_i.push(entries[i as int]));
                assert forall|k: int|
                    0 <= k < kept@.len() implies seq_has(sub_i1, #[trigger] kept@[k])
                    && owner.contains_id(kept@[k].id) by {
                    if k < kept0.len() {
                        assert(kept@[k] == kept0[k]);
                        let j = choose|j: int| 0 <= j < sub_i.len() && sub_i[j] == kept0[k];
                        assert(sub_i1[j] == sub_i[j]);
                    } else {
                        assert(kept@[k] == entries[i as int]);
                        assert(sub_i1[i as int] == entries[i as int]);
                    }
                }
                assert forall|j: int|
                    0 <= j < i + 1 && owner.contains_id(
                        (#[trigger] entries[j]).id,
                    ) implies seq_has(kept@, entries[j]) by {
                    if j < i {
                        let k = choose|k: int| 0 <= k < kept0.len() && kept0[k] == entries[j];
                        assert(kept@[k] == entries[j]);
                    } else {
                        assert(alive);
                        assert(kept@[kept@.len() - 1] == entries[i as int]);
                    }
                }
                assert forall|a: int, b: int|
                    0 <= a < b < kept@.len() implies kept@[a].id != kept@[b].id && (weak_entry_name(
                    kept@[a],
                ) is Some ==> weak_entry_name(kept@[a]) != weak_entry_name(kept@[b])) by {
                    if b < kept0.len() {
                    } else {
                        assert(kept@[b] == entries[i as int]);
                        let ja = choose|ja: int| 0 <= ja < sub_i.len() && sub_i[ja] == kept@[a];
                        assert(entries[ja] == kept@[a]);
                        assert(entries[ja].id != entries[i as int].id);
                    }
                }
            }
            i = i + 1;
        }
        proof {
            assert(old(self).spec_entries().subrange(0, n as int) =~= old(self).spec_entries());
        }
        self.entries = kept;
    }
}

/// An exact copy of an optional name.
fn clone_opt_name(n: &Option<String>) -> (r: Option<String>)
    ensures
        r == *n,
{
    match n {
        Some(s) => Some(s.clone()),
        None => None,
    }
}

} // verus!
