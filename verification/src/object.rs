//! Object identity: process-wide unique ids and the common object base.

use vstd::prelude::*;

verus! {

/// A stable numeric identifier for engine objects, links and node kinds.
pub type Id = u64;

/// Source of fresh ids: a monotonic counter.
///
/// The running engine keeps one generator (behind its own lock) and every
/// id is drawn from it, so uniqueness needs nothing beyond monotonicity.
pub struct IdGenerator {
    next: u64,
}

impl IdGenerator {
    /// The id the next call of `create_id` will return.
    pub closed spec fn spec_next(&self) -> u64 {
        self.next
    }

    pub fn new() -> (r: Self)
        ensures
            r.spec_next() == 1,
    {
        IdGenerator { next: 1 }
    }

    /// Draws a fresh id: every id handed out earlier is smaller.
    pub fn create_id(&mut self) -> (r: Id)
        requires
            old(self).spec_next() < u64::MAX,
        ensures
            r == old(self).spec_next(),
            final(self).spec_next() == old(self).spec_next() + 1,
    {
        let r = self.next;
        self.next = self.next + 1;
        r
    }
}

/// Anything stored by id and, optionally, by name.
pub trait Object {
    spec fn spec_id(&self) -> Id;

    spec fn spec_name(&self) -> Option<Seq<char>>;

    fn get_id(&self) -> (r: Id)
        ensures
            r == self.spec_id(),
    ;

    fn get_name(&self) -> (r: Option<&str>)
        ensures
            match r {
                Some(n) => self.spec_name() == Some(n@),
                None => self.spec_name() is None,
            },
    ;
}

/// The common base of identified objects: an id and an optional name.
pub struct Base {
    id: Id,
    name: Option<String>,
}

impl Base {
    pub fn builder() -> (r: Builder)
        ensures
            r.spec_id() is None,
            r.spec_name() is None,
    {
        Builder { id: None, name: None }
    }
}

impl Object for Base {
    closed spec fn spec_id(&self) -> Id {
        self.id
    }

    closed spec fn spec_name(&self) -> Option<Seq<char>> {
        match self.name {
            Some(n) => Some(n@),
            None => None,
        }
    }

    fn get_id(&self) -> (r: Id) {
        self.id
    }

    fn get_name(&self) -> (r: Option<&str>) {
        match &self.name {
            Some(n) => Some(n.as_str()),
            None => None,
        }
    }
}

/// Step-by-step construction of a `Base`.
pub struct Builder {
    id: Option<Id>,
    name: Option<String>,
}

impl Builder {
    pub closed spec fn spec_id(&self) -> Option<Id> {
        self.id
    }

    pub closed spec fn spec_name(&self) -> Option<Seq<char>> {
        match self.name {
            Some(n) => Some(n@),
            None => None,
        }
    }

    pub fn id(self, id: Id) -> (r: Self)
        ensures
            r.spec_id() == Some(id),
            r.spec_name() == self.spec_name(),
    {
        Builder { id: Some(id), name: self.name }
    }

    pub fn name(self, name: String) -> (r: Self)
        ensures
            r.spec_id() == self.spec_id(),
            r.spec_name() == Some(name@),
    {
        Builder { id: self.id, name: Some(name) }
    }

    /// Finishes the base; an id not chosen by the caller is drawn fresh.
    pub fn build(self, gen: &mut IdGenerator) -> (r: Base)
        requires
            old(gen).spec_next() < u64::MAX,
        ensures
            match self.spec_id() {
                Some(id) => r.spec_id() == id && *final(gen) == *old(gen),
                None => r.spec_id() == old(gen).spec_next()
                    && final(gen).spec_next() == old(gen).spec_next() + 1,
            },
            r.spec_name() == self.spec_name(),
    {
        let id = match self.id {
            Some(id) => id,
            None => gen.create_id(),
        };
        Base { id, name: self.name }
    }
}

} // verus!
