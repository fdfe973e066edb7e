//! The two duplicate filters that feed adapters apply before handing a slot on.
use vstd::prelude::*;
use std::collections::HashSet;

verus! {

broadcast use vstd::std_specs::hash::group_hash_axioms;

/// Lets a key through only when it is larger than the last key let through.
pub struct ChangeDedup {
    last: Option<u64>,
}

impl View for ChangeDedup {
    type V = Option<u64>;

    closed spec fn view(&self) -> Option<u64> {
        self.last
    }
}

pub open spec fn change_passes(last: Option<u64>, key: u64) -> bool {
    match last {
        None => true,
        Some(l) => key > l,
    }
}

impl ChangeDedup {
    pub fn new() -> (r: ChangeDedup)
        ensures
            r@ is None,
    {
        ChangeDedup { last: None }
    }

    /// Whether `key` goes on; if it does, it becomes the last key let through.
    pub fn pass(&mut self, key: u64) -> (r: bool)
        ensures
            r == change_passes(old(self)@, key),
            final(self)@ == if r { Some(key) } else { old(self)@ },
    {
        let r = match self.last {
            None => true,
            Some(l) => key > l,
        };
        if r {
            self.last = Some(key);
        }
        r
    }

    /// The last key let through.
    pub fn last(&self) -> (r: Option<u64>)
        ensures
            r == self@,
    {
        self.last
    }
}

/// Lets a key through the first time it is seen.
pub struct SetDedup {
    seen: HashSet<u64>,
}

impl View for SetDedup {
    type V = Set<u64>;

    closed spec fn view(&self) -> Set<u64> {
        self.seen@
    }
}

impl SetDedup {
    pub fn new() -> (r: SetDedup)
        ensures
            r@ == Set::<u64>::empty(),
    {
        SetDedup { seen: HashSet::new() }
    }

    /// Whether `key` is new; it is remembered either way.
    pub fn pass(&mut self, key: u64) -> (r: bool)
        ensures
            r == !old(self)@.contains(key),
            final(self)@ == old(self)@.insert(key),
    {
        self.seen.insert(key)
    }

    /// Whether `key` has been let through.
    pub fn has_seen(&self, key: u64) -> (r: bool)
        ensures
            r == self@.contains(key),
    {
        self.seen.contains(&key)
    }
}

} // verus!
