//! The correlation table: per-feed pending observations and the set of keys
//! whose race is already decided.
use vstd::prelude::*;
use std::collections::HashMap;
use std::collections::HashSet;
use crate::feed::{Feed, Observation, CorrelationEvent, race_outcome, decide_race};

verus! {

broadcast use vstd::std_specs::hash::group_hash_axioms;

/// What the table holds: the timestamp of each key still waiting on each feed,
/// and the keys that have been matched.
pub struct TableView {
    pub pending_a: Map<u64, u128>,
    pub pending_b: Map<u64, u128>,
    pub settled: Set<u64>,
}

impl TableView {
    pub open spec fn empty() -> TableView {
        TableView { pending_a: Map::empty(), pending_b: Map::empty(), settled: Set::empty() }
    }

    pub open spec fn pending(self, feed: Feed) -> Map<u64, u128> {
        match feed {
            Feed::A => self.pending_a,
            Feed::B => self.pending_b,
        }
    }

    /// A key waits on at most one feed, and a settled key waits on none.
    pub open spec fn wf(self) -> bool {
        forall|k: u64|
            {
                &&& !(#[trigger] self.pending_a.contains_key(k) && self.pending_b.contains_key(k))
                &&& self.settled.contains(k) ==> !self.pending_a.contains_key(k)
                    && !self.pending_b.contains_key(k)
            }
    }

    pub open spec fn with_pending(self, feed: Feed, m: Map<u64, u128>) -> TableView {
        match feed {
            Feed::A => TableView { pending_a: m, ..self },
            Feed::B => TableView { pending_b: m, ..self },
        }
    }
}

/// Recording one observation. A key already settled is ignored. A key waiting
/// on the other feed is matched: it leaves that feed's pending map, becomes
/// settled, and the race is decided. Otherwise the observation waits, replacing
/// any earlier timestamp of the same key on the same feed.
pub open spec fn record_spec(v: TableView, o: Observation) -> (TableView, Option<CorrelationEvent>) {
    let other = o.feed.spec_other();
    if v.settled.contains(o.key) {
        (v, None)
    } else if v.pending(other).contains_key(o.key) {
        let t_other = v.pending(other)[o.key];
        (
            TableView { settled: v.settled.insert(o.key), ..v.with_pending(other, v.pending(other).remove(o.key)) },
            Some(race_outcome(o.feed, o.key, o.timestamp, t_other)),
        )
    } else {
        (v.with_pending(o.feed, v.pending(o.feed).insert(o.key, o.timestamp)), None)
    }
}

pub proof fn lemma_record_preserves_wf(v: TableView, o: Observation)
    requires
        v.wf(),
    ensures
        record_spec(v, o).0.wf(),
{
    let w = record_spec(v, o).0;
    assert forall|k: u64|
        {
            &&& !(#[trigger] w.pending_a.contains_key(k) && w.pending_b.contains_key(k))
            &&& w.settled.contains(k) ==> !w.pending_a.contains_key(k) && !w.pending_b.contains_key(k)
        } by {
        assert(v.pending_a.contains_key(k) ==> !v.pending_b.contains_key(k));
    }
}

/// Pending observations of both feeds and the keys already matched.
pub struct CorrelationTable {
    pending_a: HashMap<u64, u128>,
    pending_b: HashMap<u64, u128>,
    settled: HashSet<u64>,
}

impl View for CorrelationTable {
    type V = TableView;

    closed spec fn view(&self) -> TableView {
        TableView { pending_a: self.pending_a@, pending_b: self.pending_b@, settled: self.settled@ }
    }
}

impl CorrelationTable {
    pub fn new() -> (r: CorrelationTable)
        ensures
            r@ == TableView::empty(),
            r@.wf(),
    {
        let r = CorrelationTable { pending_a: HashMap::new(), pending_b: HashMap::new(), settled: HashSet::new() };
        assert(r@.pending_a == Map::<u64, u128>::empty());
        assert(r@.pending_b == Map::<u64, u128>::empty());
        assert(r@.settled == Set::<u64>::empty());
        r
    }

    /// Records an observation and returns the race it decides, if any.
    pub fn record(&mut self, obs: Observation) -> (r: Option<CorrelationEvent>)
        requires
            old(self)@.wf(),
        ensures
            (final(self)@, r) == record_spec(old(self)@, obs),
            final(self)@.wf(),
    {
        proof {
            lemma_record_preserves_wf(self@, obs);
        }
        let ghost v0 = self@;
        let key = obs.key;
        if self.settled.contains(&key) {
            return None;
        }
        let found = match obs.feed {
            Feed::A => self.pending_b.remove(&key),
            Feed::B => self.pending_a.remove(&key),
        };
        let r = match found {
            Some(t_other) => {
                self.settled.insert(key);
                Some(decide_race(obs.feed, key, obs.timestamp, t_other))
            },
            None => {
                match obs.feed {
                    Feed::A => { self.pending_a.insert(key, obs.timestamp); },
                    Feed::B => { self.pending_b.insert(key, obs.timestamp); },
                }
                None
            },
        };
        proof {
            let w = record_spec(v0, obs).0;
            assert(self@.pending_a =~= w.pending_a);
            assert(self@.pending_b =~= w.pending_b);
            assert(self@.settled =~= w.settled);
        }
        r
    }

    /// Whether `key` waits on `feed` for the other feed's observation.
    pub fn is_pending(&self, feed: Feed, key: u64) -> (r: bool)
        ensures
            r == self@.pending(feed).contains_key(key),
    {
        match feed {
            Feed::A => self.pending_a.contains_key(&key),
            Feed::B => self.pending_b.contains_key(&key),
        }
    }

    /// Whether the race for `key` has been decided.
    pub fn is_settled(&self, key: u64) -> (r: bool)
        ensures
            r == self@.settled.contains(key),
    {
        self.settled.contains(&key)
    }
}

} // verus!
