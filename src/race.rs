//! The race engine: one step per observation, driven by the caller's loop, and
//! the laws that hold of any sequence of observations.
use vstd::prelude::*;
use crate::feed::{Feed, Observation, CorrelationEvent, race_outcome, abs_diff};
use crate::table::{CorrelationTable, TableView, record_spec, lemma_record_preserves_wf};
use crate::stats::{Stats, StatsView, Report, observe_spec, report_spec};

verus! {

/// Records the observations in order, starting from `v`, and collects the
/// races they decide.
pub open spec fn run(v: TableView, obs: Seq<Observation>) -> (TableView, Seq<CorrelationEvent>)
    decreases obs.len(),
{
    if obs.len() == 0 {
        (v, Seq::empty())
    } else {
        let (v1, evs) = run(v, obs.drop_last());
        let (v2, e) = record_spec(v1, obs.last());
        match e {
            Some(e) => (v2, evs.push(e)),
            None => (v2, evs),
        }
    }
}

/// Counts the events of `evs`, in order, starting from `s`.
pub open spec fn observe_all(s: StatsView, evs: Seq<CorrelationEvent>) -> StatsView
    decreases evs.len(),
{
    if evs.len() == 0 {
        s
    } else {
        observe_spec(observe_all(s, evs.drop_last()), evs.last())
    }
}

/// Number of observations of `key` on `feed` in `obs`.
pub open spec fn count_obs(obs: Seq<Observation>, feed: Feed, key: u64) -> nat
    decreases obs.len(),
{
    if obs.len() == 0 {
        0
    } else {
        count_obs(obs.drop_last(), feed, key) + if obs.last().feed == feed && obs.last().key == key {
            1nat
        } else {
            0nat
        }
    }
}

/// Number of events for `key` in `evs`.
pub open spec fn count_events(evs: Seq<CorrelationEvent>, key: u64) -> nat
    decreases evs.len(),
{
    if evs.len() == 0 {
        0
    } else {
        count_events(evs.drop_last(), key) + if evs.last().key == key {
            1nat
        } else {
            0nat
        }
    }
}

pub proof fn lemma_run_preserves_wf(v: TableView, obs: Seq<Observation>)
    requires
        v.wf(),
    ensures
        run(v, obs).0.wf(),
    decreases obs.len(),
{
    if obs.len() > 0 {
        lemma_run_preserves_wf(v, obs.drop_last());
        lemma_record_preserves_wf(run(v, obs.drop_last()).0, obs.last());
    }
}

/// A key seen on one feed only never yields an event: nothing is reported for
/// it however often that feed repeats it.
pub proof fn lemma_one_sided_key_never_matches(obs: Seq<Observation>, feed: Feed, key: u64)
    requires
        forall|i: int| 0 <= i < obs.len() && #[trigger] obs[i].key == key ==> obs[i].feed == feed,
    ensures
        forall|j: int| 0 <= j < run(TableView::empty(), obs).1.len() ==> #[trigger] run(
            TableView::empty(),
            obs,
        ).1[j].key != key,
        !run(TableView::empty(), obs).0.pending(feed.spec_other()).contains_key(key),
    decreases obs.len(),
{
    if obs.len() > 0 {
        let pre = obs.drop_last();
        assert forall|i: int| 0 <= i < pre.len() && #[trigger] pre[i].key == key implies pre[i].feed == feed by {
            assert(pre[i] == obs[i]);
        }
        lemma_one_sided_key_never_matches(pre, feed, key);
        assert(obs[obs.len() - 1] == obs.last());
    }
}

/// The state of a key in the table after the observations in `obs`, when each
/// feed has seen it at most once.
spec fn key_state(v: TableView, evs: Seq<CorrelationEvent>, ca: nat, cb: nat, key: u64) -> bool {
    &&& (ca == 1 && cb == 1) <==> v.settled.contains(key)
    &&& v.pending_a.contains_key(key) <==> (ca == 1 && cb == 0)
    &&& v.pending_b.contains_key(key) <==> (ca == 0 && cb == 1)
    &&& count_events(evs, key) == if ca == 1 && cb == 1 { 1nat } else { 0nat }
}

proof fn lemma_key_state(obs: Seq<Observation>, key: u64)
    requires
        count_obs(obs, Feed::A, key) <= 1,
        count_obs(obs, Feed::B, key) <= 1,
    ensures
        key_state(
            run(TableView::empty(), obs).0,
            run(TableView::empty(), obs).1,
            count_obs(obs, Feed::A, key),
            count_obs(obs, Feed::B, key),
            key,
        ),
    decreases obs.len(),
{
    if obs.len() > 0 {
        let pre = obs.drop_last();
        lemma_key_state(pre, key);
        let (v1, evs) = run(TableView::empty(), pre);
        let (v2, e) = record_spec(v1, obs.last());
        if let Some(e) = e {
            assert(evs.push(e).drop_last() == evs);
        }
    }
}

/// Recording never yields more events than observations.
pub proof fn lemma_run_events_bounded(v: TableView, obs: Seq<Observation>)
    ensures
        run(v, obs).1.len() <= obs.len(),
    decreases obs.len(),
{
    if obs.len() > 0 {
        lemma_run_events_bounded(v, obs.drop_last());
    }
}

/// A key seen exactly once on each feed yields exactly one event, and counting
/// the events of a window adds one race to the total for each of them.
pub proof fn lemma_two_sided_key_matches_once(obs: Seq<Observation>, key: u64)
    requires
        count_obs(obs, Feed::A, key) == 1,
        count_obs(obs, Feed::B, key) == 1,
        obs.len() <= u64::MAX,
    ensures
        count_events(run(TableView::empty(), obs).1, key) == 1,
        observe_all(StatsView::zero(), run(TableView::empty(), obs).1).total() == run(
            TableView::empty(),
            obs,
        ).1.len(),
{
    lemma_key_state(obs, key);
    lemma_run_events_bounded(TableView::empty(), obs);
    lemma_each_event_counts_once(run(TableView::empty(), obs).1);
}

/// Every event counted from the start adds exactly one to the total of races,
/// as long as the count fits in a `u64`.
pub proof fn lemma_each_event_counts_once(evs: Seq<CorrelationEvent>)
    requires
        evs.len() <= u64::MAX,
    ensures
        observe_all(StatsView::zero(), evs).total() == evs.len(),
        observe_all(StatsView::zero(), evs).wf(),
    decreases evs.len(),
{
    if evs.len() > 0 {
        lemma_each_event_counts_once(evs.drop_last());
    }
}

/// On a fresh table, the first of two observations of a key waits and the
/// second decides the race: the smaller timestamp wins, the other feed is late
/// by the difference, and on equal timestamps the feed recorded first wins.
pub proof fn lemma_pair_outcome(key: u64, first: Observation, second: Observation)
    requires
        first.key == key,
        second.key == key,
        second.feed == first.feed.spec_other(),
    ensures
        run(TableView::empty(), seq![first, second]).1 == seq![
            CorrelationEvent {
                key,
                winner: if second.timestamp < first.timestamp { second.feed } else { first.feed },
                delay_millis: abs_diff(first.timestamp, second.timestamp),
            },
        ],
        run(TableView::empty(), seq![first, second]).0.settled.contains(key),
{
    let s = seq![first, second];
    assert(s.drop_last() == seq![first]);
    assert(seq![first].drop_last() == Seq::<Observation>::empty());
    let v0 = TableView::empty();
    assert(run(v0, Seq::<Observation>::empty()) == (v0, Seq::<CorrelationEvent>::empty()));
    assert(!v0.settled.contains(key));
    assert(!v0.pending(second.feed).contains_key(key));
    let v1 = record_spec(v0, first).0;
    assert(run(v0, seq![first]) == (v1, Seq::<CorrelationEvent>::empty()));
    assert(v1.pending(first.feed).contains_key(key));
    let e = race_outcome(second.feed, key, second.timestamp, first.timestamp);
    assert(record_spec(v1, second).1 == Some(e));
    assert(Seq::<CorrelationEvent>::empty().push(e) == seq![e]);
}

/// Once a key's race is decided, further observations of that key change
/// nothing and yield no event: replaying a pair does not count it twice.
pub proof fn lemma_settled_key_is_final(v: TableView, obs: Seq<Observation>, key: u64)
    requires
        v.settled.contains(key),
        forall|i: int| 0 <= i < obs.len() ==> #[trigger] obs[i].key == key,
    ensures
        run(v, obs) == (v, Seq::<CorrelationEvent>::empty()),
    decreases obs.len(),
{
    if obs.len() > 0 {
        let pre = obs.drop_last();
        assert forall|i: int| 0 <= i < pre.len() implies #[trigger] pre[i].key == key by {
            assert(pre[i] == obs[i]);
        }
        lemma_settled_key_is_final(v, pre, key);
        assert(obs[obs.len() - 1] == obs.last());
    }
}

/// Recording `s1` then `s2` is recording `s1 + s2`.
pub proof fn lemma_run_append(v: TableView, s1: Seq<Observation>, s2: Seq<Observation>)
    ensures
        run(v, s1 + s2) == (run(run(v, s1).0, s2).0, run(v, s1).1 + run(run(v, s1).0, s2).1),
    decreases s2.len(),
{
    if s2.len() == 0 {
        assert(s1 + s2 == s1);
        assert(run(v, s1).1 + Seq::<CorrelationEvent>::empty() == run(v, s1).1);
    } else {
        assert((s1 + s2).drop_last() == s1 + s2.drop_last());
        assert((s1 + s2).last() == s2.last());
        lemma_run_append(v, s1, s2.drop_last());
        let a = run(v, s1).1;
        let b = run(run(v, s1).0, s2.drop_last()).1;
        let e = record_spec(run(run(v, s1).0, s2.drop_last()).0, s2.last()).1;
        if let Some(e) = e {
            assert((a + b).push(e) == a + b.push(e));
        }
    }
}

/// Replaying both observations of a decided race adds no event: the pair is
/// counted once.
pub proof fn lemma_replayed_pair_counted_once(key: u64, first: Observation, second: Observation)
    requires
        first.key == key,
        second.key == key,
        second.feed == first.feed.spec_other(),
    ensures
        run(TableView::empty(), seq![first, second, first, second]) == run(
            TableView::empty(),
            seq![first, second],
        ),
        run(TableView::empty(), seq![first, second, first, second]).1.len() == 1,
{
    let pair = seq![first, second];
    let v1 = run(TableView::empty(), pair).0;
    lemma_pair_outcome(key, first, second);
    assert(pair.drop_last() == seq![first]);
    assert(seq![first].drop_last() == Seq::<Observation>::empty());
    assert(v1.settled.contains(key));
    assert forall|i: int| 0 <= i < pair.len() implies #[trigger] pair[i].key == key by {}
    lemma_settled_key_is_final(v1, pair, key);
    lemma_run_append(TableView::empty(), pair, pair);
    assert(pair + pair == seq![first, second, first, second]);
    assert(run(TableView::empty(), pair).1 + Seq::<CorrelationEvent>::empty() == run(TableView::empty(), pair).1);
}

/// What the race engine holds.
pub struct RaceView {
    pub table: TableView,
    pub stats: StatsView,
    pub steady: bool,
}

/// The engine of one measurement window: the correlation table, the counters,
/// and whether a first race has been decided.
pub struct Race {
    table: CorrelationTable,
    stats: Stats,
    steady: bool,
}

impl View for Race {
    type V = RaceView;

    closed spec fn view(&self) -> RaceView {
        RaceView { table: self.table@, stats: self.stats@, steady: self.steady }
    }
}

impl Race {
    pub open spec fn wf(&self) -> bool {
        self@.table.wf() && self@.stats.wf()
    }

    pub fn new() -> (r: Race)
        ensures
            r@ == (RaceView { table: TableView::empty(), stats: StatsView::zero(), steady: false }),
            r.wf(),
    {
        Race { table: CorrelationTable::new(), stats: Stats::new(), steady: false }
    }

    /// Takes one observation: records it, and counts the race it decides.
    pub fn ingest(&mut self, obs: Observation) -> (r: Option<CorrelationEvent>)
        requires
            old(self).wf(),
        ensures
            final(self).wf(),
            (final(self)@.table, r) == record_spec(old(self)@.table, obs),
            final(self)@.stats == match r {
                Some(e) => observe_spec(old(self)@.stats, e),
                None => old(self)@.stats,
            },
            final(self)@.steady == (old(self)@.steady || r is Some),
    {
        let r = self.table.record(obs);
        match r {
            Some(e) => {
                self.stats.observe(e);
                self.steady = true;
            },
            None => {},
        }
        r
    }

    /// Whether a first race has been decided in this window.
    pub fn steady_state_reached(&self) -> (r: bool)
        ensures
            r == self@.steady,
    {
        self.steady
    }

    /// The counters.
    pub fn stats(&self) -> (r: &Stats)
        ensures
            r@ == self@.stats,
    {
        &self.stats
    }

    /// The report of the window so far.
    pub fn report(&self) -> (r: Report)
        requires
            self.wf(),
        ensures
            r == report_spec(self@.stats),
    {
        self.stats.snapshot()
    }
}

/// Whether a window of `window_ms` milliseconds that opened at `start_ms` has
/// closed at `now_ms`. A clock read earlier than the start keeps it open.
pub fn window_closed(start_ms: u128, now_ms: u128, window_ms: u128) -> (r: bool)
    ensures
        r == (now_ms >= start_ms && now_ms - start_ms >= window_ms),
{
    now_ms >= start_ms && now_ms - start_ms >= window_ms
}

} // verus!
