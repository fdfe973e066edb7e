//! Running win and delay statistics, and the report taken from them.
use vstd::prelude::*;
use vstd::arithmetic::div_mod::lemma_fundamental_div_mod;
use crate::feed::{Feed, CorrelationEvent};

verus! {

/// The counters of the aggregator, per feed: races won, and for races lost the
/// sum of the delays and their number.
pub struct StatsView {
    pub first_a: nat,
    pub first_b: nat,
    pub delay_sum_a: nat,
    pub delay_sum_b: nat,
    pub delay_count_a: nat,
    pub delay_count_b: nat,
}

/// `x + d`, held at `u64::MAX` where it would pass it.
pub open spec fn bump(x: nat, d: nat) -> nat {
    if x + d > u64::MAX {
        u64::MAX as nat
    } else {
        x + d
    }
}

impl StatsView {
    pub open spec fn zero() -> StatsView {
        StatsView { first_a: 0, first_b: 0, delay_sum_a: 0, delay_sum_b: 0, delay_count_a: 0, delay_count_b: 0 }
    }

    pub open spec fn first(self, f: Feed) -> nat {
        match f {
            Feed::A => self.first_a,
            Feed::B => self.first_b,
        }
    }

    pub open spec fn delay_sum(self, f: Feed) -> nat {
        match f {
            Feed::A => self.delay_sum_a,
            Feed::B => self.delay_sum_b,
        }
    }

    pub open spec fn delay_count(self, f: Feed) -> nat {
        match f {
            Feed::A => self.delay_count_a,
            Feed::B => self.delay_count_b,
        }
    }

    /// Number of races decided.
    pub open spec fn total(self) -> nat {
        self.first_a + self.first_b
    }

    /// Every counter fits in a `u64`, and a feed has lost no more races than
    /// the other feed has won.
    pub open spec fn wf(self) -> bool {
        &&& self.first_a <= u64::MAX
        &&& self.first_b <= u64::MAX
        &&& self.delay_sum_a <= u64::MAX
        &&& self.delay_sum_b <= u64::MAX
        &&& self.delay_count_a <= self.first_b
        &&& self.delay_count_b <= self.first_a
    }
}

/// Counting one race: the winner's win count goes up by one, the loser's delay
/// sum by the delay and its delay count by one (each held at `u64::MAX`).
pub open spec fn observe_spec(v: StatsView, e: CorrelationEvent) -> StatsView {
    match e.winner {
        Feed::A => StatsView {
            first_a: bump(v.first_a, 1),
            delay_sum_b: bump(v.delay_sum_b, e.delay_millis as nat),
            delay_count_b: bump(v.delay_count_b, 1),
            ..v
        },
        Feed::B => StatsView {
            first_b: bump(v.first_b, 1),
            delay_sum_a: bump(v.delay_sum_a, e.delay_millis as nat),
            delay_count_a: bump(v.delay_count_a, 1),
            ..v
        },
    }
}

/// One feed's line of the report. Every figure is in hundredths, rounded down:
/// the share of races won in percent, the mean delay in milliseconds over the
/// races lost, and the delay sum in milliseconds spread over all races.
#[derive(Clone, Copy, Debug, PartialEq, Eq, Structural)]
pub struct FeedSummary {
    pub win_pct_x100: u128,
    pub avg_loss_delay_x100: u128,
    pub avg_overall_delay_x100: u128,
}

/// The final report: nothing to say when no race was decided.
#[derive(Clone, Copy, Debug, PartialEq, Eq, Structural)]
pub enum Report {
    NoData,
    Data { total: u128, a: FeedSummary, b: FeedSummary },
}

pub open spec fn summary_spec(v: StatsView, f: Feed) -> FeedSummary {
    FeedSummary {
        win_pct_x100: (10000 * v.first(f) / v.total()) as u128,
        avg_loss_delay_x100: if v.delay_count(f) > 0 {
            (100 * v.delay_sum(f) / v.delay_count(f)) as u128
        } else {
            0
        },
        avg_overall_delay_x100: (100 * v.delay_sum(f) / v.total()) as u128,
    }
}

pub open spec fn report_spec(v: StatsView) -> Report {
    if v.total() == 0 {
        Report::NoData
    } else {
        Report::Data { total: v.total() as u128, a: summary_spec(v, Feed::A), b: summary_spec(v, Feed::B) }
    }
}

/// The aggregator's counters.
pub struct Stats {
    grpc_first: u64,
    shred_first: u64,
    grpc_delay_sum: u64,
    shred_delay_sum: u64,
    grpc_delay_count: u64,
    shred_delay_count: u64,
}

impl View for Stats {
    type V = StatsView;

    closed spec fn view(&self) -> StatsView {
        StatsView {
            first_a: self.grpc_first as nat,
            first_b: self.shred_first as nat,
            delay_sum_a: self.grpc_delay_sum as nat,
            delay_sum_b: self.shred_delay_sum as nat,
            delay_count_a: self.grpc_delay_count as nat,
            delay_count_b: self.shred_delay_count as nat,
        }
    }
}

fn bump_delay(sum: u64, d: u128) -> (r: u64)
    ensures
        r as nat == bump(sum as nat, d as nat),
{
    let s = (sum as u128).saturating_add(d);
    if s > u64::MAX as u128 {
        u64::MAX
    } else {
        s as u64
    }
}

impl Stats {
    pub fn new() -> (r: Stats)
        ensures
            r@ == StatsView::zero(),
            r@.wf(),
    {
        Stats {
            grpc_first: 0,
            shred_first: 0,
            grpc_delay_sum: 0,
            shred_delay_sum: 0,
            grpc_delay_count: 0,
            shred_delay_count: 0,
        }
    }

    /// Counts the outcome of one race.
    pub fn observe(&mut self, e: CorrelationEvent)
        requires
            old(self)@.wf(),
        ensures
            final(self)@ == observe_spec(old(self)@, e),
            final(self)@.wf(),
    {
        match e.winner {
            Feed::A => {
                self.grpc_first = self.grpc_first.saturating_add(1);
                self.shred_delay_sum = bump_delay(self.shred_delay_sum, e.delay_millis);
                self.shred_delay_count = self.shred_delay_count.saturating_add(1);
            },
            Feed::B => {
                self.shred_first = self.shred_first.saturating_add(1);
                self.grpc_delay_sum = bump_delay(self.grpc_delay_sum, e.delay_millis);
                self.grpc_delay_count = self.grpc_delay_count.saturating_add(1);
            },
        }
    }

    /// Races won by `f`.
    pub fn first_count(&self, f: Feed) -> (r: u64)
        ensures
            r as nat == self@.first(f),
    {
        match f {
            Feed::A => self.grpc_first,
            Feed::B => self.shred_first,
        }
    }

    /// Sum of the delays of the races that `f` lost, in milliseconds.
    pub fn delay_sum(&self, f: Feed) -> (r: u64)
        ensures
            r as nat == self@.delay_sum(f),
    {
        match f {
            Feed::A => self.grpc_delay_sum,
            Feed::B => self.shred_delay_sum,
        }
    }

    /// Number of races that `f` lost.
    pub fn delay_count(&self, f: Feed) -> (r: u64)
        ensures
            r as nat == self@.delay_count(f),
    {
        match f {
            Feed::A => self.grpc_delay_count,
            Feed::B => self.shred_delay_count,
        }
    }

    /// Number of races decided.
    pub fn total_matches(&self) -> (r: u128)
        ensures
            r as nat == self@.total(),
    {
        self.grpc_first as u128 + self.shred_first as u128
    }

    fn summary(&self, f: Feed, total: u128) -> (r: FeedSummary)
        requires
            self@.wf(),
            total as nat == self@.total(),
            total > 0,
        ensures
            r == summary_spec(self@, f),
    {
        let first = self.first_count(f) as u128;
        let sum = self.delay_sum(f) as u128;
        let count = self.delay_count(f) as u128;
        let avg_loss = if count > 0 { 100 * sum / count } else { 0 };
        FeedSummary {
            win_pct_x100: 10000 * first / total,
            avg_loss_delay_x100: avg_loss,
            avg_overall_delay_x100: 100 * sum / total,
        }
    }

    /// The report of the counters as they stand; "no data" when no race was decided.
    pub fn snapshot(&self) -> (r: Report)
        requires
            self@.wf(),
        ensures
            r == report_spec(self@),
    {
        let total = self.total_matches();
        if total == 0 {
            Report::NoData
        } else {
            Report::Data { total, a: self.summary(Feed::A, total), b: self.summary(Feed::B, total) }
        }
    }
}

/// Whenever a race was decided, the two feeds' win shares add up to 100 %,
/// less at most one hundredth lost to rounding down.
pub proof fn lemma_win_shares_sum_to_whole(v: StatsView)
    requires
        v.wf(),
        v.total() > 0,
    ensures
        report_spec(v) matches Report::Data { a, b, .. } && 9999 <= a.win_pct_x100 + b.win_pct_x100
            <= 10000,
{
    let t = v.total() as int;
    let x = 10000 * v.first_a as int;
    let y = 10000 * v.first_b as int;
    lemma_fundamental_div_mod(x, t);
    lemma_fundamental_div_mod(y, t);
    let qx = x / t;
    let qy = y / t;
    let m = 10000 - qx - qy;
    assert(0 <= x % t < t);
    assert(0 <= y % t < t);
    assert(x % t + y % t == m * t) by (nonlinear_arith)
        requires
            x == t * qx + x % t,
            y == t * qy + y % t,
            x + y == 10000 * t,
            m == 10000 - qx - qy,
    ;
    assert(0 <= m < 2) by (nonlinear_arith)
        requires
            0 <= m * t < 2 * t,
            t > 0,
    ;
    assert(0 <= qx && 0 <= qy) by (nonlinear_arith)
        requires
            x >= 0,
            y >= 0,
            t > 0,
            qx == x / t,
            qy == y / t,
    ;
}

} // verus!
