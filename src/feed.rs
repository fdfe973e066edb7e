//! Feeds, observations and the outcome of one race.
use vstd::prelude::*;

verus! {

/// One of the two feeds that race each other.
#[derive(Clone, Copy, Debug, PartialEq, Eq, Structural)]
pub enum Feed {
    /// The Geyser gRPC transaction feed.
    A,
    /// The shredstream entries feed.
    B,
}

impl Feed {
    pub open spec fn spec_other(self) -> Feed {
        match self {
            Feed::A => Feed::B,
            Feed::B => Feed::A,
        }
    }

    /// The feed that races against this one.
    #[verifier::when_used_as_spec(spec_other)]
    pub fn other(self) -> (r: Feed)
        ensures
            r == self.spec_other(),
    {
        match self {
            Feed::A => Feed::B,
            Feed::B => Feed::A,
        }
    }
}

/// A slot seen on a feed, with the time it arrived (milliseconds since the epoch).
#[derive(Clone, Copy, Debug, PartialEq, Eq, Structural)]
pub struct Observation {
    pub feed: Feed,
    pub key: u64,
    pub timestamp: u128,
}

/// The outcome of one race: which feed delivered `key` first, and how many
/// milliseconds later the other one delivered it.
#[derive(Clone, Copy, Debug, PartialEq, Eq, Structural)]
pub struct CorrelationEvent {
    pub key: u64,
    pub winner: Feed,
    pub delay_millis: u128,
}

pub open spec fn abs_diff(x: u128, y: u128) -> u128 {
    if x >= y {
        (x - y) as u128
    } else {
        (y - x) as u128
    }
}

/// The race between an observation of `key` on `feed` at `timestamp`, recorded
/// now, and the earlier recorded observation of the same key on the other feed
/// at `t_other`. The smaller timestamp wins; on a tie the earlier recorded
/// observation wins.
pub open spec fn race_outcome(feed: Feed, key: u64, timestamp: u128, t_other: u128) -> CorrelationEvent {
    CorrelationEvent {
        key,
        winner: if timestamp < t_other { feed } else { feed.spec_other() },
        delay_millis: abs_diff(timestamp, t_other),
    }
}

/// Decides the race between a fresh observation and the other feed's earlier one.
pub fn decide_race(feed: Feed, key: u64, timestamp: u128, t_other: u128) -> (r: CorrelationEvent)
    ensures
        r == race_outcome(feed, key, timestamp, t_other),
{
    if timestamp < t_other {
        CorrelationEvent { key, winner: feed, delay_millis: t_other - timestamp }
    } else {
        CorrelationEvent { key, winner: feed.other(), delay_millis: timestamp - t_other }
    }
}

} // verus!
