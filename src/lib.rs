//! Latency race between two feeds that report the same numbered slots.
//!
//! Each feed hands in `(slot, timestamp)` observations. The correlation table
//! pairs the two observations of a slot, the aggregator keeps running win and
//! delay statistics, and a snapshot turns them into a report.
pub mod feed;
pub mod table;
pub mod stats;
pub mod race;
pub mod dedup;
pub mod tracker;
pub mod render;
