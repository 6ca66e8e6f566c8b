//! Concurrent fetch-and-analyze pipelines.
//!
//! The library holds the decision logic of two pipelines that an
//! asynchronous driver runs: a plain concurrent-fetch pipeline that joins
//! two operations in a fixed order, and a fetch-and-analyze pipeline that
//! fans ten chains in, scans their outcomes and aggregates two counters.
//! The CPU-bound analysis routine (bit population counts over a payload)
//! and the construction of the delay-endpoint URL are verified here as
//! well; the network calls and the schedulers stay with the driver.

pub mod analysis;
pub mod endpoint;
pub mod pipeline;
