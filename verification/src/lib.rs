//! Off-chain keeper core for an epoch-voting reward-gauge protocol.
//!
//! The library holds the verified heart of the keeper: an in-memory mirror of
//! ledger account state, a durable-store model of crawl cursors, per-epoch
//! snapshots and bribe records, a bounded-recency cache of computed per-epoch
//! aggregate views, and the decision logic of the crawler and reconciliation
//! tasks. Network and database plumbing lives outside and hands this crate
//! plain values.
use vstd::prelude::*;

pub mod database;
pub mod engine;
pub mod epochs;
pub mod lookup;
pub mod state;
pub mod sync;
pub mod utils;

verus! {

/// Error raised by the durable-store model.
#[derive(Clone, Copy, Debug, PartialEq, Eq, Structural)]
pub enum StoreError {
    /// A required row (the crawl-cursor configuration) is absent.
    RowNotFound,
    /// An insert hit an existing row with the same address key.
    DuplicateRow,
}

/// Error raised by the keeper engine.
#[derive(Clone, Copy, Debug, PartialEq, Eq, Structural)]
pub enum KeeperError {
    /// The crawl-cursor configuration row has not been initialized yet.
    CursorMissing,
    /// An epoch number fell outside the range the store can hold.
    EpochOutOfRange,
    /// A snapshot row references a gauge that the mirror does not know.
    GaugeNotFound,
    /// The requested epoch has no entry in the aggregate-view cache.
    EpochNotCached,
    /// No epoch has closed yet, so there is no rewards epoch to compare.
    NoRewardsEpoch,
    /// A bribe record with the same address was already recorded.
    DuplicateBribe,
}

} // verus!
