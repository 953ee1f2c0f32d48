//! The watermark store model: exactly one logical record, the timestamp of
//! the most recent activity already relayed. The store below keeps that
//! record in memory and makes the persistence boundary explicit — what
//! `saved_state` returns is what a restarted process hands to `from_saved`.
//! A durable backend (a one-row table, a one-key file) is an I/O concern
//! that sits outside this crate and carries the same contract.
use vstd::prelude::*;

verus! {

/// What a write leaves as the store's one record.
pub open spec fn spec_store_set(state: Option<i64>, timestamp: i64) -> Option<i64> {
    Some(timestamp)
}

/// What a read returns: the record, or `None` when none was ever written.
pub open spec fn spec_store_get(state: Option<i64>) -> Option<i64> {
    state
}

/// What survives a process restart: the record, unchanged.
pub open spec fn spec_store_restart(state: Option<i64>) -> Option<i64> {
    state
}

/// The watermark store: holds the one record.
pub struct WatermarkStore {
    last: Option<i64>,
}

impl View for WatermarkStore {
    type V = Option<i64>;

    closed spec fn view(&self) -> Option<i64> {
        self.last
    }
}

impl WatermarkStore {
    /// A store with no prior state, as on a first run.
    pub fn new() -> (s: WatermarkStore)
        ensures
            s@ is None,
    {
        WatermarkStore { last: None }
    }

    /// A store rebuilt from persisted state, as after a restart.
    pub fn from_saved(saved: Option<i64>) -> (s: WatermarkStore)
        ensures
            s@ == spec_store_restart(saved),
    {
        WatermarkStore { last: saved }
    }

    /// The state that persists: what the next process invocation sees.
    pub fn saved_state(&self) -> (r: Option<i64>)
        ensures
            r == self@,
    {
        self.last
    }

    /// Reads the watermark; `None` on a first run.
    pub fn get_last_published_timestamp(&self) -> (r: Option<i64>)
        ensures
            r == spec_store_get(self@),
    {
        self.last
    }

    /// Writes the watermark: afterwards the store holds exactly the given
    /// timestamp, and nothing else.
    pub fn set_last_published_timestamp(&mut self, timestamp: i64)
        ensures
            final(self)@ == spec_store_set(old(self)@, timestamp),
    {
        self.last = Some(timestamp);
    }
}

/// The fetch lower bound that a cycle uses: the stored watermark, or the
/// epoch when no watermark was ever stored or the store could not be read.
pub open spec fn spec_effective_watermark(stored: Option<i64>) -> i64 {
    match stored {
        Some(t) => t,
        None => 0,
    }
}

/// A missing or unreadable watermark degrades to the epoch: the next cycle
/// re-fetches from the beginning rather than failing.
pub fn effective_watermark(stored: Option<i64>) -> (w: i64)
    ensures
        w == spec_effective_watermark(stored),
{
    match stored {
        Some(t) => t,
        None => 0,
    }
}

/// Law: a write followed by a read returns exactly the written timestamp,
/// also when a process restart stands between the two.
pub proof fn lemma_watermark_round_trip(state: Option<i64>, timestamp: i64)
    ensures
        spec_store_get(spec_store_restart(spec_store_set(state, timestamp))) == Some(timestamp),
{
}

} // verus!
