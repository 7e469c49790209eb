//! The periodic eviction of old entries from the store: what happens on
//! each tick of the timer, and how the outcome is reported.

use vstd::prelude::*;

use crate::db::SeenUriStore;
use crate::db::StoreError;

verus! {

/// How loudly the outcome of a cycle is logged.
#[derive(Clone, Copy, Debug, PartialEq, Eq, Structural)]
pub enum LogLevel {
    Debug,
    Info,
    Error,
}

/// What one tick of the timer came to.
#[derive(Debug)]
pub enum CycleReport {
    /// The first tick, which fires at once: nothing was done.
    Skipped,
    /// Entries were evicted; the count is not zero.
    Removed(usize),
    /// The store held nothing old enough.
    NothingToRemove,
    /// The store failed. The task goes on with the next tick.
    Failed(StoreError),
}

/// The report on a cycle in which the store was asked to evict.
pub open spec fn spec_cycle_report(result: Result<usize, StoreError>) -> CycleReport {
    match result {
        Ok(removed) => if removed > 0 {
            CycleReport::Removed(removed)
        } else {
            CycleReport::NothingToRemove
        },
        Err(e) => CycleReport::Failed(e),
    }
}

/// Turns the store's answer to an eviction into the report on the cycle.
pub fn cycle_report(result: Result<usize, StoreError>) -> (r: CycleReport)
    ensures
        r == spec_cycle_report(result),
{
    match result {
        Ok(removed) => if removed > 0 {
            CycleReport::Removed(removed)
        } else {
            CycleReport::NothingToRemove
        },
        Err(e) => CycleReport::Failed(e),
    }
}

impl CycleReport {
    /// The level at which a report is logged: evictions at info, failures
    /// at error, the rest at debug.
    pub open spec fn spec_level(self) -> LogLevel {
        match self {
            CycleReport::Removed(_) => LogLevel::Info,
            CycleReport::Failed(_) => LogLevel::Error,
            _ => LogLevel::Debug,
        }
    }

    /// The level at which this report is logged.
    pub fn level(&self) -> (r: LogLevel)
        ensures
            r == self.spec_level(),
    {
        match self {
            CycleReport::Removed(_) => LogLevel::Info,
            CycleReport::Failed(_) => LogLevel::Error,
            _ => LogLevel::Debug,
        }
    }
}

/// The eviction task between two ticks of its timer.
#[derive(Debug)]
pub struct CleanupTask {
    max_age_secs: u64,
    started: bool,
}

impl CleanupTask {
    /// The age beyond which entries are evicted, in seconds.
    pub closed spec fn spec_max_age_secs(self) -> u64 {
        self.max_age_secs
    }

    /// Whether the first tick has passed.
    pub closed spec fn spec_started(self) -> bool {
        self.started
    }

    /// A task that has not seen a tick yet.
    pub fn new(max_age_secs: u64) -> (r: CleanupTask)
        ensures
            r.spec_max_age_secs() == max_age_secs,
            !r.spec_started(),
    {
        CleanupTask { max_age_secs, started: false }
    }

    /// The age beyond which entries are evicted, in seconds.
    pub fn max_age_secs(&self) -> (r: u64)
        ensures
            r == self.spec_max_age_secs(),
    {
        self.max_age_secs
    }

    /// The age beyond which entries are evicted, in whole days.
    pub fn max_age_days(&self) -> (r: u64)
        ensures
            r == self.spec_max_age_secs() / 86400,
    {
        self.max_age_secs / 86400
    }

    /// Handles one tick of the timer. The first tick is skipped without a
    /// call to the store, so that nothing is evicted right at startup; every
    /// later tick asks the store once to evict. A failure of the store is
    /// reported and leaves the task ready for the next tick.
    pub fn on_tick(&mut self, store: &SeenUriStore) -> (r: CycleReport)
        ensures
            final(self).spec_started(),
            final(self).spec_max_age_secs() == old(self).spec_max_age_secs(),
            r is Skipped <==> !old(self).spec_started(),
            old(self).spec_started() ==> exists|result: Result<usize, StoreError>|
                r == #[trigger] spec_cycle_report(result),
    {
        if !self.started {
            self.started = true;
            return CycleReport::Skipped;
        }
        let result = store.cleanup(self.max_age_secs);
        let report = cycle_report(result);
        assert(report == spec_cycle_report(result));
        report
    }
}

} // verus!
