//! Deadlines of the model cache's cleanup: ordinary frames look only at a
//! change bit, a task flag and the cached deadline; a collection runs on a
//! worker when its deadline has passed and capacity is free. The caller owns
//! the task, the cache service and the clock (nanoseconds).

use vstd::prelude::*;

verus! {

/// The cleanup task flag and the next collection deadline.
#[derive(Clone, Copy, Debug, PartialEq, Eq, Structural)]
pub struct CacheMaintenance {
    pub pending: bool,
    pub deadline: Option<u128>,
}

/// A deadline `delay_ms` after `now`.
pub open spec fn spec_deadline(now: u128, delay_ms: Option<u32>) -> Option<u128> {
    match delay_ms {
        Some(d) => Some((now + d * 1_000_000) as u128),
        None => None,
    }
}

/// A collection is due when none is running and its deadline passed.
pub open spec fn spec_collection_due(m: CacheMaintenance, now: u128) -> bool {
    !m.pending && match m.deadline {
        Some(d) => now >= d,
        None => false,
    }
}

impl CacheMaintenance {
    pub fn new() -> (maintenance: Self)
        ensures
            !maintenance.pending,
            maintenance.deadline is None,
    {
        CacheMaintenance { pending: false, deadline: None }
    }

    /// Observes the cleanup task: a finished task is to be joined now (and
    /// no longer pending). Returns whether to join it.
    pub fn observe_task(&mut self, finished: bool) -> (join: bool)
        ensures
            join == (old(self).pending && finished),
            *final(self) == (CacheMaintenance {
                pending: old(self).pending && !finished,
                ..*old(self)
            }),
    {
        if self.pending && finished {
            self.pending = false;
            true
        } else {
            false
        }
    }

    /// Whether the deadline is to be recomputed from the cache: the cache
    /// changed, a collection just completed, or the deadline passed.
    pub fn deadline_stale(&self, changed: bool, completed: bool, now: u128) -> (stale: bool)
        ensures
            stale == (changed || completed || match self.deadline {
                Some(d) => now >= d,
                None => false,
            }),
    {
        changed || completed || match self.deadline {
            Some(d) => now >= d,
            None => false,
        }
    }

    /// Replaces the deadline with the cache's next collection delay from
    /// `now`, if it reports one.
    pub fn set_deadline(&mut self, now: u128, delay_ms: Option<u32>)
        requires
            now + u32::MAX * 1_000_000 <= u128::MAX,
        ensures
            *final(self) == (CacheMaintenance {
                deadline: spec_deadline(now, delay_ms),
                ..*old(self)
            }),
    {
        self.deadline = match delay_ms {
            Some(d) => Some(now + (d as u128) * 1_000_000),
            None => None,
        };
    }

    /// Whether a collection is due: none is running and the deadline passed.
    pub fn collection_due(&self, now: u128) -> (due: bool)
        ensures
            due == spec_collection_due(*self, now),
    {
        !self.pending && match self.deadline {
            Some(d) => now >= d,
            None => false,
        }
    }

    /// A worker accepted the collection.
    pub fn submitted(&mut self)
        ensures
            final(self).pending,
            final(self).deadline is None,
    {
        self.pending = true;
        self.deadline = None;
    }
}

/// A collection never starts while another runs, nor before its deadline;
/// once one is submitted nothing is due, at any time, until the task is
/// joined and a new deadline is set.
pub proof fn law_one_collection_at_a_time(m: CacheMaintenance, now: u128, later: u128)
    ensures
        spec_collection_due(m, now) ==> (!m.pending && (m.deadline matches Some(d) && d <= now)),
        !spec_collection_due(CacheMaintenance { pending: true, deadline: None }, later),
        !spec_collection_due(CacheMaintenance { pending: false, deadline: None }, later),
{
}

} // verus!
