//! Detached CPU owners wait for admission without blocking presentation, then
//! retire in bounded batches on a worker.

use vstd::prelude::*;

use std::collections::VecDeque;

verus! {

/// Owners dropped by one worker step.
pub const RETIREMENTS_PER_STEP: usize = 16;

/// What reserving a retirement worker returned.
#[derive(Clone, Copy, Debug, PartialEq, Eq, Structural)]
pub enum RetirementReservation {
    Granted,
    /// The executor is saturated: the owners wait for a later frame.
    AtCapacity,
    /// The executor refused for another reason.
    Failed,
}

/// The executor refused a retirement reservation for a reason other than
/// saturation.
#[derive(Clone, Copy, Debug, PartialEq, Eq, Structural)]
pub struct ReservationFailed;

/// Keeps detached CPU owners until bounded service admission transfers them.
pub struct CpuRetirementQueue<T> {
    pending: VecDeque<T>,
}

impl<T> CpuRetirementQueue<T> {
    pub closed spec fn backlog(&self) -> Seq<T> {
        self.pending@
    }

    pub fn new() -> (queue: Self)
        ensures
            queue.backlog() == Seq::<T>::empty(),
    {
        CpuRetirementQueue { pending: VecDeque::new() }
    }

    /// Adds detached owners without running their destructors.
    pub fn extend(&mut self, items: Vec<T>)
        ensures
            final(self).backlog() == old(self).backlog() + items@,
    {
        let mut items = items;
        let mut added: VecDeque<T> = VecDeque::new();
        let ghost all = items@;
        while items.len() > 0
            invariant
                all == added@ + items@,
            decreases items@.len(),
        {
            let ghost before = items@;
            let item = items.remove(0);
            added.push_back(item);
            assert(all =~= added@ + items@);
        }
        assert(added@ =~= all);
        self.pending.append(&mut added);
    }

    pub fn is_empty(&self) -> (empty: bool)
        ensures
            empty == (self.backlog().len() == 0),
    {
        self.pending.len() == 0
    }

    /// Whether a service turn reserves a worker: only while owners wait.
    pub fn needs_worker(&self) -> (reserve: bool)
        ensures
            reserve == (self.backlog().len() > 0),
    {
        self.pending.len() != 0
    }

    /// One service turn. With an empty backlog it succeeds at once and takes
    /// nothing (the caller reserves no worker, as `needs_worker` says).
    /// Otherwise, after reserving a worker: a granted reservation takes the
    /// whole backlog for the worker, saturation keeps it for a later frame,
    /// and any other refusal is an error that keeps it too. The reservation
    /// comes before ownership moves, so no destructor runs on the
    /// presentation thread.
    pub fn service_reserved(&mut self, reservation: RetirementReservation) -> (served: Result<
        Option<VecDeque<T>>,
        ReservationFailed,
    >)
        ensures
            old(self).backlog().len() == 0 ==> {
                &&& served matches Ok(None)
                &&& final(self).backlog() == old(self).backlog()
            },
            old(self).backlog().len() > 0 ==> match reservation {
                RetirementReservation::Granted => {
                    &&& served matches Ok(Some(b)) && b@ == old(self).backlog()
                    &&& final(self).backlog() == Seq::<T>::empty()
                },
                RetirementReservation::AtCapacity => {
                    &&& served matches Ok(None)
                    &&& final(self).backlog() == old(self).backlog()
                },
                RetirementReservation::Failed => {
                    &&& served matches Err(_)
                    &&& final(self).backlog() == old(self).backlog()
                },
            },
    {
        if self.pending.len() == 0 {
            return Ok(None);
        }
        match reservation {
            RetirementReservation::Granted => Ok(Some(self.take_backlog())),
            RetirementReservation::AtCapacity => Ok(None),
            RetirementReservation::Failed => Err(ReservationFailed),
        }
    }

    /// Moves the whole backlog out once a worker admitted the retirement.
    pub fn take_backlog(&mut self) -> (backlog: VecDeque<T>)
        ensures
            backlog@ == old(self).backlog(),
            final(self).backlog() == Seq::<T>::empty(),
    {
        let mut backlog = VecDeque::new();
        std::mem::swap(&mut backlog, &mut self.pending);
        backlog
    }
}

/// One worker step: drops up to sixteen owners, then reports whether any
/// remain.
pub fn retire_step<T>(backlog: &mut VecDeque<T>) -> (more: bool)
    ensures
        final(backlog)@ == old(backlog)@.skip(
            if old(backlog)@.len() < RETIREMENTS_PER_STEP {
                old(backlog)@.len() as int
            } else {
                RETIREMENTS_PER_STEP as int
            },
        ),
        more == (old(backlog)@.len() > RETIREMENTS_PER_STEP),
{
    let ghost start = backlog@;
    let mut step: usize = 0;
    while step < RETIREMENTS_PER_STEP
        invariant
            0 <= step <= RETIREMENTS_PER_STEP,
            step <= start.len(),
            start == old(backlog)@,
            backlog@ == start.skip(step as int),
        decreases RETIREMENTS_PER_STEP - step,
    {
        match backlog.pop_front() {
            Some(_retired) => {
                assert(backlog@ =~= start.skip(step as int + 1));
            },
            None => {
                assert(start.skip(step as int).len() == 0);
                assert(backlog@ =~= start.skip(start.len() as int));
                return false;
            },
        }
        step += 1;
    }
    backlog.len() != 0
}

/// The backlog left after `steps` worker steps, each as `retire_step`
/// leaves it.
pub open spec fn after_steps<T>(backlog: Seq<T>, steps: nat) -> Seq<T>
    decreases steps,
{
    if steps == 0 {
        backlog
    } else {
        let rest = after_steps(backlog, (steps - 1) as nat);
        rest.skip(
            if rest.len() < RETIREMENTS_PER_STEP {
                rest.len() as int
            } else {
                RETIREMENTS_PER_STEP as int
            },
        )
    }
}

/// Retirement keeps every owner until a worker drops it and drops them in
/// order: after `steps` steps exactly the first `16 * steps` owners (or all
/// of them) are gone, so a backlog of `n` owners is empty after `ceil(n /
/// 16)` steps.
pub proof fn law_steps_consume_backlog_in_order<T>(backlog: Seq<T>, steps: nat)
    ensures
        after_steps(backlog, steps) == backlog.skip(
            if backlog.len() < RETIREMENTS_PER_STEP * steps {
                backlog.len() as int
            } else {
                (RETIREMENTS_PER_STEP * steps) as int
            },
        ),
    decreases steps,
{
    if steps > 0 {
        law_steps_consume_backlog_in_order(backlog, (steps - 1) as nat);
        let rest = after_steps(backlog, (steps - 1) as nat);
        let d = if rest.len() < RETIREMENTS_PER_STEP {
            rest.len() as int
        } else {
            RETIREMENTS_PER_STEP as int
        };
        let before = if backlog.len() < RETIREMENTS_PER_STEP * (steps - 1) {
            backlog.len() as int
        } else {
            (RETIREMENTS_PER_STEP * (steps - 1)) as int
        };
        assert(RETIREMENTS_PER_STEP * steps == RETIREMENTS_PER_STEP * (steps - 1)
            + RETIREMENTS_PER_STEP) by (nonlinear_arith);
        assert(rest.skip(d) =~= backlog.skip(before + d));
    }
}

} // verus!
