//! How the frame pipeline waits for a CPU result: the live client services
//! the platform while a result is pending, offline replay blocks in the
//! executor. The waits themselves are performed by the caller.

use vstd::prelude::*;

verus! {

/// Who waits for pending frame work.
#[derive(Clone, Copy, Debug, PartialEq, Eq, Structural)]
pub enum FrameWait {
    /// The live client services platform input while waiting.
    Native,
    /// Replay and fixtures consume synchronously through the executor.
    Offline,
}

/// The steps that consume one frame result.
#[derive(Clone, Copy, Debug, PartialEq, Eq, Structural)]
pub enum ResultConsumption {
    /// Consume through the executor's blocking wait.
    Blocking,
    /// The result is ready: consume it with one lookup.
    Ready,
    /// Service the platform until the result is ready, then consume it.
    WaitThenConsume,
}

impl FrameWait {
    pub fn is_native(&self) -> (native: bool)
        ensures
            native == (*self == FrameWait::Native),
    {
        match self {
            FrameWait::Native => true,
            FrameWait::Offline => false,
        }
    }

    /// How a result is consumed, given whether it is already ready: only
    /// pending work under a native wait enters platform service.
    pub fn consumption(&self, ready: bool) -> (steps: ResultConsumption)
        ensures
            steps == if *self == FrameWait::Offline {
                ResultConsumption::Blocking
            } else if ready {
                ResultConsumption::Ready
            } else {
                ResultConsumption::WaitThenConsume
            },
    {
        match self {
            FrameWait::Offline => ResultConsumption::Blocking,
            FrameWait::Native => if ready {
                ResultConsumption::Ready
            } else {
                ResultConsumption::WaitThenConsume
            },
        }
    }

    /// Whether the exact next consumer must be waited for: a native wait
    /// whose result has no outcome yet.
    pub fn waits_before_result(&self, outcome_ready: bool) -> (wait: bool)
        ensures
            wait == (*self == FrameWait::Native && !outcome_ready),
    {
        self.is_native() && !outcome_ready
    }

    /// Whether a closed phase must be waited for before it is reclaimed: a
    /// native wait on a batch that has not finished.
    pub fn waits_before_reclaim(&self, finished: bool) -> (wait: bool)
        ensures
            wait == (*self == FrameWait::Native && !finished),
    {
        self.is_native() && !finished
    }
}

} // verus!
