//! Authored movie timing: which decoded frame is current, when the next one is
//! due, when the movie ends, and whether the current frame must be presented.
//!
//! Decoding, audio and presentation are done by the caller, which reports
//! each decoded frame's presentation time (nanoseconds) to the clock.

use vstd::prelude::*;

use crate::frame_profile::{sat_sub, MAX_DURATION_NANOS};

verus! {

/// Interval assumed for a movie whose second frame does not advance time.
pub const DEFAULT_FRAME_INTERVAL_NANOS: u128 = 16_000_000;

/// `Duration::saturating_add`.
pub open spec fn sat_add(a: u128, b: u128) -> u128 {
    if a + b <= MAX_DURATION_NANOS {
        (a + b) as u128
    } else {
        MAX_DURATION_NANOS
    }
}

/// The wait before a frame already on screen may be replaced, or `None` when
/// the current frame has not been presented yet.
pub open spec fn spec_repeated_frame_wait(
    presented_frame_index: Option<u64>,
    frame_index: u64,
    next_change_time: u128,
    elapsed: u128,
) -> Option<u128> {
    if presented_frame_index == Some(frame_index) {
        Some(sat_sub(next_change_time, elapsed))
    } else {
        None
    }
}

/// Suppresses duplicate presents until the next authored/audio-master deadline.
pub fn repeated_frame_wait(
    presented_frame_index: Option<u64>,
    frame_index: u64,
    next_change_time: u128,
    elapsed: u128,
) -> (wait: Option<u128>)
    ensures
        wait == spec_repeated_frame_wait(presented_frame_index, frame_index, next_change_time, elapsed),
{
    if presented_frame_index == Some(frame_index) {
        Some(
            if next_change_time >= elapsed {
                next_change_time - elapsed
            } else {
                0
            },
        )
    } else {
        None
    }
}

/// One result from synchronizing the active Glue movie request.
#[derive(Clone, Copy, Debug, PartialEq, Eq)]
pub enum RuntimeCinematicPoll {
    /// Glue currently requests no movie.
    Idle,
    /// Glue withdrew a movie request after at least one cinematic frame.
    Stopped,
    /// A decoded frame was presented for the active movie.
    Presented,
    /// The current frame was already presented and its successor is not due.
    Waiting { remaining: u128 },
    /// The final frame duration elapsed and the owning widget must be notified.
    Finished { object_index: usize },
}

/// The clock lost its movie state, or the frame counter overflowed.
#[derive(Clone, Copy, Debug, PartialEq, Eq)]
pub enum CinematicClockError {
    State,
    FrameIndexCapacity,
}

/// What the coordinator does with the movie request Glue currently holds.
#[derive(Clone, Copy, Debug, PartialEq, Eq)]
pub enum CinematicRequestStep {
    /// No request and no movie: report `Idle`.
    Idle,
    /// The request was withdrawn: stop movie audio and report `Stopped`.
    Stop,
    /// Open the requested generation, stopping the previous movie's audio first
    /// when one was active.
    Open { stop_previous: bool },
    /// Keep advancing the active movie.
    Continue,
}

/// The step for Glue's current request given the active movie generation.
pub open spec fn spec_request_step(active_generation: Option<u64>, requested_generation: Option<
    u64,
>) -> CinematicRequestStep {
    match requested_generation {
        None => if active_generation is Some {
            CinematicRequestStep::Stop
        } else {
            CinematicRequestStep::Idle
        },
        Some(g) => if active_generation == Some(g) {
            CinematicRequestStep::Continue
        } else {
            CinematicRequestStep::Open { stop_previous: active_generation is Some }
        },
    }
}

/// The active generation once the request is taken: only a continued movie
/// stays; a withdrawn or replaced one is forgotten before its audio is
/// stopped, so a failed stop leaves no movie behind.
pub open spec fn spec_active_after_request(active_generation: Option<u64>, requested_generation:
    Option<u64>) -> Option<u64> {
    if spec_request_step(active_generation, requested_generation) == CinematicRequestStep::Continue {
        active_generation
    } else {
        None
    }
}

/// Compares the active movie generation with Glue's current request.
pub fn cinematic_request_step(active_generation: Option<u64>, requested_generation: Option<u64>) -> (step:
    CinematicRequestStep)
    ensures
        step == spec_request_step(active_generation, requested_generation),
{
    match requested_generation {
        None => {
            if active_generation.is_some() {
                CinematicRequestStep::Stop
            } else {
                CinematicRequestStep::Idle
            }
        },
        Some(g) => {
            if active_generation == Some(g) {
                CinematicRequestStep::Continue
            } else {
                CinematicRequestStep::Open { stop_previous: active_generation.is_some() }
            }
        },
    }
}

/// The generation of the movie the coordinator currently plays, if any.
#[derive(Clone, Copy, Debug, PartialEq, Eq)]
pub struct ActiveMovie {
    pub generation: Option<u64>,
}

impl ActiveMovie {
    pub fn new() -> (movie: Self)
        ensures
            movie.generation is None,
    {
        ActiveMovie { generation: None }
    }

    /// Takes Glue's current request: returns the step to perform and forgets
    /// a withdrawn or replaced movie before the caller stops its audio, so the
    /// movie is gone whether or not stopping its audio succeeds.
    pub fn take_request(&mut self, requested_generation: Option<u64>) -> (step: CinematicRequestStep)
        ensures
            step == spec_request_step(old(self).generation, requested_generation),
            final(self).generation == spec_active_after_request(
                old(self).generation,
                requested_generation,
            ),
            step == CinematicRequestStep::Stop ==> final(self).generation is None,
    {
        let step = cinematic_request_step(self.generation, requested_generation);
        match step {
            CinematicRequestStep::Continue => {},
            _ => {
                self.generation = None;
            },
        }
        step
    }

    /// The requested generation opened and its audio was fed: it is active.
    pub fn opened(&mut self, generation: u64)
        ensures
            final(self).generation == Some(generation),
    {
        self.generation = Some(generation);
    }

    /// The movie finished: it is forgotten before its audio is stopped.
    pub fn finished(&mut self)
        ensures
            final(self).generation is None,
    {
        self.generation = None;
    }
}

/// A withdrawn movie is forgotten whatever stopping its audio returned: the
/// next turn without a request reports `Idle`, and a later request for the
/// same generation opens it again without stopping anything.
pub proof fn law_withdrawn_movie_is_forgotten(active_generation: Option<u64>, generation: u64)
    ensures
        spec_request_step(spec_active_after_request(active_generation, None), None)
            == CinematicRequestStep::Idle,
        spec_request_step(spec_active_after_request(active_generation, None), Some(generation))
            == (CinematicRequestStep::Open { stop_previous: false }),
{
}

/// What a synchronize turn does once the clock has caught up with `elapsed`.
#[derive(Clone, Copy, Debug, PartialEq, Eq)]
pub enum CinematicFrameStep {
    /// The final frame's duration elapsed.
    Finish,
    /// The current frame is on screen; nothing changes for `remaining`.
    Wait { remaining: u128 },
    /// The current frame has not been presented yet.
    Present,
}

/// Mathematical state of the movie clock.
pub struct CinematicClockState {
    pub first_presentation_time: u128,
    pub current_time: u128,
    pub pending_time: Option<u128>,
    pub frame_index: u64,
    pub presented_frame_index: Option<u64>,
    pub last_interval: u128,
    pub end_time: Option<u128>,
}

impl CinematicClockState {
    pub open spec fn well_formed(self) -> bool {
        &&& self.first_presentation_time <= MAX_DURATION_NANOS
        &&& self.current_time <= MAX_DURATION_NANOS
        &&& self.last_interval <= MAX_DURATION_NANOS
        &&& self.pending_time matches Some(p) ==> p <= MAX_DURATION_NANOS
    }

    /// The master-clock deadline for the next image or completion.
    pub open spec fn next_change_time(self) -> Option<u128> {
        match self.pending_time {
            Some(p) => Some(sat_sub(p, self.first_presentation_time)),
            None => self.end_time,
        }
    }

    pub open spec fn pending_due(self, elapsed: u128) -> bool {
        self.pending_time matches Some(p) && sat_sub(p, self.first_presentation_time) <= elapsed
    }

    pub open spec fn finished(self, elapsed: u128) -> bool {
        self.end_time matches Some(end) && elapsed >= end
    }

    /// The decision of one synchronize turn.
    pub open spec fn step(self, elapsed: u128) -> Result<CinematicFrameStep, CinematicClockError> {
        if self.finished(elapsed) {
            Ok(CinematicFrameStep::Finish)
        } else {
            match self.next_change_time() {
                None => Err(CinematicClockError::State),
                Some(next) => match spec_repeated_frame_wait(
                    self.presented_frame_index,
                    self.frame_index,
                    next,
                    elapsed,
                ) {
                    Some(remaining) => Ok(CinematicFrameStep::Wait { remaining }),
                    None => Ok(CinematicFrameStep::Present),
                },
            }
        }
    }
}

/// The interval of a movie's first frame: up to its successor, unless that is
/// absent, earlier or simultaneous.
pub open spec fn opening_interval(first: u128, pending: Option<u128>) -> u128 {
    match pending {
        Some(p) => if p > first {
            (p - first) as u128
        } else {
            DEFAULT_FRAME_INTERVAL_NANOS
        },
        None => DEFAULT_FRAME_INTERVAL_NANOS,
    }
}

/// Presentation clock of one `StartMovie` generation.
pub struct CinematicClock {
    first_presentation_time: u128,
    current_time: u128,
    pending_time: Option<u128>,
    frame_index: u64,
    presented_frame_index: Option<u64>,
    last_interval: u128,
    end_time: Option<u128>,
}

impl View for CinematicClock {
    type V = CinematicClockState;

    closed spec fn view(&self) -> CinematicClockState {
        CinematicClockState {
            first_presentation_time: self.first_presentation_time,
            current_time: self.current_time,
            pending_time: self.pending_time,
            frame_index: self.frame_index,
            presented_frame_index: self.presented_frame_index,
            last_interval: self.last_interval,
            end_time: self.end_time,
        }
    }
}

impl CinematicClock {
    /// Starts the clock from the first decoded frame and its successor.
    pub fn open(first: u128, pending: Option<u128>) -> (clock: Self)
        requires
            first <= MAX_DURATION_NANOS,
            pending matches Some(p) ==> p <= MAX_DURATION_NANOS,
        ensures
            clock@ == (CinematicClockState {
                first_presentation_time: first,
                current_time: first,
                pending_time: pending,
                frame_index: 0,
                presented_frame_index: None,
                last_interval: opening_interval(first, pending),
                end_time: if pending is None {
                    Some(opening_interval(first, pending))
                } else {
                    None
                },
            }),
            clock@.well_formed(),
    {
        let last_interval = match pending {
            Some(p) => {
                if p > first {
                    p - first
                } else {
                    DEFAULT_FRAME_INTERVAL_NANOS
                }
            },
            None => DEFAULT_FRAME_INTERVAL_NANOS,
        };
        let end_time = if pending.is_none() {
            Some(last_interval)
        } else {
            None
        };
        CinematicClock {
            first_presentation_time: first,
            current_time: first,
            pending_time: pending,
            frame_index: 0,
            presented_frame_index: None,
            last_interval,
            end_time,
        }
    }

    /// Whether the decoded successor frame is due at `elapsed`.
    pub fn pending_due(&self, elapsed: u128) -> (due: bool)
        ensures
            due == self@.pending_due(elapsed),
    {
        match self.pending_time {
            Some(p) => {
                let offset = if p >= self.first_presentation_time {
                    p - self.first_presentation_time
                } else {
                    0
                };
                offset <= elapsed
            },
            None => false,
        }
    }

    /// Makes the decoded successor the current frame.
    pub fn take_pending(&mut self) -> (result: Result<(), CinematicClockError>)
        requires
            old(self)@.well_formed(),
        ensures
            final(self)@.well_formed(),
            match old(self)@.pending_time {
                None => result == Err::<(), CinematicClockError>(CinematicClockError::State)
                    && final(self)@ == old(self)@,
                Some(next) => {
                    let interval = sat_sub(next, old(self)@.current_time);
                    let advanced = CinematicClockState {
                        pending_time: None,
                        current_time: next,
                        last_interval: if interval != 0 {
                            interval
                        } else {
                            old(self)@.last_interval
                        },
                        ..old(self)@
                    };
                    if old(self)@.frame_index == u64::MAX {
                        result == Err::<(), CinematicClockError>(
                            CinematicClockError::FrameIndexCapacity,
                        ) && final(self)@ == advanced
                    } else {
                        result == Ok::<(), CinematicClockError>(()) && final(self)@
                            == CinematicClockState {
                            frame_index: (old(self)@.frame_index + 1) as u64,
                            ..advanced
                        }
                    }
                },
            },
    {
        let next = match self.pending_time.take() {
            Some(next) => next,
            None => return Err(CinematicClockError::State),
        };
        let interval = if next >= self.current_time {
            next - self.current_time
        } else {
            0
        };
        if interval != 0 {
            self.last_interval = interval;
        }
        self.current_time = next;
        match self.frame_index.checked_add(1) {
            Some(index) => {
                self.frame_index = index;
                Ok(())
            },
            None => Err(CinematicClockError::FrameIndexCapacity),
        }
    }

    /// Records the frame decoded after the current one; once none remains,
    /// the movie ends one interval after the current frame.
    pub fn receive_pending(&mut self, next: Option<u128>)
        requires
            old(self)@.well_formed(),
            next matches Some(p) ==> p <= MAX_DURATION_NANOS,
        ensures
            final(self)@.well_formed(),
            final(self)@ == (CinematicClockState {
                pending_time: next,
                end_time: if next is None {
                    Some(
                        sat_add(
                            sat_sub(old(self)@.current_time, old(self)@.first_presentation_time),
                            old(self)@.last_interval,
                        ),
                    )
                } else {
                    old(self)@.end_time
                },
                ..old(self)@
            }),
    {
        self.pending_time = next;
        if next.is_none() {
            let offset = if self.current_time >= self.first_presentation_time {
                self.current_time - self.first_presentation_time
            } else {
                0
            };
            let end = if offset + self.last_interval <= MAX_DURATION_NANOS {
                offset + self.last_interval
            } else {
                MAX_DURATION_NANOS
            };
            self.end_time = Some(end);
        }
    }

    /// The master-clock deadline for the next image or completion.
    pub fn next_change_time(&self) -> (next: Result<u128, CinematicClockError>)
        ensures
            next == match self@.next_change_time() {
                Some(t) => Ok::<u128, CinematicClockError>(t),
                None => Err(CinematicClockError::State),
            },
    {
        match self.pending_time {
            Some(p) => Ok(
                if p >= self.first_presentation_time {
                    p - self.first_presentation_time
                } else {
                    0
                },
            ),
            None => match self.end_time {
                Some(end) => Ok(end),
                None => Err(CinematicClockError::State),
            },
        }
    }

    /// Decides whether the movie finished, waits, or presents its frame.
    pub fn step(&self, elapsed: u128) -> (step: Result<CinematicFrameStep, CinematicClockError>)
        ensures
            step == self@.step(elapsed),
    {
        if let Some(end) = self.end_time {
            if elapsed >= end {
                return Ok(CinematicFrameStep::Finish);
            }
        }
        let next = self.next_change_time()?;
        match repeated_frame_wait(self.presented_frame_index, self.frame_index, next, elapsed) {
            Some(remaining) => Ok(CinematicFrameStep::Wait { remaining }),
            None => Ok(CinematicFrameStep::Present),
        }
    }

    /// Records that the current frame reached the swapchain.
    pub fn mark_presented(&mut self)
        ensures
            final(self)@ == (CinematicClockState {
                presented_frame_index: Some(old(self)@.frame_index),
                ..old(self)@
            }),
    {
        self.presented_frame_index = Some(self.frame_index);
    }

    pub fn frame_index(&self) -> (index: u64)
        ensures
            index == self@.frame_index,
    {
        self.frame_index
    }

    pub fn end_time(&self) -> (end: Option<u128>)
        ensures
            end == self@.end_time,
    {
        self.end_time
    }
}

/// A presented frame is never presented again: until the clock advances to
/// another frame, every turn finishes the movie or waits for its deadline.
pub proof fn law_presented_frame_is_not_repeated(clock: CinematicClockState, elapsed: u128)
    requires
        clock.presented_frame_index == Some(clock.frame_index),
    ensures
        clock.step(elapsed) != Ok::<CinematicFrameStep, CinematicClockError>(
            CinematicFrameStep::Present,
        ),
{
}

/// A frame that has not been presented is presented at once, unless the movie
/// has finished: first and advanced frames never wait.
pub proof fn law_new_frame_presents_immediately(clock: CinematicClockState, elapsed: u128)
    requires
        clock.presented_frame_index != Some(clock.frame_index),
        !clock.finished(elapsed),
        clock.next_change_time() is Some,
    ensures
        clock.step(elapsed) == Ok::<CinematicFrameStep, CinematicClockError>(
            CinematicFrameStep::Present,
        ),
{
}

/// The wait never exceeds the time left until the deadline, and reaches zero
/// once the deadline has passed.
pub proof fn law_wait_ends_at_deadline(
    presented: Option<u64>,
    frame_index: u64,
    next_change_time: u128,
    elapsed: u128,
)
    requires
        presented == Some(frame_index),
    ensures
        spec_repeated_frame_wait(presented, frame_index, next_change_time, elapsed) matches Some(w)
            && w + elapsed >= next_change_time && (elapsed >= next_change_time ==> w == 0),
{
}

} // verus!
