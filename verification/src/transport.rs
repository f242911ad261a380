//! Transport GameObject decisions: route motion requests from state
//! notifications and admission, the route clock's elapsed time, passenger
//! predicates and the completion chain of the transport's map model.
//!
//! Route geometry, sampling and poses are computed by the caller.

use vstd::prelude::*;

verus! {

/// The two transport GameObject types (MO transport, elevator).
pub const TRANSPORT_OBJECT_TYPE: u8 = 15;

pub const ELEVATOR_OBJECT_TYPE: u8 = 11;

/// A route motion request at the route clock.
#[derive(Clone, Copy, Debug, PartialEq, Eq, Structural)]
pub enum TransportRouteMotion {
    StopAtStation,
    Moving,
}

pub open spec fn spec_motion(stop: bool) -> TransportRouteMotion {
    if stop {
        TransportRouteMotion::StopAtStation
    } else {
        TransportRouteMotion::Moving
    }
}

/// Native boolean stop arguments expressed as a motion request.
pub fn motion(stop: bool) -> (m: TransportRouteMotion)
    ensures
        m == spec_motion(stop),
{
    if stop {
        TransportRouteMotion::StopAtStation
    } else {
        TransportRouteMotion::Moving
    }
}

pub open spec fn spec_state_notification_motions(allow_stopping: bool, previous: u8, current: u8) -> Seq<
    TransportRouteMotion,
> {
    if !allow_stopping {
        Seq::<TransportRouteMotion>::empty()
    } else if previous == current {
        seq![spec_motion(current != 1), spec_motion(current == 1)]
    } else {
        seq![spec_motion(current == 1)]
    }
}

/// A stoppable route receives, in order, the motion requests of a
/// state notification; a repeated state first toggles the opposite request.
pub fn state_notification_motions(allow_stopping: bool, previous: u8, current: u8) -> (requests: Vec<
    TransportRouteMotion,
>)
    ensures
        requests@ == spec_state_notification_motions(allow_stopping, previous, current),
{
    let mut requests: Vec<TransportRouteMotion> = Vec::new();
    if !allow_stopping {
        return requests;
    }
    if previous == current {
        requests.push(motion(current != 1));
    }
    requests.push(motion(current == 1));
    requests
}

/// What admission does to the route clock after synchronizing progress.
#[derive(Clone, Copy, Debug, PartialEq, Eq)]
pub enum TransportAdmission {
    FreezeAtStation,
    Move(TransportRouteMotion),
}

/// A stoppable route synchronizes the progress fraction in the high
/// half of the dynamic word, then freezes at its station when flag 0x10 is
/// set, or takes the motion of its state.
pub fn admission_plan(allow_stopping: bool, dynamic_word: u32, state: u8) -> (plan: Option<
    (u16, TransportAdmission),
>)
    ensures
        plan == if !allow_stopping {
            None::<(u16, TransportAdmission)>
        } else {
            Some(
                (
                    (dynamic_word / 0x1_0000) as u16,
                    if (dynamic_word / 0x10) % 2 == 1 {
                        TransportAdmission::FreezeAtStation
                    } else {
                        TransportAdmission::Move(spec_motion(state == 1))
                    },
                ),
            )
        },
{
    if !allow_stopping {
        return None;
    }
    let progress = (dynamic_word / 0x1_0000) as u16;
    let then = if (dynamic_word / 0x10) % 2 == 1 {
        TransportAdmission::FreezeAtStation
    } else {
        TransportAdmission::Move(motion(state == 1))
    };
    Some((progress, then))
}

/// Milliseconds the route clock advances: none on the admission frame,
/// otherwise the wrapping client-clock delta since the previous frame.
pub fn route_elapsed_ms(needs_admission: bool, client_time_ms: u32, last_client_time_ms: u32) -> (elapsed:
    u32)
    ensures
        elapsed as int == if needs_admission {
            0
        } else {
            (client_time_ms - last_client_time_ms) % 0x1_0000_0000
        },
{
    if needs_admission {
        0
    } else {
        client_time_ms.wrapping_sub(last_client_time_ms)
    }
}

/// The map model's primary completions chain Open/Close and
/// ShipStart/ShipStop into their looping successors.
pub fn completion_successor(animation_id: u32) -> (next: Option<u32>)
    ensures
        next == if animation_id == 146 {
            Some(147u32)
        } else if animation_id == 148 {
            Some(149u32)
        } else if animation_id == 162 {
            Some(163u32)
        } else if animation_id == 164 {
            Some(0u32)
        } else {
            None::<u32>
        },
{
    match animation_id {
        146 => Some(147),
        148 => Some(149),
        162 => Some(163),
        164 => Some(0),
        _ => None,
    }
}

/// `GAMEOBJECT_FLAGS` value 8 lets the active mover board.
pub fn object_can_board(flags: u32) -> (board: bool)
    ensures
        board == ((flags / 8) % 2 == 1),
{
    (flags / 8) % 2 == 1
}

/// Whether a GameObject type owns transport passenger behavior.
pub open spec fn is_transport_type(object_type: u8) -> bool {
    object_type == ELEVATOR_OBJECT_TYPE || object_type == TRANSPORT_OBJECT_TYPE
}

/// Passenger retention that needs no volume test: ordinary objects retain
/// nobody, and a transport without a map handle keeps its passenger. `None`
/// means the caller must test the transport's volume.
pub fn retention_without_volume(object_type: u8, has_map_placement: bool) -> (retains: Option<bool>)
    ensures
        retains == if !is_transport_type(object_type) {
            Some(false)
        } else if !has_map_placement {
            Some(true)
        } else {
            None::<bool>
        },
{
    if !(object_type == ELEVATOR_OBJECT_TYPE || object_type == TRANSPORT_OBJECT_TYPE) {
        Some(false)
    } else if !has_map_placement {
        Some(true)
    } else {
        None
    }
}

/// Only a departed transport lifetime resolves a retiring passenger frame.
pub fn retiring_passenger_needs_frame(still_in_world: bool, known: bool, object_type: u8) -> (needs:
    bool)
    ensures
        needs == (!still_in_world && known && is_transport_type(object_type)),
{
    !still_in_world && known && (object_type == ELEVATOR_OBJECT_TYPE || object_type
        == TRANSPORT_OBJECT_TYPE)
}

/// Frames longer than this presample the animation at the frame start.
pub const PRESAMPLE_THRESHOLD_MS: u32 = 250;

pub fn needs_presample(elapsed_ms: u32) -> (presample: bool)
    ensures
        presample == (elapsed_ms > PRESAMPLE_THRESHOLD_MS),
{
    elapsed_ms > PRESAMPLE_THRESHOLD_MS
}

/// Whether the transport's first ready map model has been observed.
#[derive(Clone, Copy, Debug, PartialEq, Eq, Structural)]
pub struct ReadyModelObservation {
    pub observed: bool,
}

impl ReadyModelObservation {
    pub fn new() -> (observation: Self)
        ensures
            !observation.observed,
    {
        ReadyModelObservation { observed: false }
    }

    /// The first frame with a ready map model is observed once; on it a
    /// transport without animation rows keeps its existing matrix and skips
    /// the frame. Returns whether the frame is skipped.
    pub fn frame(&mut self, map_model_ready: bool, track_empty: bool) -> (skip: bool)
        ensures
            skip == (map_model_ready && !old(self).observed && track_empty),
            final(self).observed == (old(self).observed || map_model_ready),
    {
        if map_model_ready && !self.observed {
            self.observed = true;
            track_empty
        } else {
            false
        }
    }
}

/// On a stoppable route the last motion request of a state notification
/// always matches the current state (state 1 stops at the station), and a
/// repeated state is first toggled the other way.
pub proof fn law_last_request_matches_state(previous: u8, current: u8)
    ensures
        spec_state_notification_motions(true, previous, current).last() == spec_motion(
            current == 1,
        ),
        previous == current ==> spec_state_notification_motions(true, previous, current)[0]
            != spec_motion(current == 1),
{
}

} // verus!
