//! The route of one application frame: a suspended surface, the loading
//! card, the world entry hand-off, Glue or the resident world; and how long
//! the loop yields while a movie waits for its next frame.
//!
//! Durations are nanoseconds.

use vstd::prelude::*;

use crate::cinematic::RuntimeCinematicPoll;

verus! {

/// How long a suspended (minimized) surface yields per frame.
pub const SUSPENDED_YIELD_NANOS: u128 = 16_000_000;

/// Bounds of a movie wait: input latency stays bounded without presenting
/// duplicate frames.
pub const MIN_MOVIE_WAIT_NANOS: u128 = 1_000_000;

pub const MAX_MOVIE_WAIT_NANOS: u128 = 8_000_000;

/// The loading card, if any.
#[derive(Clone, Copy, Debug, PartialEq, Eq, Structural)]
pub enum LoadingCard {
    Absent,
    Presenting,
    /// The world behind it is ready: the card retires this frame.
    ReadyToComplete,
}

/// What this frame presents.
#[derive(Clone, Copy, Debug, PartialEq, Eq, Structural)]
pub enum PresentRoute {
    /// Service audio only and yield.
    Suspended,
    /// Present the loading card and nothing else.
    PresentLoading,
    /// The world is being entered: present nothing.
    Skip,
    Glue,
    World,
}

pub open spec fn spec_present_route(
    suspended: bool,
    loading: LoadingCard,
    entering_world: bool,
    world_active: bool,
) -> (PresentRoute, bool) {
    if suspended {
        (PresentRoute::Suspended, false)
    } else if loading == LoadingCard::Presenting {
        (PresentRoute::PresentLoading, false)
    } else {
        let retire = loading == LoadingCard::ReadyToComplete;
        if entering_world {
            (PresentRoute::Skip, retire)
        } else if world_active {
            (PresentRoute::World, retire)
        } else {
            (PresentRoute::Glue, retire)
        }
    }
}

/// The route of this frame and whether the loading card retires first.
pub fn present_route(suspended: bool, loading: LoadingCard, entering_world: bool, world_active: bool) -> (route:
    (PresentRoute, bool))
    ensures
        route == spec_present_route(suspended, loading, entering_world, world_active),
{
    if suspended {
        return (PresentRoute::Suspended, false);
    }
    let retire = match loading {
        LoadingCard::Presenting => {
            return (PresentRoute::PresentLoading, false);
        },
        LoadingCard::ReadyToComplete => true,
        LoadingCard::Absent => false,
    };
    if entering_world {
        (PresentRoute::Skip, retire)
    } else if world_active {
        (PresentRoute::World, retire)
    } else {
        (PresentRoute::Glue, retire)
    }
}

/// What the Glue path does after synchronizing the movie.
#[derive(Clone, Copy, Debug, PartialEq, Eq, Structural)]
pub enum MovieStep {
    /// The movie presented this frame: record it and end the frame.
    Presented,
    /// Yield this long, then end the frame.
    Wait { nanos: u128 },
    /// Tell Glue the movie at this object finished, drop the presented Glue
    /// frame and present Glue.
    Finished { object_index: usize },
    /// Present Glue.
    Stopped,
    /// No movie: continue with the world or Glue.
    Continue,
}

/// A movie wait clamped to between one and eight milliseconds.
pub open spec fn spec_movie_wait(remaining: u128) -> u128 {
    if remaining < MIN_MOVIE_WAIT_NANOS {
        MIN_MOVIE_WAIT_NANOS
    } else if remaining > MAX_MOVIE_WAIT_NANOS {
        MAX_MOVIE_WAIT_NANOS
    } else {
        remaining
    }
}

pub fn movie_step(poll: RuntimeCinematicPoll) -> (step: MovieStep)
    ensures
        step == match poll {
            RuntimeCinematicPoll::Presented => MovieStep::Presented,
            RuntimeCinematicPoll::Waiting { remaining } => MovieStep::Wait {
                nanos: spec_movie_wait(remaining),
            },
            RuntimeCinematicPoll::Finished { object_index } => MovieStep::Finished { object_index },
            RuntimeCinematicPoll::Stopped => MovieStep::Stopped,
            RuntimeCinematicPoll::Idle => MovieStep::Continue,
        },
{
    match poll {
        RuntimeCinematicPoll::Presented => MovieStep::Presented,
        RuntimeCinematicPoll::Waiting { remaining } => {
            let nanos = if remaining < MIN_MOVIE_WAIT_NANOS {
                MIN_MOVIE_WAIT_NANOS
            } else if remaining > MAX_MOVIE_WAIT_NANOS {
                MAX_MOVIE_WAIT_NANOS
            } else {
                remaining
            };
            MovieStep::Wait { nanos }
        },
        RuntimeCinematicPoll::Finished { object_index } => MovieStep::Finished { object_index },
        RuntimeCinematicPoll::Stopped => MovieStep::Stopped,
        RuntimeCinematicPoll::Idle => MovieStep::Continue,
    }
}

/// What failed inside the Glue model owner.
#[derive(Clone, Copy, Debug, PartialEq, Eq, Structural)]
pub enum GlueModelFailure {
    Asset,
    Vulkan,
    Cpu,
    /// A frame error while uploading textures.
    FrameTextureUpload,
    /// A frame error in Vulkan.
    FrameVulkan,
    /// Any other model failure (a bad model, a contained character error).
    Other,
}

/// The family of an application error, as far as recovery decides on it.
#[derive(Clone, Copy, Debug, PartialEq, Eq, Structural)]
pub enum ApplicationErrorFamily {
    Ui,
    UiRender,
    NativeText,
    UiEvent,
    WorldUi,
    Player,
    GlueModel(GlueModelFailure),
    /// Renderer, protocol, asset and every other failure.
    Other,
}

/// UI, text, event, world-UI and player failures are contained in the
/// console; a Glue model failure is contained unless its asset, Vulkan, CPU
/// or frame upload infrastructure failed. Everything else is fatal.
pub fn is_recoverable_presentation_error(error: ApplicationErrorFamily) -> (recoverable: bool)
    ensures
        recoverable == match error {
            ApplicationErrorFamily::GlueModel(failure) => failure == GlueModelFailure::Other,
            ApplicationErrorFamily::Other => false,
            _ => true,
        },
{
    match error {
        ApplicationErrorFamily::Ui => true,
        ApplicationErrorFamily::UiRender => true,
        ApplicationErrorFamily::NativeText => true,
        ApplicationErrorFamily::UiEvent => true,
        ApplicationErrorFamily::WorldUi => true,
        ApplicationErrorFamily::Player => true,
        ApplicationErrorFamily::GlueModel(failure) => match failure {
            GlueModelFailure::Other => true,
            _ => false,
        },
        ApplicationErrorFamily::Other => false,
    }
}

/// A presenting loading card owns the whole frame, and a suspended surface
/// presents nothing at all.
pub proof fn law_loading_card_owns_its_frames(entering_world: bool, world_active: bool)
    ensures
        spec_present_route(false, LoadingCard::Presenting, entering_world, world_active) == (
            PresentRoute::PresentLoading,
            false,
        ),
        spec_present_route(true, LoadingCard::Presenting, entering_world, world_active).0
            == PresentRoute::Suspended,
{
}

/// Outside a suspension, a presenting loading card and world entry, an
/// application frame presents the resident world exactly when one is active
/// and Glue exactly when none is, whether or not a finished loading card
/// retires first; the card retires exactly when it is ready to complete.
pub proof fn law_world_frames_present_the_world(loading: LoadingCard, world_active: bool)
    requires
        loading != LoadingCard::Presenting,
    ensures
        (spec_present_route(false, loading, false, world_active).0 == PresentRoute::World)
            == world_active,
        (spec_present_route(false, loading, false, world_active).0 == PresentRoute::Glue)
            == !world_active,
        spec_present_route(false, loading, false, world_active).1 == (loading
            == LoadingCard::ReadyToComplete),
        spec_present_route(false, loading, true, world_active).0 == PresentRoute::Skip,
{
}

} // verus!
