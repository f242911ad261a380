use solarity_runtime::cinematic::RuntimeCinematicPoll;
use solarity_runtime::presentation::{
    movie_step, present_route, LoadingCard, MovieStep, PresentRoute,
};

#[test]
fn frame_routes() {
    assert_eq!(
        present_route(true, LoadingCard::Presenting, false, true),
        (PresentRoute::Suspended, false)
    );
    assert_eq!(
        present_route(false, LoadingCard::Presenting, true, true),
        (PresentRoute::PresentLoading, false)
    );
    assert_eq!(
        present_route(false, LoadingCard::ReadyToComplete, false, true),
        (PresentRoute::World, true)
    );
    assert_eq!(
        present_route(false, LoadingCard::ReadyToComplete, true, true),
        (PresentRoute::Skip, true)
    );
    assert_eq!(
        present_route(false, LoadingCard::Absent, false, false),
        (PresentRoute::Glue, false)
    );
}

#[test]
fn movie_waits_are_clamped_between_one_and_eight_milliseconds() {
    assert_eq!(
        movie_step(RuntimeCinematicPoll::Waiting { remaining: 0 }),
        MovieStep::Wait { nanos: 1_000_000 }
    );
    assert_eq!(
        movie_step(RuntimeCinematicPoll::Waiting { remaining: 5_000_000 }),
        MovieStep::Wait { nanos: 5_000_000 }
    );
    assert_eq!(
        movie_step(RuntimeCinematicPoll::Waiting { remaining: 40_000_000 }),
        MovieStep::Wait { nanos: 8_000_000 }
    );
    assert_eq!(movie_step(RuntimeCinematicPoll::Presented), MovieStep::Presented);
    assert_eq!(
        movie_step(RuntimeCinematicPoll::Finished { object_index: 4 }),
        MovieStep::Finished { object_index: 4 }
    );
    assert_eq!(movie_step(RuntimeCinematicPoll::Stopped), MovieStep::Stopped);
    assert_eq!(movie_step(RuntimeCinematicPoll::Idle), MovieStep::Continue);
}

use solarity_runtime::presentation::{
    is_recoverable_presentation_error, ApplicationErrorFamily, GlueModelFailure,
};

#[test]
fn only_ui_side_failures_are_contained() {
    assert!(is_recoverable_presentation_error(ApplicationErrorFamily::Ui));
    assert!(is_recoverable_presentation_error(ApplicationErrorFamily::Player));
    assert!(is_recoverable_presentation_error(ApplicationErrorFamily::GlueModel(
        GlueModelFailure::Other
    )));
    assert!(!is_recoverable_presentation_error(ApplicationErrorFamily::GlueModel(
        GlueModelFailure::FrameVulkan
    )));
    assert!(!is_recoverable_presentation_error(ApplicationErrorFamily::GlueModel(
        GlueModelFailure::Asset
    )));
    assert!(!is_recoverable_presentation_error(ApplicationErrorFamily::Other));
}
