use solarity_runtime::cinematic::{
    cinematic_request_step, repeated_frame_wait, CinematicClock, CinematicClockError,
    ActiveMovie, CinematicFrameStep, CinematicRequestStep,
};
use std::time::Duration;

fn nanos(d: Duration) -> u128 {
    d.as_nanos()
}

#[test]
fn first_and_advanced_frames_present_immediately() {
    let deadline = nanos(Duration::from_millis(40));
    let elapsed = nanos(Duration::from_millis(10));
    assert_eq!(repeated_frame_wait(None, 0, deadline, elapsed), None);
    assert_eq!(repeated_frame_wait(Some(0), 1, deadline, elapsed), None);
}

#[test]
fn repeated_frame_waits_only_until_its_authored_deadline() {
    assert_eq!(
        repeated_frame_wait(
            Some(7),
            7,
            nanos(Duration::from_millis(75)),
            nanos(Duration::from_millis(50)),
        ),
        Some(nanos(Duration::from_millis(25))),
    );
    assert_eq!(
        repeated_frame_wait(
            Some(7),
            7,
            nanos(Duration::from_millis(50)),
            nanos(Duration::from_millis(75)),
        ),
        Some(nanos(Duration::ZERO)),
    );
}

const MS: u128 = 1_000_000;

#[test]
fn clock_presents_each_frame_once_and_finishes_after_last_interval() {
    // Frames at 100, 140 and 180 ms of stream time.
    let mut clock = CinematicClock::open(100 * MS, Some(140 * MS));
    assert_eq!(clock.end_time(), None);
    assert_eq!(clock.step(0), Ok(CinematicFrameStep::Present));
    clock.mark_presented();
    assert_eq!(
        clock.step(10 * MS),
        Ok(CinematicFrameStep::Wait { remaining: 30 * MS })
    );
    assert!(!clock.pending_due(39 * MS));
    assert!(clock.pending_due(40 * MS));
    assert_eq!(clock.take_pending(), Ok(()));
    assert_eq!(clock.frame_index(), 1);
    clock.receive_pending(Some(180 * MS));
    assert_eq!(clock.step(41 * MS), Ok(CinematicFrameStep::Present));
    clock.mark_presented();
    assert_eq!(clock.take_pending(), Ok(()));
    clock.receive_pending(None);
    // The last frame lasts one more 40 ms interval: it ends at 120 ms.
    assert_eq!(clock.end_time(), Some(120 * MS));
    assert_eq!(clock.step(100 * MS), Ok(CinematicFrameStep::Present));
    clock.mark_presented();
    assert_eq!(
        clock.step(110 * MS),
        Ok(CinematicFrameStep::Wait { remaining: 10 * MS })
    );
    assert_eq!(clock.step(120 * MS), Ok(CinematicFrameStep::Finish));
}

#[test]
fn single_frame_movie_lasts_the_default_interval() {
    let clock = CinematicClock::open(5 * MS, None);
    assert_eq!(clock.end_time(), Some(16 * MS));
    let simultaneous = CinematicClock::open(5 * MS, Some(5 * MS));
    assert_eq!(simultaneous.end_time(), None);
    assert_eq!(simultaneous.next_change_time(), Ok(0));
}

#[test]
fn take_pending_without_successor_reports_lost_state() {
    let mut clock = CinematicClock::open(0, None);
    assert_eq!(clock.take_pending(), Err(CinematicClockError::State));
}

#[test]
fn request_steps_follow_generation_changes() {
    assert_eq!(cinematic_request_step(None, None), CinematicRequestStep::Idle);
    assert_eq!(cinematic_request_step(Some(3), None), CinematicRequestStep::Stop);
    assert_eq!(
        cinematic_request_step(None, Some(3)),
        CinematicRequestStep::Open { stop_previous: false }
    );
    assert_eq!(
        cinematic_request_step(Some(2), Some(3)),
        CinematicRequestStep::Open { stop_previous: true }
    );
    assert_eq!(cinematic_request_step(Some(3), Some(3)), CinematicRequestStep::Continue);
}

#[test]
fn withdrawn_movie_is_forgotten_before_its_audio_stops() {
    let mut movie = ActiveMovie::new();
    assert_eq!(movie.take_request(Some(4)), CinematicRequestStep::Open { stop_previous: false });
    assert_eq!(movie.generation, None);
    movie.opened(4);
    assert_eq!(movie.take_request(Some(4)), CinematicRequestStep::Continue);
    assert_eq!(movie.generation, Some(4));
    assert_eq!(movie.take_request(None), CinematicRequestStep::Stop);
    assert_eq!(movie.generation, None);
    assert_eq!(movie.take_request(None), CinematicRequestStep::Idle);
    movie.opened(5);
    assert_eq!(movie.take_request(Some(6)), CinematicRequestStep::Open { stop_previous: true });
    assert_eq!(movie.generation, None);
    movie.opened(6);
    movie.finished();
    assert_eq!(movie.take_request(None), CinematicRequestStep::Idle);
}
