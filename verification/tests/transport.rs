use solarity_runtime::transport::{
    admission_plan, completion_successor, motion, needs_presample, object_can_board,
    retention_without_volume, retiring_passenger_needs_frame, route_elapsed_ms,
    state_notification_motions, TransportAdmission, TransportRouteMotion,
};

#[test]
fn state_notifications_toggle_a_repeated_state_first() {
    assert_eq!(motion(true), TransportRouteMotion::StopAtStation);
    assert!(state_notification_motions(false, 0, 1).is_empty());
    assert_eq!(
        state_notification_motions(true, 0, 1),
        vec![TransportRouteMotion::StopAtStation]
    );
    assert_eq!(
        state_notification_motions(true, 1, 1),
        vec![TransportRouteMotion::Moving, TransportRouteMotion::StopAtStation]
    );
    assert_eq!(
        state_notification_motions(true, 0, 0),
        vec![TransportRouteMotion::StopAtStation, TransportRouteMotion::Moving]
    );
}

#[test]
fn admission_synchronizes_progress_then_freezes_or_moves() {
    assert_eq!(admission_plan(false, 0xFFFF_FFFF, 1), None);
    assert_eq!(
        admission_plan(true, 0x1234_0010, 0),
        Some((0x1234, TransportAdmission::FreezeAtStation))
    );
    assert_eq!(
        admission_plan(true, 0x8000_0000, 1),
        Some((0x8000, TransportAdmission::Move(TransportRouteMotion::StopAtStation)))
    );
    assert_eq!(
        admission_plan(true, 0x0000_0020, 0),
        Some((0, TransportAdmission::Move(TransportRouteMotion::Moving)))
    );
}

#[test]
fn route_clock_uses_the_wrapping_client_delta() {
    assert_eq!(route_elapsed_ms(true, 500, 100), 0);
    assert_eq!(route_elapsed_ms(false, 500, 100), 400);
    assert_eq!(route_elapsed_ms(false, 5, u32::MAX - 4), 10);
}

#[test]
fn completion_chain() {
    assert_eq!(completion_successor(146), Some(147));
    assert_eq!(completion_successor(148), Some(149));
    assert_eq!(completion_successor(162), Some(163));
    assert_eq!(completion_successor(164), Some(0));
    assert_eq!(completion_successor(147), None);
}

#[test]
fn passenger_predicates() {
    assert!(object_can_board(8));
    assert!(object_can_board(0x2F));
    assert!(!object_can_board(0x37 & !8));
    assert_eq!(retention_without_volume(5, true), Some(false));
    assert_eq!(retention_without_volume(15, false), Some(true));
    assert_eq!(retention_without_volume(11, true), None);
    assert!(retiring_passenger_needs_frame(false, true, 11));
    assert!(!retiring_passenger_needs_frame(true, true, 11));
    assert!(!retiring_passenger_needs_frame(false, false, 15));
    assert!(!retiring_passenger_needs_frame(false, true, 3));
    assert!(needs_presample(251));
    assert!(!needs_presample(250));
}

use solarity_runtime::transport::ReadyModelObservation;

#[test]
fn first_ready_model_frame_is_observed_once() {
    let mut observation = ReadyModelObservation::new();
    assert!(!observation.frame(false, true));
    assert!(!observation.observed);
    assert!(observation.frame(true, true));
    assert!(!observation.frame(true, true));
    let mut animated = ReadyModelObservation::new();
    assert!(!animated.frame(true, false));
    assert!(animated.observed);
}
