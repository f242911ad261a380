use std::collections::VecDeque;

use solarity_runtime::retirement::{
    retire_step, CpuRetirementQueue, ReservationFailed, RetirementReservation,
};

#[test]
fn backlog_keeps_every_owner_in_order() {
    let mut queue = CpuRetirementQueue::new();
    assert!(queue.is_empty());
    queue.extend(vec![1, 2, 3]);
    queue.extend(vec![4]);
    assert!(!queue.is_empty());
    let backlog = queue.take_backlog();
    assert!(queue.is_empty());
    assert_eq!(backlog, VecDeque::from(vec![1, 2, 3, 4]));
}

#[test]
fn steps_drop_sixteen_owners_at_a_time() {
    let mut backlog: VecDeque<u32> = (0..40).collect();
    assert!(retire_step(&mut backlog));
    assert_eq!(backlog.front(), Some(&16));
    assert!(retire_step(&mut backlog));
    assert_eq!(backlog.len(), 8);
    assert!(!retire_step(&mut backlog));
    assert!(backlog.is_empty());
    let mut exact: VecDeque<u32> = (0..16).collect();
    assert!(!retire_step(&mut exact));
    assert!(exact.is_empty());
    assert!(!retire_step(&mut exact));
}

#[test]
fn reserved_service_hands_the_whole_backlog_over_only_when_granted() {
    let mut queue = CpuRetirementQueue::new();
    queue.extend(vec![1, 2, 3]);
    assert!(matches!(queue.service_reserved(RetirementReservation::AtCapacity), Ok(None)));
    assert!(!queue.is_empty());
    assert!(matches!(
        queue.service_reserved(RetirementReservation::Failed),
        Err(ReservationFailed)
    ));
    assert!(!queue.is_empty());
    match queue.service_reserved(RetirementReservation::Granted) {
        Ok(Some(backlog)) => assert_eq!(backlog, VecDeque::from(vec![1, 2, 3])),
        _ => panic!("a granted reservation takes the backlog"),
    }
    assert!(queue.is_empty());
}

#[test]
fn an_empty_queue_needs_no_worker_and_services_at_once() {
    let mut queue: CpuRetirementQueue<u32> = CpuRetirementQueue::new();
    assert!(!queue.needs_worker());
    assert!(matches!(queue.service_reserved(RetirementReservation::Failed), Ok(None)));
    queue.extend(vec![4]);
    assert!(queue.needs_worker());
}
