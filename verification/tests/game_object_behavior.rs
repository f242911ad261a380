use solarity_runtime::game_object_behavior::{
    flags_notification_pause, state_notification_applies, BehaviorCollision,
};

#[test]
fn doors_collide_exactly_while_closed() {
    let mut door = BehaviorCollision::new(0);
    assert!(door.door && !door.enabled);
    door.initialize(false, true);
    assert!(!door.eligible(0, 0));
    door.state_written(true);
    assert!(door.eligible(0, 0));
    assert!(!door.eligible(0, 0x8000));
    door.state_written(false);
    assert!(!door.eligible(0, 0));
}

#[test]
fn other_objects_collide_once_placed_with_volume() {
    let mut chest = BehaviorCollision::new(3);
    chest.initialize(false, false);
    assert!(!chest.eligible(3, 0));
    chest.initialize(false, true);
    chest.state_written(false);
    assert!(chest.eligible(3, 0x8000));
}

#[test]
fn state_and_flag_notifications() {
    assert!(state_notification_applies(0, 1, 0));
    assert!(!state_notification_applies(1, 1, 0));
    assert!(state_notification_applies(1, 1, 15));
    assert_eq!(flags_notification_pause(0x80, 0, true, true), Some(true));
    assert_eq!(flags_notification_pause(0, 0x80, true, true), Some(false));
    assert_eq!(flags_notification_pause(0x81, 0x80, true, true), None);
    assert_eq!(flags_notification_pause(0x80, 0, false, true), None);
    assert_eq!(flags_notification_pause(0x80, 0, true, false), None);
}

use solarity_runtime::game_object_behavior::has_generic_behavior;

#[test]
fn generic_behavior_families() {
    let generic: Vec<u8> = (0..=40).filter(|&t| has_generic_behavior(t)).collect();
    assert_eq!(
        generic,
        vec![0, 1, 2, 3, 5, 6, 8, 9, 10, 12, 16, 17, 18, 19, 22, 23, 24, 25, 26, 27, 29, 30, 34]
    );
}
