use solarity_runtime::area_triggers::{AreaTriggerEntry, RuntimeAreaTriggers};

/// Rows (id, map, sphere centre x) with a radius-2 sphere each.
const ROWS: [(u32, u32, f32); 3] = [(90, 1, 0.), (20, 1, 2.), (10, 2, 0.)];

fn tracker() -> RuntimeAreaTriggers {
    RuntimeAreaTriggers::new(
        ROWS.iter()
            .map(|&(id, map_id, _)| AreaTriggerEntry { id, map_id })
            .collect(),
    )
}

/// Per-row containment of a position on a map, as the sphere volumes report it.
fn inside(map_id: u32, position: [f32; 3]) -> Vec<bool> {
    ROWS.iter()
        .map(|&(_, row_map, x)| {
            let d = [position[0] - x, position[1], position[2]];
            row_map == map_id && d[0] * d[0] + d[1] * d[1] + d[2] * d[2] <= 4.0
        })
        .collect()
}

fn poll(
    tracker: &mut RuntimeAreaTriggers,
    now: u32,
    map_id: u32,
    position: Option<[f32; 3]>,
    mover: Option<u64>,
) -> Option<u32> {
    let flags = position.map(|p| inside(map_id, p));
    tracker.poll(now, map_id, flags.as_deref(), mover)
}

#[test]
fn entry_rearms_only_after_leaving_the_active_volume() {
    let mut tracker = tracker();
    tracker.enter_map(1, 0);
    assert_eq!(poll(&mut tracker, 99, 1, Some([1., 0., 0.]), Some(7)), None);
    assert_eq!(poll(&mut tracker, 100, 1, Some([1., 0., 0.]), Some(7)), Some(90));
    // The second overlapping row cannot fire while the first is active.
    assert_eq!(poll(&mut tracker, 200, 1, Some([1., 0., 0.]), Some(7)), None);
    assert_eq!(poll(&mut tracker, 300, 1, Some([3., 0., 0.]), Some(7)), Some(20));
    assert_eq!(poll(&mut tracker, 400, 1, Some([10., 0., 0.]), Some(7)), None);
    assert_eq!(poll(&mut tracker, 500, 1, Some([0., 0., 0.]), Some(7)), Some(90));
    tracker.enter_map(1, 500);
    assert_eq!(poll(&mut tracker, 600, 1, Some([0., 0., 0.]), Some(7)), Some(90));
}

#[test]
fn dead_player_missing_mover_and_clock_wrap_preserve_poll_policy() {
    let mut tracker = tracker();
    tracker.enter_map(1, u32::MAX - 49);
    assert_eq!(poll(&mut tracker, 49, 1, Some([0.; 3]), Some(7)), None);
    assert_eq!(poll(&mut tracker, 50, 1, None, Some(7)), None);
    assert_eq!(poll(&mut tracker, 150, 1, Some([0.; 3]), None), None);
    assert_eq!(poll(&mut tracker, 250, 1, Some([0.; 3]), Some(7)), Some(90));
    assert_eq!(poll(&mut tracker, 350, 1, None, Some(7)), None);
    assert_eq!(poll(&mut tracker, 450, 1, Some([0.; 3]), Some(7)), None);
    assert_eq!(poll(&mut tracker, 550, 2, Some([0.; 3]), Some(7)), Some(10));
    tracker.disconnect();
    assert_eq!(poll(&mut tracker, 650, 1, Some([0.; 3]), Some(7)), None);
    assert_eq!(poll(&mut tracker, 750, 1, Some([0.; 3]), Some(7)), Some(90));
}

#[test]
fn unknown_map_has_no_rows_and_service_waits_for_the_next_poll() {
    let mut tracker = tracker();
    assert!(tracker.should_service(0));
    tracker.enter_map(5, 1000);
    assert!(!tracker.should_service(1099));
    assert!(tracker.should_service(1100));
    assert_eq!(poll(&mut tracker, 1100, 5, Some([0.; 3]), Some(7)), None);
    assert_eq!(tracker.active(), None);
}

#[test]
fn active_row_is_forgotten_on_disconnect() {
    let mut tracker = tracker();
    tracker.enter_map(1, 0);
    assert_eq!(poll(&mut tracker, 100, 1, Some([0.; 3]), Some(7)), Some(90));
    assert_eq!(tracker.active(), Some(0));
    tracker.disconnect();
    assert_eq!(tracker.active(), None);
    assert_eq!(tracker.entries().len(), 3);
}

#[test]
fn service_without_a_world_disconnects_and_idles() {
    let mut tracker = tracker();
    assert!(tracker.begin_service(true, 0));
    tracker.enter_map(1, 0);
    assert!(!tracker.begin_service(true, 50));
    assert!(tracker.begin_service(true, 100));
    assert_eq!(poll(&mut tracker, 100, 1, Some([0.; 3]), Some(7)), Some(90));
    assert_eq!(tracker.active(), Some(0));
    assert!(!tracker.begin_service(false, 150));
    assert_eq!(tracker.active(), None);
    assert!(tracker.begin_service(true, 150));
}
