use solarity_runtime::world_benchmark::{
    captures_frame, tile_changes, world_benchmark_phases, world_benchmark_precondition,
};

#[test]
fn phases_append_travel_only_with_a_segment() {
    assert_eq!(
        world_benchmark_phases(false),
        vec!["streaming", "stationary", "orbit", "pointer"]
    );
    assert_eq!(
        world_benchmark_phases(true),
        vec![
            "streaming",
            "stationary",
            "orbit",
            "pointer",
            "travel_out",
            "travel_back",
            "settled"
        ]
    );
}

#[test]
fn captures_first_last_and_quarters_of_moving_phases() {
    let frames = 16;
    let stationary: Vec<usize> = (0..frames)
        .filter(|&index| captures_frame("stationary", index, frames))
        .collect();
    assert_eq!(stationary, vec![0, 15]);
    let orbit: Vec<usize> = (0..frames)
        .filter(|&index| captures_frame("orbit", index, frames))
        .collect();
    assert_eq!(orbit, vec![0, 4, 8, 12, 15]);
    let short: Vec<usize> = (0..3)
        .filter(|&index| captures_frame("travel_out", index, 3))
        .collect();
    assert_eq!(short, vec![0, 1, 2]);
    assert!(captures_frame("settled", 0, 1));
}

#[test]
fn precondition_requires_a_fresh_application_and_ready_player() {
    assert_eq!(world_benchmark_precondition(false, false, false, true), None);
    assert_eq!(
        world_benchmark_precondition(true, false, false, true),
        Some("requires a fresh diagnostic application")
    );
    assert_eq!(
        world_benchmark_precondition(false, false, true, false),
        Some("requires a fresh diagnostic application")
    );
    assert_eq!(
        world_benchmark_precondition(false, false, false, false),
        Some("fixture player is missing FrameXML facts")
    );
}

#[test]
fn tile_changes_count_admissions_and_evictions() {
    let previous = [(31, 49), (32, 49), (31, 50)];
    let current = [(32, 49), (31, 50), (33, 49), (33, 50)];
    assert_eq!(tile_changes(&previous, &current), (2, 1));
    assert_eq!(tile_changes(&current, &current), (0, 0));
    assert_eq!(tile_changes(&[], &current), (4, 0));
}
