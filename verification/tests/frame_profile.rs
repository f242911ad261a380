use solarity_runtime::frame_profile::{
    FrameProfile, PhaseMarks, PhaseSample, ProfileScopes, ProfileWindow,
};

const MS: u128 = 1_000_000;

/// Sustained slow frames must retain outliers without logging once per frame.
#[test]
fn sustained_slow_frames_produce_bounded_reports_with_phase_outliers() {
    let start: u128 = 1_000_000 * MS;
    let mut window = ProfileWindow::new(start);
    let mut reports = 0;
    let mut reported_samples = 0;
    for frame in 1..=10_000u128 {
        let now = start + frame * 8 * MS;
        let elapsed = if frame % 250 == 0 { 40 * MS } else { 8 * MS };
        let phases = [
            PhaseSample { label: "prepare", elapsed: 2 * MS },
            PhaseSample { label: "present", elapsed: elapsed - 2 * MS },
        ];
        if window.record(now, elapsed, Some(100), &phases, 0) {
            assert_eq!(window.maximum(), 40 * MS);
            assert_eq!(window.slow_frames(), window.samples());
            assert_eq!(window.worst_phases()[1].elapsed, 38 * MS);
            assert_eq!(window.phase("prepare").unwrap().maximum, 2 * MS);
            assert_eq!(window.cycles(), u128::from(window.samples()) * 100);
            reported_samples += window.samples();
            reports += 1;
            window.reset(now);
        }
    }
    assert_eq!(reports, 40);
    assert_eq!(reported_samples, 10_000);
    assert_eq!(window.phases().len(), 2);
}

#[test]
fn fast_frames_are_counted_but_not_slow() {
    let mut window = ProfileWindow::new(0);
    let phases = [PhaseSample { label: "a", elapsed: MS }];
    assert!(!window.record(MS, 4 * MS, None, &phases, 3 * MS));
    assert_eq!(window.samples(), 1);
    assert_eq!(window.slow_frames(), 0);
    assert_eq!(window.cycle_samples(), 0);
    assert_eq!(window.tail(), 3 * MS);
    assert!(window.record(2_000 * MS, 5 * MS, Some(7), &phases, 0));
    assert_eq!(window.slow_frames(), 1);
    let a = window.phase("a").unwrap();
    assert_eq!((a.samples, a.elapsed, a.maximum), (2, 2 * MS, MS));
    assert_eq!(window.phase("b"), None);
    window.reset(2_000 * MS);
    assert_eq!(window.phase("a").unwrap().samples, 0);
    assert_eq!(window.started(), 2_000 * MS);
}

#[test]
fn earlier_clock_reading_never_reports() {
    let mut window = ProfileWindow::new(10_000 * MS);
    assert!(!window.record(0, MS, None, &[], 0));
}

#[test]
fn marks_attribute_time_since_previous_mark_and_keep_sixteen_slots() {
    let mut marks = PhaseMarks::new();
    marks.mark("platform events", 3 * MS);
    marks.mark("dispatch", 5 * MS);
    assert_eq!(marks.phases()[0].elapsed, 3 * MS);
    assert_eq!(marks.phases()[1].elapsed, 2 * MS);
    assert_eq!(marks.tail(9 * MS), 4 * MS);
    for i in 0..20u128 {
        marks.mark("x", (6 + i) * MS);
    }
    assert_eq!(marks.phases().len(), 16);
    assert_eq!(marks.tail(30 * MS), 5 * MS);
}

#[test]
fn report_leaves_out_phases_without_samples_this_interval() {
    let mut window = ProfileWindow::new(0);
    let both = [
        PhaseSample { label: "a", elapsed: MS },
        PhaseSample { label: "b", elapsed: 2 * MS },
    ];
    window.record(MS, 6 * MS, Some(10), &both, MS);
    window.reset(MS);
    let only_b = [PhaseSample { label: "b", elapsed: 3 * MS }];
    window.record(2 * MS, 7 * MS, None, &only_b, 0);
    let report = window.report();
    assert_eq!(report.samples, 1);
    assert_eq!(report.slow_frames, 1);
    assert_eq!(report.maximum, 7 * MS);
    assert_eq!(report.cycle_samples, 0);
    assert_eq!(report.phases.len(), 1);
    assert_eq!(report.phases[0].label, "b");
    assert_eq!(report.phases[0].total.elapsed, 3 * MS);
    assert_eq!(report.worst_phases.len(), 1);
}

#[test]
fn scopes_publish_at_most_one_report_per_scope_and_interval() {
    let mut scopes = ProfileScopes::new();
    let phases = [PhaseSample { label: "p", elapsed: MS }];
    assert!(scopes.record("present", 0, 6 * MS, None, &phases, 0).is_none());
    assert!(scopes.record("service", 1_000 * MS, MS, None, &[], 0).is_none());
    let report = scopes
        .record("present", 2_000 * MS, 2 * MS, Some(5), &phases, 0)
        .expect("the interval of the first scope has elapsed");
    assert_eq!(report.samples, 2);
    assert_eq!(report.slow_frames, 1);
    assert_eq!(report.cycles, 5);
    assert_eq!(report.phases[0].total.samples, 2);
    assert!(scopes.record("present", 2_000 * MS, MS, None, &[], 0).is_none());
    assert!(scopes.record("service", 2_500 * MS, MS, None, &[], 0).is_none());
    assert!(scopes.record("service", 3_000 * MS, MS, None, &[], 0).is_some());
    assert!(scopes.record("present", 4_000 * MS, MS, None, &[], 0).is_some());
}

#[test]
fn accepts_exactly_the_frames_that_fit() {
    let mut window = ProfileWindow::new(0);
    let phases = [PhaseSample { label: "a", elapsed: MS }];
    assert!(window.accepts(MS, Some(1), &phases, 0));
    let max = 18_446_744_073_709_551_615_999_999_999u128;
    assert!(window.accepts(max, None, &[], 0));
    assert!(!window.accepts(max + 1, None, &[], 0));
    assert!(!window.accepts(0, None, &[], max + 1));
    assert!(!window.accepts(0, Some(1), &[PhaseSample { label: "a", elapsed: max + 1 }], 0));
    window.record(MS, max - 1, None, &phases, 0);
    assert!(!window.accepts(2, None, &[], 0));
    assert!(window.accepts(1, None, &[], 0));
    assert!(!window.accepts(0, None, &[PhaseSample { label: "a", elapsed: max }], 0));
    assert!(window.accepts(0, None, &[PhaseSample { label: "b", elapsed: max }], 0));
    let scopes = ProfileScopes::new();
    assert!(scopes.accepts("x", 0, max, None, &[], 0));
    assert!(!scopes.accepts("x", 0, max + 1, None, &[], 0));
}

#[test]
fn window_phases_are_reported_in_name_order() {
    let mut window = ProfileWindow::new(0);
    let first = [
        PhaseSample { label: "world", elapsed: MS },
        PhaseSample { label: "glue", elapsed: 2 * MS },
        PhaseSample { label: "Zone", elapsed: MS },
    ];
    window.record(MS, 6 * MS, None, &first, 0);
    let second = [
        PhaseSample { label: "present", elapsed: MS },
        PhaseSample { label: "glue", elapsed: MS },
        PhaseSample { label: "glue input", elapsed: MS },
    ];
    window.record(2 * MS, 6 * MS, None, &second, 0);
    let labels: Vec<&str> = window.phases().iter().map(|entry| entry.label).collect();
    assert_eq!(labels, vec!["Zone", "glue", "glue input", "present", "world"]);
    assert_eq!(window.phase("glue").map(|total| total.samples), Some(2));
    let report = window.report();
    let reported: Vec<&str> = report.phases.iter().map(|entry| entry.label).collect();
    assert_eq!(reported, vec!["Zone", "glue", "glue input", "present", "world"]);
}

#[test]
fn marked_phases_add_up_to_the_time_of_each_mark() {
    let mut marks = PhaseMarks::new();
    let times = [2 * MS, 2 * MS, 7 * MS, 11 * MS];
    let labels = ["events", "glue", "world", "present"];
    for (label, time) in labels.iter().zip(times) {
        marks.mark(label, time);
    }
    let phases = marks.phases();
    assert_eq!(phases.len(), 4);
    let mut sum = 0;
    for (k, phase) in phases.iter().enumerate() {
        assert_eq!(phase.label, labels[k]);
        sum += phase.elapsed;
        assert_eq!(sum, times[k]);
    }
}

#[test]
fn consecutive_reports_of_a_window_are_an_interval_apart() {
    let mut window = ProfileWindow::new(0);
    let mut report_times = Vec::new();
    let mut counted = 0;
    for frame in 0..100u128 {
        let now = frame * 150 * MS;
        if window.record(now, MS, None, &[], 0) {
            counted += window.report().samples;
            report_times.push(now);
            window.reset(now);
        }
    }
    assert_eq!(counted + window.samples(), 100);
    assert!(report_times[0] >= 2_000 * MS);
    for pair in report_times.windows(2) {
        assert!(pair[1] - pair[0] >= 2_000 * MS);
    }
}

#[test]
fn a_disabled_profile_records_nothing() {
    let mut disabled = FrameProfile::new("present", false);
    disabled.mark("a", 3 * MS);
    disabled.mark("b", 5 * MS);
    assert!(disabled.phases().is_empty());
    assert_eq!(disabled.tail(9 * MS), 9 * MS);
    let mut enabled = FrameProfile::new("present", true);
    assert!(enabled.is_enabled());
    enabled.mark("a", 3 * MS);
    enabled.mark("b", 2 * MS);
    assert_eq!(enabled.phases().len(), 2);
    assert_eq!(enabled.phases()[1].elapsed, 0);
    assert_eq!(enabled.tail(9 * MS), 7 * MS);
    assert_eq!(enabled.label(), "present");
}
