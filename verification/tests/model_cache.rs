use solarity_runtime::model_cache::CacheMaintenance;

const MS: u128 = 1_000_000;

#[test]
fn collection_waits_for_its_deadline_and_runs_one_at_a_time() {
    let mut cache = CacheMaintenance::new();
    assert!(!cache.observe_task(true));
    assert!(!cache.deadline_stale(false, false, 0));
    assert!(cache.deadline_stale(true, false, 0));
    cache.set_deadline(10 * MS, Some(500));
    assert_eq!(cache.deadline, Some(510 * MS));
    assert!(!cache.collection_due(509 * MS));
    assert!(cache.collection_due(510 * MS));
    assert!(cache.deadline_stale(false, false, 510 * MS));
    cache.submitted();
    assert!(cache.pending && cache.deadline.is_none());
    assert!(!cache.collection_due(10_000 * MS));
    assert!(!cache.observe_task(false));
    assert!(cache.observe_task(true));
    assert!(!cache.pending);
    assert!(cache.deadline_stale(false, true, 0));
    cache.set_deadline(20 * MS, None);
    assert!(!cache.collection_due(u128::MAX / 2));
}
