use solarity_runtime::glue_texture_prewarm::{GlueTexturePrewarm, PrewarmAdmission, PrewarmJob};

#[test]
fn job_waits_for_capacity_then_runs_and_publishes_behind_a_cover() {
    assert_eq!(GlueTexturePrewarm::new(false).job, PrewarmJob::Idle);
    let mut prewarm = GlueTexturePrewarm::new(true);
    assert_eq!(prewarm.job, PrewarmJob::Deferred);
    prewarm.admitted(PrewarmAdmission::NoCapacity);
    assert_eq!(prewarm.job, PrewarmJob::Deferred);
    prewarm.admitted(PrewarmAdmission::Submitted);
    assert_eq!(prewarm.job, PrewarmJob::Running);
    assert!(!prewarm.poll_running(false));
    assert!(prewarm.poll_running(true));
    assert_eq!(prewarm.job, PrewarmJob::Idle);
    prewarm.adopted(0);
    assert!(!prewarm.upload_due(true, true));
    prewarm.adopted(12);
    assert!(!prewarm.upload_due(false, false));
    assert!(prewarm.upload_due(false, true));
    assert!(prewarm.upload_due(true, false));
    prewarm.uploaded();
    assert!(!prewarm.upload_due(true, true));
}

#[test]
fn a_failed_admission_abandons_the_job() {
    let mut prewarm = GlueTexturePrewarm::new(true);
    prewarm.admitted(PrewarmAdmission::Failed);
    assert_eq!(prewarm.job, PrewarmJob::Idle);
    assert!(!prewarm.gpu_pending);
}

#[test]
fn a_submission_refused_at_capacity_abandons_the_job() {
    let mut prewarm = GlueTexturePrewarm::new(true);
    prewarm.admitted(PrewarmAdmission::AtCapacity);
    assert_eq!(prewarm.job, PrewarmJob::Idle);
}
