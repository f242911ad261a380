use solarity_runtime::archive_job::{archive_step, ArchiveStage, ArchiveTurn, TaskStep};

#[test]
fn archives_mount_one_per_turn_before_the_domain_runs() {
    let (stage, step) = archive_step(ArchiveStage::Unopened, ArchiveTurn::Begun { ok: true });
    assert_eq!((stage, step), (ArchiveStage::Mounting, TaskStep::Continue));
    let (stage, step) = archive_step(stage, ArchiveTurn::Advanced { ok: true, done: false });
    assert_eq!((stage, step), (ArchiveStage::Mounting, TaskStep::Continue));
    let (stage, step) = archive_step(stage, ArchiveTurn::Advanced { ok: true, done: true });
    assert_eq!((stage, step), (ArchiveStage::Ready, TaskStep::Continue));
    let (stage, step) = archive_step(stage, ArchiveTurn::DomainWaits);
    assert_eq!((stage, step), (ArchiveStage::Ready, TaskStep::Wait));
    let (stage, step) = archive_step(stage, ArchiveTurn::DomainContinued);
    assert_eq!((stage, step), (ArchiveStage::Ready, TaskStep::Continue));
    let (stage, step) = archive_step(stage, ArchiveTurn::DomainCompleted);
    assert_eq!((stage, step), (ArchiveStage::Finished, TaskStep::Complete));
}

#[test]
fn mount_errors_finish_the_job() {
    assert_eq!(
        archive_step(ArchiveStage::Unopened, ArchiveTurn::Begun { ok: false }),
        (ArchiveStage::Finished, TaskStep::Complete)
    );
    assert_eq!(
        archive_step(ArchiveStage::Mounting, ArchiveTurn::Advanced { ok: false, done: true }),
        (ArchiveStage::Finished, TaskStep::Complete)
    );
}
