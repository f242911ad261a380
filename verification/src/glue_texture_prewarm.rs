//! The speculative prewarm of configured Glue textures: the worker job waits
//! for speculative capacity, runs resumably, and its decoded sources are
//! published to the GPU only behind an authored cover (the authentication
//! dialog or a movie). The caller owns the job and the caches.

use vstd::prelude::*;

verus! {

/// Where the source-loading job stands.
#[derive(Clone, Copy, Debug, PartialEq, Eq, Structural)]
pub enum PrewarmJob {
    /// No job: never configured, finished, or abandoned after a failure.
    Idle,
    /// Waiting for speculative capacity, with its catalog and paths intact.
    Deferred,
    Running,
}

/// How submitting a deferred job went.
#[derive(Clone, Copy, Debug, PartialEq, Eq, Structural)]
pub enum PrewarmAdmission {
    /// The executor has no speculative capacity now.
    NoCapacity,
    /// The submission itself was refused at capacity; the job is abandoned.
    AtCapacity,
    Submitted,
    /// Inspecting capacity or submitting failed; the failure is recorded.
    Failed,
}

/// The job state and whether decoded sources wait for GPU publication.
#[derive(Clone, Copy, Debug, PartialEq, Eq, Structural)]
pub struct GlueTexturePrewarm {
    pub job: PrewarmJob,
    pub gpu_pending: bool,
}

impl GlueTexturePrewarm {
    /// A job is deferred when there are paths to prewarm.
    pub fn new(has_paths: bool) -> (prewarm: Self)
        ensures
            prewarm.job == if has_paths {
                PrewarmJob::Deferred
            } else {
                PrewarmJob::Idle
            },
            !prewarm.gpu_pending,
    {
        GlueTexturePrewarm {
            job: if has_paths {
                PrewarmJob::Deferred
            } else {
                PrewarmJob::Idle
            },
            gpu_pending: false,
        }
    }

    /// A deferred job after an admission attempt: no capacity keeps it
    /// deferred, a submission runs it, a refused submission or a failure
    /// abandons it.
    pub fn admitted(&mut self, admission: PrewarmAdmission)
        requires
            old(self).job == PrewarmJob::Deferred,
        ensures
            final(self).gpu_pending == old(self).gpu_pending,
            final(self).job == match admission {
                PrewarmAdmission::NoCapacity => PrewarmJob::Deferred,
                PrewarmAdmission::AtCapacity => PrewarmJob::Idle,
                PrewarmAdmission::Submitted => PrewarmJob::Running,
                PrewarmAdmission::Failed => PrewarmJob::Idle,
            },
    {
        self.job = match admission {
            PrewarmAdmission::NoCapacity => PrewarmJob::Deferred,
            PrewarmAdmission::AtCapacity => PrewarmJob::Idle,
            PrewarmAdmission::Submitted => PrewarmJob::Running,
            PrewarmAdmission::Failed => PrewarmJob::Idle,
        };
    }

    /// A running job is joined once it finished; returns whether to join.
    pub fn poll_running(&mut self, finished: bool) -> (join: bool)
        requires
            old(self).job == PrewarmJob::Running,
        ensures
            join == finished,
            final(self).job == if finished {
                PrewarmJob::Idle
            } else {
                PrewarmJob::Running
            },
            final(self).gpu_pending == old(self).gpu_pending,
    {
        if finished {
            self.job = PrewarmJob::Idle;
        }
        finished
    }

    /// The joined job merged `admitted` new sources into the UI cache: any
    /// new source awaits GPU publication.
    pub fn adopted(&mut self, admitted: usize)
        ensures
            final(self).job == old(self).job,
            final(self).gpu_pending == (old(self).gpu_pending || admitted != 0),
    {
        self.gpu_pending = self.gpu_pending || admitted != 0;
    }

    /// Whether pending sources are uploaded this frame: only behind a cover.
    pub fn upload_due(&self, authentication_cover: bool, movie_playing: bool) -> (due: bool)
        ensures
            due == ((authentication_cover || movie_playing) && self.gpu_pending),
    {
        (authentication_cover || movie_playing) && self.gpu_pending
    }

    /// The pending sources were uploaded.
    pub fn uploaded(&mut self)
        ensures
            final(self).job == old(self).job,
            !final(self).gpu_pending,
    {
        self.gpu_pending = false;
    }
}

} // verus!
