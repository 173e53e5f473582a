//! One request from beginning to end: make the mirror ready, change the
//! buffer, stage it, commit, push. Each task is tried once; the first
//! failure ends the request.

use vstd::prelude::*;
use vstd::string::*;
use crate::clock::is_name_stamp;
use crate::config::ConfigError;
use crate::errors::{BufferError, Failure, GitError, RepoError};
use crate::names::{canonical_name, overflow_name, resolve_buffer};

verus! {

/// Where a request stands.
#[derive(Clone, Debug, PartialEq, Eq)]
pub enum Stage {
    /// Nothing has been done.
    Idle,
    /// The mirror is open on the configured branch.
    RepoReady,
    /// The fragment is in the buffer.
    BufferModified,
    /// The buffer is in the index.
    Staged,
    /// The commit exists in the mirror.
    Committed,
    /// The commit is on the remote.
    Pushed,
    /// A task failed; none is taken after it.
    Failed(Failure),
}

/// What the caller is asked to do next.
#[derive(Clone, Debug, PartialEq, Eq)]
pub enum Task {
    /// Make the mirror ready.
    EnsureReady,
    /// Append `text` to the buffer `buf_name`.
    ModifyBuffer { buf_name: String, text: String },
    /// Add the buffer `buf_name` to the index.
    StageBuffer { buf_name: String },
    /// Commit the index.
    Commit,
    /// Push the branch.
    Push,
    /// Nothing: the request has ended.
    Finish,
}

/// What the caller reports of the task it was given.
#[derive(Clone, Debug, PartialEq, Eq)]
pub enum Report {
    /// The task was done.
    Succeeded,
    /// The settings could not be read for the task.
    ConfigFailed(ConfigError),
    /// Making the mirror ready failed.
    RepoFailed(RepoError),
    /// Changing the buffer failed.
    BufferFailed(BufferError),
    /// Staging, committing or pushing failed, with the cause.
    GitFailed(String),
}

/// What the request's sender is told.
#[derive(Clone, Debug, PartialEq, Eq)]
pub struct Reply {
    /// Whether the request went through to the remote.
    pub ok: bool,
    /// A word of success, or the description of the failure.
    pub body: String,
}

/// One request.
#[derive(Clone, Debug, PartialEq, Eq)]
pub struct SyncJob {
    /// The buffer that the request's category resolved to.
    pub buf_name: String,
    /// The fragment to append.
    pub text: String,
    /// How far the request has come.
    pub stage: Stage,
    /// Whether this request has created its commit in the mirror.
    pub committed: bool,
}

impl SyncJob {
    /// The commit exists from the moment the commit task succeeded, and not
    /// before: a push that fails leaves it in the mirror, and every failure
    /// of an earlier task leaves the mirror without it. Settings that cannot
    /// be read may end the request on either side of the commit.
    pub open spec fn consistent(self) -> bool {
        match self.stage {
            Stage::Committed => self.committed,
            Stage::Pushed => self.committed,
            Stage::Failed(Failure::Git(GitError::PushFailed(_))) => self.committed,
            Stage::Failed(Failure::Config(_)) => true,
            _ => !self.committed,
        }
    }

    /// The request has ended, well or badly.
    pub open spec fn ended(self) -> bool {
        self.stage is Pushed || self.stage is Failed
    }

    /// Number of tasks that lie behind the request.
    pub open spec fn progress(self) -> nat {
        match self.stage {
            Stage::Idle => 0,
            Stage::RepoReady => 1,
            Stage::BufferModified => 2,
            Stage::Staged => 3,
            Stage::Committed => 4,
            Stage::Pushed => 5,
            Stage::Failed(_) => 5,
        }
    }

    /// The task that is pending at each stage.
    pub open spec fn pending(self) -> Task {
        match self.stage {
            Stage::Idle => Task::EnsureReady,
            Stage::RepoReady => Task::ModifyBuffer { buf_name: self.buf_name, text: self.text },
            Stage::BufferModified => Task::StageBuffer { buf_name: self.buf_name },
            Stage::Staged => Task::Commit,
            Stage::Committed => Task::Push,
            Stage::Pushed => Task::Finish,
            Stage::Failed(_) => Task::Finish,
        }
    }

    /// The request after the caller has reported `report`. A report that
    /// does not answer the pending task changes nothing.
    pub open spec fn after(self, report: Report) -> SyncJob {
        match self.stage {
            Stage::Idle => match report {
                Report::ConfigFailed(e) => SyncJob {
                    stage: Stage::Failed(Failure::Config(e)),
                    ..self
                },
                Report::Succeeded => SyncJob { stage: Stage::RepoReady, ..self },
                Report::RepoFailed(e) => SyncJob { stage: Stage::Failed(Failure::Repo(e)), ..self },
                _ => self,
            },
            Stage::RepoReady => match report {
                Report::ConfigFailed(e) => SyncJob {
                    stage: Stage::Failed(Failure::Config(e)),
                    ..self
                },
                Report::Succeeded => SyncJob { stage: Stage::BufferModified, ..self },
                Report::BufferFailed(e) => SyncJob {
                    stage: Stage::Failed(Failure::Buffer(e)),
                    ..self
                },
                _ => self,
            },
            Stage::BufferModified => match report {
                Report::ConfigFailed(e) => SyncJob {
                    stage: Stage::Failed(Failure::Config(e)),
                    ..self
                },
                Report::Succeeded => SyncJob { stage: Stage::Staged, ..self },
                Report::GitFailed(cause) => SyncJob {
                    stage: Stage::Failed(Failure::Git(GitError::StageFailed(cause))),
                    ..self
                },
                _ => self,
            },
            Stage::Staged => match report {
                Report::ConfigFailed(e) => SyncJob {
                    stage: Stage::Failed(Failure::Config(e)),
                    ..self
                },
                Report::Succeeded => SyncJob { stage: Stage::Committed, committed: true, ..self },
                Report::GitFailed(cause) => SyncJob {
                    stage: Stage::Failed(Failure::Git(GitError::CommitFailed(cause))),
                    ..self
                },
                _ => self,
            },
            Stage::Committed => match report {
                Report::ConfigFailed(e) => SyncJob {
                    stage: Stage::Failed(Failure::Config(e)),
                    ..self
                },
                Report::Succeeded => SyncJob { stage: Stage::Pushed, ..self },
                Report::GitFailed(cause) => SyncJob {
                    stage: Stage::Failed(Failure::Git(GitError::PushFailed(cause))),
                    ..self
                },
                _ => self,
            },
            Stage::Pushed => self,
            Stage::Failed(_) => self,
        }
    }

    /// The request made ready for another push: where the request failed
    /// with its commit already in the mirror, it stands again where only
    /// the push is left to do. Any other request is left as it is.
    pub open spec fn retried(self) -> SyncJob {
        if self.committed && self.stage is Failed {
            SyncJob { stage: Stage::Committed, ..self }
        } else {
            self
        }
    }

    /// What the caller is to do next.
    pub fn task(&self) -> (t: Task)
        ensures
            t == self.pending(),
    {
        match &self.stage {
            Stage::Idle => Task::EnsureReady,
            Stage::RepoReady => Task::ModifyBuffer {
                buf_name: self.buf_name.clone(),
                text: self.text.clone(),
            },
            Stage::BufferModified => Task::StageBuffer { buf_name: self.buf_name.clone() },
            Stage::Staged => Task::Commit,
            Stage::Committed => Task::Push,
            Stage::Pushed => Task::Finish,
            Stage::Failed(_) => Task::Finish,
        }
    }

    /// Takes the caller's report of the pending task and moves on.
    pub fn advance(self, report: Report) -> (next: SyncJob)
        ensures
            next == self.after(report),
            self.consistent() ==> next.consistent(),
    {
        let SyncJob { buf_name, text, stage, committed } = self;
        match stage {
            Stage::Idle => match report {
                Report::ConfigFailed(e) => SyncJob {
                    buf_name,
                    text,
                    stage: Stage::Failed(Failure::Config(e)),
                    committed,
                },
                Report::Succeeded => SyncJob { buf_name, text, stage: Stage::RepoReady, committed },
                Report::RepoFailed(e) => SyncJob {
                    buf_name,
                    text,
                    stage: Stage::Failed(Failure::Repo(e)),
                    committed,
                },
                _ => SyncJob { buf_name, text, stage, committed },
            },
            Stage::RepoReady => match report {
                Report::ConfigFailed(e) => SyncJob {
                    buf_name,
                    text,
                    stage: Stage::Failed(Failure::Config(e)),
                    committed,
                },
                Report::Succeeded => SyncJob {
                    buf_name,
                    text,
                    stage: Stage::BufferModified,
                    committed,
                },
                Report::BufferFailed(e) => SyncJob {
                    buf_name,
                    text,
                    stage: Stage::Failed(Failure::Buffer(e)),
                    committed,
                },
                _ => SyncJob { buf_name, text, stage, committed },
            },
            Stage::BufferModified => match report {
                Report::ConfigFailed(e) => SyncJob {
                    buf_name,
                    text,
                    stage: Stage::Failed(Failure::Config(e)),
                    committed,
                },
                Report::Succeeded => SyncJob { buf_name, text, stage: Stage::Staged, committed },
                Report::GitFailed(cause) => SyncJob {
                    buf_name,
                    text,
                    stage: Stage::Failed(Failure::Git(GitError::StageFailed(cause))),
                    committed,
                },
                _ => SyncJob { buf_name, text, stage, committed },
            },
            Stage::Staged => match report {
                Report::ConfigFailed(e) => SyncJob {
                    buf_name,
                    text,
                    stage: Stage::Failed(Failure::Config(e)),
                    committed,
                },
                Report::Succeeded => SyncJob {
                    buf_name,
                    text,
                    stage: Stage::Committed,
                    committed: true,
                },
                Report::GitFailed(cause) => SyncJob {
                    buf_name,
                    text,
                    stage: Stage::Failed(Failure::Git(GitError::CommitFailed(cause))),
                    committed,
                },
                _ => SyncJob { buf_name, text, stage, committed },
            },
            Stage::Committed => match report {
                Report::ConfigFailed(e) => SyncJob {
                    buf_name,
                    text,
                    stage: Stage::Failed(Failure::Config(e)),
                    committed,
                },
                Report::Succeeded => SyncJob { buf_name, text, stage: Stage::Pushed, committed },
                Report::GitFailed(cause) => SyncJob {
                    buf_name,
                    text,
                    stage: Stage::Failed(Failure::Git(GitError::PushFailed(cause))),
                    committed,
                },
                _ => SyncJob { buf_name, text, stage, committed },
            },
            Stage::Pushed => SyncJob { buf_name, text, stage, committed },
            Stage::Failed(f) => SyncJob { buf_name, text, stage: Stage::Failed(f), committed },
        }
    }

    /// Makes a request that failed with its commit already in the mirror
    /// ready for another push, without a second commit. Any other request is
    /// left as it is.
    pub fn retry_push(self) -> (next: SyncJob)
        ensures
            next == self.retried(),
            self.consistent() ==> next.consistent(),
    {
        let SyncJob { buf_name, text, stage, committed } = self;
        match stage {
            Stage::Failed(f) => if committed {
                SyncJob { buf_name, text, stage: Stage::Committed, committed }
            } else {
                SyncJob { buf_name, text, stage: Stage::Failed(f), committed }
            },
            other => SyncJob { buf_name, text, stage: other, committed },
        }
    }

    /// How the request ended: `None` while a task is pending.
    pub fn outcome(self) -> (r: Option<Result<(), Failure>>)
        ensures
            r == match self.stage {
                Stage::Pushed => Some(Ok::<(), Failure>(())),
                Stage::Failed(f) => Some(Err::<(), Failure>(f)),
                _ => None::<Result<(), Failure>>,
            },
    {
        match self.stage {
            Stage::Pushed => Some(Ok(())),
            Stage::Failed(f) => Some(Err(f)),
            _ => None,
        }
    }

    /// What the sender is told once the request has ended: success, or the
    /// description of the failure. `None` while a task is pending.
    pub fn reply(&self) -> (r: Option<Reply>)
        ensures
            match self.stage {
                Stage::Pushed => r matches Some(reply) && reply.ok && reply.body@ == "Success!"@,
                Stage::Failed(f) => r matches Some(reply) && !reply.ok && reply.body@
                    == f.described(),
                _ => r is None,
            },
    {
        match &self.stage {
            Stage::Pushed => Some(Reply { ok: true, body: String::from_str("Success!") }),
            Stage::Failed(f) => Some(Reply { ok: false, body: f.describe() }),
            _ => None,
        }
    }
}

/// Begins a request that appends `text` to the buffer of the category
/// `buffer`. The category is resolved now: a known one to its fixed buffer,
/// any other to an unsorted buffer named by the current local minute.
pub fn sync_buffer(buffer: &String, text: String) -> (sync: SyncJob)
    ensures
        sync.text == text,
        sync.stage == Stage::Idle,
        !sync.committed,
        sync.consistent(),
        match canonical_name(buffer@) {
            Some(name) => sync.buf_name@ == name,
            None => exists|stamp: Seq<char>|
                is_name_stamp(stamp) && sync.buf_name@ == #[trigger] overflow_name(stamp),
        },
{
    SyncJob { buf_name: resolve_buffer(buffer), text, stage: Stage::Idle, committed: false }
}

/// A request that has ended asks for nothing more and no report changes it:
/// the first failure ends the request, and the tasks after it are never
/// asked for.
pub proof fn lemma_ended_request_stays(sync: SyncJob, report: Report)
    requires
        sync.ended(),
    ensures
        sync.pending() == Task::Finish,
        sync.after(report) == sync,
{
}

/// Every report that changes a request either takes it to the next stage
/// in the fixed order of the five tasks, or ends it as failed. No task is
/// tried twice.
pub proof fn lemma_stages_in_order(sync: SyncJob, report: Report)
    requires
        sync.after(report) != sync,
    ensures
        sync.after(report).stage is Failed || (report is Succeeded && sync.after(report).progress()
            == sync.progress() + 1),
        sync.after(report).progress() > sync.progress(),
        sync.after(report).buf_name == sync.buf_name,
        sync.after(report).text == sync.text,
{
}

/// A failed task is reported under its own kind with the cause it was
/// given; settings that cannot be read end the request at any task.
pub proof fn lemma_failure_is_reported(sync: SyncJob, report: Report)
    requires
        !(sync.stage is Failed),
        sync.after(report).stage matches Stage::Failed(f),
    ensures
        !(sync.stage is Pushed),
        report matches Report::ConfigFailed(e) ==> sync.after(report).stage == Stage::Failed(
            Failure::Config(e),
        ),
        report matches Report::RepoFailed(e) ==> sync.stage is Idle && sync.after(report).stage
            == Stage::Failed(Failure::Repo(e)),
        report matches Report::BufferFailed(e) ==> sync.stage is RepoReady && sync.after(
            report,
        ).stage == Stage::Failed(Failure::Buffer(e)),
        report matches Report::GitFailed(c) ==> match sync.stage {
            Stage::BufferModified => sync.after(report).stage == Stage::Failed(
                Failure::Git(GitError::StageFailed(c)),
            ),
            Stage::Staged => sync.after(report).stage == Stage::Failed(
                Failure::Git(GitError::CommitFailed(c)),
            ),
            Stage::Committed => sync.after(report).stage == Stage::Failed(
                Failure::Git(GitError::PushFailed(c)),
            ),
            _ => false,
        },
        !(report is Succeeded),
{
}

/// A push that fails leaves the commit in the mirror, and the request can
/// then be taken up again where only the push is left: no second commit is
/// asked for, and a push that succeeds ends the request well.
pub proof fn lemma_failed_push_keeps_commit(sync: SyncJob, cause: String)
    requires
        sync.consistent(),
        sync.stage is Committed,
    ensures
        sync.after(Report::GitFailed(cause)).stage == Stage::Failed(
            Failure::Git(GitError::PushFailed(cause)),
        ),
        sync.after(Report::GitFailed(cause)).committed,
        sync.after(Report::GitFailed(cause)).retried() == sync,
        sync.after(Report::GitFailed(cause)).retried().pending() == Task::Push,
        sync.after(Report::GitFailed(cause)).retried().after(Report::Succeeded).stage is Pushed,
{
}

/// The request after the caller has made the reports `reports`, one after
/// the other.
pub open spec fn after_all(sync: SyncJob, reports: Seq<Report>) -> SyncJob
    decreases reports.len(),
{
    if reports.len() == 0 {
        sync
    } else {
        after_all(sync, reports.drop_last()).after(reports.last())
    }
}

/// Nothing that is reported after a request has ended changes how it ended:
/// there is no second try of a task that failed.
pub proof fn lemma_no_retry_after_the_end(sync: SyncJob, reports: Seq<Report>)
    requires
        sync.ended(),
    ensures
        after_all(sync, reports) == sync,
    decreases reports.len(),
{
    if reports.len() > 0 {
        lemma_no_retry_after_the_end(sync, reports.drop_last());
    }
}

/// However many reports are made, a request never goes back, keeps its
/// buffer and its text, and has its commit only once the commit task has
/// succeeded.
pub proof fn lemma_requests_only_go_forward(sync: SyncJob, reports: Seq<Report>)
    requires
        sync.consistent(),
    ensures
        after_all(sync, reports).progress() >= sync.progress(),
        after_all(sync, reports).buf_name == sync.buf_name,
        after_all(sync, reports).text == sync.text,
        after_all(sync, reports).consistent(),
    decreases reports.len(),
{
    if reports.len() > 0 {
        lemma_requests_only_go_forward(sync, reports.drop_last());
    }
}

/// A request that failed with its commit in the mirror failed at the push:
/// either the remote did not take it or the settings could not be read for
/// it. Only such a request is taken up again by a retry.
pub proof fn lemma_retry_is_for_the_push_only(sync: SyncJob)
    requires
        sync.consistent(),
    ensures
        sync.retried() != sync ==> sync.retried().pending() == Task::Push && ({
            ||| sync.stage matches Stage::Failed(Failure::Git(GitError::PushFailed(_)))
            ||| sync.stage matches Stage::Failed(Failure::Config(_))
        }),
        sync.retried().committed == sync.committed,
{
}

} // verus!
