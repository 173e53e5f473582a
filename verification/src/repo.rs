//! The repository lifecycle: what it takes to have the local mirror open
//! with the configured branch checked out.
//!
//! The caller owns the repository. It asks a [`RepoJob`] what to do next,
//! does it, and reports what happened; the job decides what follows. Commits
//! are named by their ids written as text.

use vstd::prelude::*;
use vstd::string::*;
use crate::config::Config;
use crate::errors::RepoError;
use crate::names::{branch_ref, local_ref, remote_branch_ref, tracking_ref};

verus! {

/// Where a job stands.
#[derive(Clone, Debug, PartialEq, Eq)]
pub enum RepoStage {
    /// The mirror is being opened.
    Opening,
    /// The mirror could not be opened; the remote is being cloned.
    Cloning,
    /// The name of HEAD is being read.
    ReadingHead,
    /// HEAD is elsewhere; the reference that tracks the remote's branch is
    /// being looked up.
    FindingRemote,
    /// The remote's branch is at `target`; the local branch is being looked up.
    FindingLocal { target: String },
    /// There is no local branch; it is being created at `target`.
    Creating { target: String },
    /// The local branch is at `tip`; it is being asked whether `target`
    /// descends from it.
    Comparing { target: String, tip: String },
    /// The local branch is being moved forward to `target`.
    Forwarding { target: String },
    /// The branch's tree is being checked out.
    CheckingOut,
    /// HEAD is being pointed to the branch.
    SettingHead,
    /// The mirror is open and HEAD names the branch.
    Ready,
    /// A step failed; none is taken after it.
    Failed(RepoError),
}

/// What the caller is asked to do next.
#[derive(Clone, Debug, PartialEq, Eq)]
pub enum RepoRequest {
    /// Open the repository in `dir`.
    Open { dir: String },
    /// Clone `url` into `dir`, authenticating with the key in `ssh_file`
    /// and the user name that the address holds.
    Clone { url: String, dir: String, ssh_file: String },
    /// Read the symbolic name of HEAD.
    ReadHead,
    /// Look up the reference `name` and the commit it points to.
    FindReference { name: String },
    /// Create the local branch `branch` at the commit `target`, without
    /// replacing a branch that exists.
    CreateBranch { branch: String, target: String },
    /// Find out whether `commit` descends from `ancestor`.
    IsDescendant { commit: String, ancestor: String },
    /// Point the reference `name` to the commit `target`.
    MoveBranch { name: String, target: String },
    /// Check out the tree of the reference `name` into the working directory.
    CheckoutTree { name: String },
    /// Point HEAD to the reference `name`.
    SetHead { name: String },
    /// Nothing: the job has ended.
    Finish,
}

/// What the caller reports of the request it was given.
#[derive(Clone, Debug, PartialEq, Eq)]
pub enum RepoEvent {
    /// The requested step was done.
    Succeeded,
    /// The requested step failed, with the cause.
    Failed(String),
    /// The answer to `ReadHead`: the symbolic name of HEAD.
    Head(String),
    /// An answer to `FindReference`: the commit that the reference points to.
    Commit(String),
    /// An answer to `FindReference`: there is no such reference.
    Absent,
    /// The answer to `IsDescendant`.
    Answer(bool),
}

/// One attempt to make the mirror ready.
#[derive(Clone, Debug, PartialEq, Eq)]
pub struct RepoJob {
    /// Address of the remote.
    pub url: String,
    /// Directory of the mirror.
    pub dir: String,
    /// Private key for the remote.
    pub ssh_file: String,
    /// The configured branch.
    pub branch: String,
    /// Full name of the local branch.
    pub local: String,
    /// Name of the reference that tracks the branch on the remote.
    pub tracking: String,
    /// How far the job has come.
    pub stage: RepoStage,
}

impl RepoJob {
    /// The two reference names are those of the configured branch.
    pub open spec fn well_formed(self) -> bool {
        &&& self.local@ == local_ref(self.branch@)
        &&& self.tracking@ == tracking_ref(self.branch@)
    }

    /// The job was made for the mirror that `conf` describes.
    pub open spec fn serves(self, conf: Config) -> bool {
        &&& self.url == conf.url
        &&& self.dir == conf.local_dir
        &&& self.ssh_file == conf.ssh_file
        &&& self.branch == conf.branch
    }

    /// The job has ended, well or badly.
    pub open spec fn ended(self) -> bool {
        self.stage is Ready || self.stage is Failed
    }

    /// How far a stage is from the start. Each step leads to a stage that
    /// is farther.
    pub open spec fn progress(self) -> nat {
        match self.stage {
            RepoStage::Opening => 0,
            RepoStage::Cloning => 1,
            RepoStage::ReadingHead => 2,
            RepoStage::FindingRemote => 3,
            RepoStage::FindingLocal { .. } => 4,
            RepoStage::Creating { .. } => 5,
            RepoStage::Comparing { .. } => 5,
            RepoStage::Forwarding { .. } => 6,
            RepoStage::CheckingOut => 7,
            RepoStage::SettingHead => 8,
            RepoStage::Ready => 9,
            RepoStage::Failed(_) => 9,
        }
    }

    /// The request that is pending at each stage.
    pub open spec fn pending(self) -> RepoRequest {
        match self.stage {
            RepoStage::Opening => RepoRequest::Open { dir: self.dir },
            RepoStage::Cloning => RepoRequest::Clone {
                url: self.url,
                dir: self.dir,
                ssh_file: self.ssh_file,
            },
            RepoStage::ReadingHead => RepoRequest::ReadHead,
            RepoStage::FindingRemote => RepoRequest::FindReference { name: self.tracking },
            RepoStage::FindingLocal { .. } => RepoRequest::FindReference { name: self.local },
            RepoStage::Creating { target } => RepoRequest::CreateBranch {
                branch: self.branch,
                target,
            },
            RepoStage::Comparing { target, tip } => RepoRequest::IsDescendant {
                commit: target,
                ancestor: tip,
            },
            RepoStage::Forwarding { target } => RepoRequest::MoveBranch {
                name: self.local,
                target,
            },
            RepoStage::CheckingOut => RepoRequest::CheckoutTree { name: self.local },
            RepoStage::SettingHead => RepoRequest::SetHead { name: self.local },
            RepoStage::Ready => RepoRequest::Finish,
            RepoStage::Failed(_) => RepoRequest::Finish,
        }
    }

    /// The stage that follows when the caller has reported `event`. A
    /// report that does not answer the pending request changes nothing.
    pub open spec fn stage_after(self, event: RepoEvent) -> RepoStage {
        match self.stage {
            RepoStage::Opening => match event {
                RepoEvent::Succeeded => RepoStage::ReadingHead,
                RepoEvent::Failed(_) => RepoStage::Cloning,
                _ => self.stage,
            },
            RepoStage::Cloning => match event {
                RepoEvent::Succeeded => RepoStage::ReadingHead,
                RepoEvent::Failed(cause) => RepoStage::Failed(RepoError::CloneFailed(cause)),
                _ => self.stage,
            },
            RepoStage::ReadingHead => match event {
                RepoEvent::Head(name) => if name@ == self.local@ {
                    RepoStage::Ready
                } else {
                    RepoStage::FindingRemote
                },
                RepoEvent::Failed(cause) => RepoStage::Failed(RepoError::HeadUnreadable(cause)),
                _ => self.stage,
            },
            RepoStage::FindingRemote => match event {
                RepoEvent::Commit(target) => RepoStage::FindingLocal { target },
                RepoEvent::Absent => RepoStage::Failed(RepoError::BranchNotFound(self.tracking)),
                RepoEvent::Failed(cause) => RepoStage::Failed(RepoError::CheckoutFailed(cause)),
                _ => self.stage,
            },
            RepoStage::FindingLocal { target } => match event {
                RepoEvent::Commit(tip) => if tip@ == target@ {
                    RepoStage::CheckingOut
                } else {
                    RepoStage::Comparing { target, tip }
                },
                RepoEvent::Absent => RepoStage::Creating { target },
                RepoEvent::Failed(cause) => RepoStage::Failed(RepoError::CheckoutFailed(cause)),
                _ => self.stage,
            },
            RepoStage::Creating { target } => match event {
                RepoEvent::Succeeded => RepoStage::CheckingOut,
                RepoEvent::Failed(cause) => RepoStage::Failed(RepoError::CheckoutFailed(cause)),
                _ => self.stage,
            },
            RepoStage::Comparing { target, tip } => match event {
                RepoEvent::Answer(true) => RepoStage::Forwarding { target },
                RepoEvent::Answer(false) => RepoStage::Failed(
                    RepoError::CheckoutFailed(self.local),
                ),
                RepoEvent::Failed(cause) => RepoStage::Failed(RepoError::CheckoutFailed(cause)),
                _ => self.stage,
            },
            RepoStage::Forwarding { target } => match event {
                RepoEvent::Succeeded => RepoStage::CheckingOut,
                RepoEvent::Failed(cause) => RepoStage::Failed(RepoError::CheckoutFailed(cause)),
                _ => self.stage,
            },
            RepoStage::CheckingOut => match event {
                RepoEvent::Succeeded => RepoStage::SettingHead,
                RepoEvent::Failed(cause) => RepoStage::Failed(RepoError::CheckoutFailed(cause)),
                _ => self.stage,
            },
            RepoStage::SettingHead => match event {
                RepoEvent::Succeeded => RepoStage::Ready,
                RepoEvent::Failed(cause) => RepoStage::Failed(RepoError::CheckoutFailed(cause)),
                _ => self.stage,
            },
            RepoStage::Ready => self.stage,
            RepoStage::Failed(_) => self.stage,
        }
    }

    /// The job after the caller has reported `event`: only the stage changes.
    pub open spec fn after(self, event: RepoEvent) -> RepoJob {
        RepoJob { stage: self.stage_after(event), ..self }
    }
}

/// Begins making the mirror that `conf` describes ready: open it, or clone it
/// if it cannot be opened, and have the configured branch checked out.
/// Nothing has been done yet; the first request is to open the mirror.
pub fn open_repo(conf: &Config) -> (job: RepoJob)
    ensures
        job.serves(*conf),
        job.well_formed(),
        job.stage == RepoStage::Opening,
{
    RepoJob {
        url: conf.url.clone(),
        dir: conf.local_dir.clone(),
        ssh_file: conf.ssh_file.clone(),
        branch: conf.branch.clone(),
        local: branch_ref(conf.branch.as_str()),
        tracking: remote_branch_ref(conf.branch.as_str()),
        stage: RepoStage::Opening,
    }
}

impl RepoJob {
    /// What the caller is to do next.
    pub fn request(&self) -> (r: RepoRequest)
        ensures
            r == self.pending(),
    {
        match &self.stage {
            RepoStage::Opening => RepoRequest::Open { dir: self.dir.clone() },
            RepoStage::Cloning => RepoRequest::Clone {
                url: self.url.clone(),
                dir: self.dir.clone(),
                ssh_file: self.ssh_file.clone(),
            },
            RepoStage::ReadingHead => RepoRequest::ReadHead,
            RepoStage::FindingRemote => RepoRequest::FindReference { name: self.tracking.clone() },
            RepoStage::FindingLocal { .. } => RepoRequest::FindReference {
                name: self.local.clone(),
            },
            RepoStage::Creating { target } => RepoRequest::CreateBranch {
                branch: self.branch.clone(),
                target: target.clone(),
            },
            RepoStage::Comparing { target, tip } => RepoRequest::IsDescendant {
                commit: target.clone(),
                ancestor: tip.clone(),
            },
            RepoStage::Forwarding { target } => RepoRequest::MoveBranch {
                name: self.local.clone(),
                target: target.clone(),
            },
            RepoStage::CheckingOut => RepoRequest::CheckoutTree { name: self.local.clone() },
            RepoStage::SettingHead => RepoRequest::SetHead { name: self.local.clone() },
            RepoStage::Ready => RepoRequest::Finish,
            RepoStage::Failed(_) => RepoRequest::Finish,
        }
    }

    /// Takes the caller's report of the pending request and moves on.
    pub fn advance(self, event: RepoEvent) -> (next: RepoJob)
        ensures
            next == self.after(event),
            self.well_formed() ==> next.well_formed(),
    {
        let RepoJob { url, dir, ssh_file, branch, local, tracking, stage } = self;
        let stage = match stage {
            RepoStage::Opening => match event {
                RepoEvent::Succeeded => RepoStage::ReadingHead,
                RepoEvent::Failed(_) => RepoStage::Cloning,
                _ => RepoStage::Opening,
            },
            RepoStage::Cloning => match event {
                RepoEvent::Succeeded => RepoStage::ReadingHead,
                RepoEvent::Failed(cause) => RepoStage::Failed(RepoError::CloneFailed(cause)),
                _ => RepoStage::Cloning,
            },
            RepoStage::ReadingHead => match event {
                RepoEvent::Head(name) => if name == local {
                    RepoStage::Ready
                } else {
                    RepoStage::FindingRemote
                },
                RepoEvent::Failed(cause) => RepoStage::Failed(RepoError::HeadUnreadable(cause)),
                _ => RepoStage::ReadingHead,
            },
            RepoStage::FindingRemote => match event {
                RepoEvent::Commit(target) => RepoStage::FindingLocal { target },
                RepoEvent::Absent => RepoStage::Failed(
                    RepoError::BranchNotFound(tracking.clone()),
                ),
                RepoEvent::Failed(cause) => RepoStage::Failed(RepoError::CheckoutFailed(cause)),
                _ => RepoStage::FindingRemote,
            },
            RepoStage::FindingLocal { target } => match event {
                RepoEvent::Commit(tip) => if tip == target {
                    RepoStage::CheckingOut
                } else {
                    RepoStage::Comparing { target, tip }
                },
                RepoEvent::Absent => RepoStage::Creating { target },
                RepoEvent::Failed(cause) => RepoStage::Failed(RepoError::CheckoutFailed(cause)),
                _ => RepoStage::FindingLocal { target },
            },
            RepoStage::Creating { target } => match event {
                RepoEvent::Succeeded => RepoStage::CheckingOut,
                RepoEvent::Failed(cause) => RepoStage::Failed(RepoError::CheckoutFailed(cause)),
                _ => RepoStage::Creating { target },
            },
            RepoStage::Comparing { target, tip } => match event {
                RepoEvent::Answer(true) => RepoStage::Forwarding { target },
                RepoEvent::Answer(false) => RepoStage::Failed(
                    RepoError::CheckoutFailed(local.clone()),
                ),
                RepoEvent::Failed(cause) => RepoStage::Failed(RepoError::CheckoutFailed(cause)),
                _ => RepoStage::Comparing { target, tip },
            },
            RepoStage::Forwarding { target } => match event {
                RepoEvent::Succeeded => RepoStage::CheckingOut,
                RepoEvent::Failed(cause) => RepoStage::Failed(RepoError::CheckoutFailed(cause)),
                _ => RepoStage::Forwarding { target },
            },
            RepoStage::CheckingOut => match event {
                RepoEvent::Succeeded => RepoStage::SettingHead,
                RepoEvent::Failed(cause) => RepoStage::Failed(RepoError::CheckoutFailed(cause)),
                _ => RepoStage::CheckingOut,
            },
            RepoStage::SettingHead => match event {
                RepoEvent::Succeeded => RepoStage::Ready,
                RepoEvent::Failed(cause) => RepoStage::Failed(RepoError::CheckoutFailed(cause)),
                _ => RepoStage::SettingHead,
            },
            RepoStage::Ready => RepoStage::Ready,
            RepoStage::Failed(e) => RepoStage::Failed(e),
        };
        RepoJob { url, dir, ssh_file, branch, local, tracking, stage }
    }

    /// How the job ended: `None` while a request is pending.
    pub fn outcome(self) -> (r: Option<Result<(), RepoError>>)
        ensures
            r == match self.stage {
                RepoStage::Ready => Some(Ok::<(), RepoError>(())),
                RepoStage::Failed(e) => Some(Err::<(), RepoError>(e)),
                _ => None::<Result<(), RepoError>>,
            },
    {
        match self.stage {
            RepoStage::Ready => Some(Ok(())),
            RepoStage::Failed(e) => Some(Err(e)),
            _ => None,
        }
    }
}

/// Whether `event` is one of the answers to the request pending in `job`.
pub open spec fn answers(job: RepoJob, event: RepoEvent) -> bool {
    job.after(event) != job
}

/// A job becomes ready in two ways only: HEAD was read and already names
/// the configured branch, or HEAD was pointed to that branch and the caller
/// reported success. Either way HEAD names `refs/heads/<branch>`.
pub proof fn lemma_ready_means_on_branch(job: RepoJob, event: RepoEvent)
    requires
        job.well_formed(),
        !(job.stage is Ready),
        job.after(event).stage is Ready,
    ensures
        ({
            &&& job.stage is ReadingHead
            &&& event matches RepoEvent::Head(name)
            &&& name@ == local_ref(job.branch@)
        }) || ({
            &&& job.stage is SettingHead
            &&& event is Succeeded
            &&& job.pending() matches RepoRequest::SetHead { name }
            &&& name@ == local_ref(job.branch@)
        }),
{
}

/// When HEAD already names the configured branch, the job asks for nothing
/// beyond opening the mirror and reading HEAD.
pub proof fn lemma_ready_mirror_is_left_alone(job: RepoJob, head: String)
    requires
        job.well_formed(),
        job.stage is Opening,
        head@ == local_ref(job.branch@),
    ensures
        job.after(RepoEvent::Succeeded).pending() == RepoRequest::ReadHead,
        job.after(RepoEvent::Succeeded).after(RepoEvent::Head(head)).stage is Ready,
{
}

/// A job that has ended asks for nothing more and no report changes it: a
/// failure ends the job at the step that failed.
pub proof fn lemma_ended_job_stays(job: RepoJob, event: RepoEvent)
    requires
        job.ended(),
    ensures
        job.pending() == RepoRequest::Finish,
        job.after(event) == job,
{
}

/// Every report that answers the pending request takes the job to a later
/// stage, so no job takes more than nine steps; the settings and the two
/// reference names never change.
pub proof fn lemma_step_makes_progress(job: RepoJob, event: RepoEvent)
    requires
        answers(job, event),
    ensures
        job.after(event).progress() > job.progress(),
        job.after(event).well_formed() == job.well_formed(),
        forall|conf: Config| job.serves(conf) == #[trigger] job.after(event).serves(conf),
{
}

/// Which failure each step gives: a clone that fails is `CloneFailed`, a
/// HEAD that cannot be read is `HeadUnreadable`, a remote branch that does
/// not exist is `BranchNotFound`, and every later failure is `CheckoutFailed`.
/// A mirror that cannot be opened is no failure: it is cloned.
pub proof fn lemma_failure_kinds(job: RepoJob, event: RepoEvent)
    requires
        !(job.stage is Failed),
        job.after(event).stage matches RepoStage::Failed(e),
    ensures
        !(job.stage is Opening),
        job.after(event).stage->Failed_0 is CloneFailed <==> job.stage is Cloning,
        job.after(event).stage->Failed_0 is HeadUnreadable <==> job.stage is ReadingHead,
        job.after(event).stage->Failed_0 is BranchNotFound <==> job.stage is FindingRemote
            && event is Absent,
        event matches RepoEvent::Failed(cause) ==> ({
            ||| job.after(event).stage->Failed_0 == RepoError::CloneFailed(cause)
            ||| job.after(event).stage->Failed_0 == RepoError::HeadUnreadable(cause)
            ||| job.after(event).stage->Failed_0 == RepoError::CheckoutFailed(cause)
        }),
{
}

/// The local branch is only ever created where none exists, and only ever
/// moved to a commit that descends from where it stood.
pub proof fn lemma_branch_moves_forward_only(job: RepoJob, event: RepoEvent)
    requires
        answers(job, event),
    ensures
        job.after(event).stage is Creating ==> job.stage is FindingLocal && event is Absent,
        job.after(event).stage is Forwarding ==> job.stage is Comparing && event
            == RepoEvent::Answer(true),
        job.after(event).stage matches RepoStage::Forwarding { target } ==> job.pending()
            matches RepoRequest::IsDescendant { commit, ancestor } && commit == target,
{
}

} // verus!
