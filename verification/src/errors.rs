//! The failures that an operation can report. Each carries the text of what
//! went wrong underneath, as the caller reported it.

use vstd::prelude::*;
use vstd::string::*;
use crate::config::ConfigError;

verus! {

/// The mirror could not be made ready.
#[derive(Clone, Debug, PartialEq, Eq)]
pub enum RepoError {
    /// The mirror was absent or unusable and cloning the remote failed.
    CloneFailed(String),
    /// The mirror's HEAD could not be read or has no name.
    HeadUnreadable(String),
    /// The remote has no branch of the configured name.
    BranchNotFound(String),
    /// The branch could not be created, moved forward or checked out.
    CheckoutFailed(String),
}

/// The buffer could not be changed.
#[derive(Clone, Debug, PartialEq, Eq)]
pub enum BufferError {
    /// Decrypting or encrypting the file failed.
    CryptoFailed(String),
    /// Looking up, creating or writing the file failed.
    IoFailed(String),
}

/// The change could not be recorded or sent.
#[derive(Clone, Debug, PartialEq, Eq)]
pub enum GitError {
    /// The buffer could not be added to the index.
    StageFailed(String),
    /// The commit could not be created.
    CommitFailed(String),
    /// The remote did not take the push.
    PushFailed(String),
}

/// Any failure of a request.
#[derive(Clone, Debug, PartialEq, Eq)]
pub enum Failure {
    Config(ConfigError),
    Repo(RepoError),
    Buffer(BufferError),
    Git(GitError),
}

/// `<what>: <cause>`.
pub open spec fn labelled(what: Seq<char>, cause: Seq<char>) -> Seq<char> {
    what + ": "@ + cause
}

fn label(what: &str, cause: &String) -> (text: String)
    ensures
        text@ == labelled(what@, cause@),
{
    let mut text = String::from_str(what);
    text.append(": ");
    text.append(cause.as_str());
    text
}

impl RepoError {
    /// The description: what failed, then the cause.
    pub open spec fn described(self) -> Seq<char> {
        match self {
            RepoError::CloneFailed(cause) => labelled("clone failed"@, cause@),
            RepoError::HeadUnreadable(cause) => labelled("HEAD unreadable"@, cause@),
            RepoError::BranchNotFound(cause) => labelled("branch not found"@, cause@),
            RepoError::CheckoutFailed(cause) => labelled("checkout failed"@, cause@),
        }
    }

    /// The description: what failed, then the cause.
    pub fn describe(&self) -> (text: String)
        ensures
            text@ == self.described(),
    {
        match self {
            RepoError::CloneFailed(cause) => label("clone failed", cause),
            RepoError::HeadUnreadable(cause) => label("HEAD unreadable", cause),
            RepoError::BranchNotFound(cause) => label("branch not found", cause),
            RepoError::CheckoutFailed(cause) => label("checkout failed", cause),
        }
    }
}

impl BufferError {
    /// The description: what failed, then the cause.
    pub open spec fn described(self) -> Seq<char> {
        match self {
            BufferError::CryptoFailed(cause) => labelled("crypto failed"@, cause@),
            BufferError::IoFailed(cause) => labelled("io failed"@, cause@),
        }
    }

    /// The description: what failed, then the cause.
    pub fn describe(&self) -> (text: String)
        ensures
            text@ == self.described(),
    {
        match self {
            BufferError::CryptoFailed(cause) => label("crypto failed", cause),
            BufferError::IoFailed(cause) => label("io failed", cause),
        }
    }
}

impl GitError {
    /// The description: what failed, then the cause.
    pub open spec fn described(self) -> Seq<char> {
        match self {
            GitError::StageFailed(cause) => labelled("stage failed"@, cause@),
            GitError::CommitFailed(cause) => labelled("commit failed"@, cause@),
            GitError::PushFailed(cause) => labelled("push failed"@, cause@),
        }
    }

    /// The description: what failed, then the cause.
    pub fn describe(&self) -> (text: String)
        ensures
            text@ == self.described(),
    {
        match self {
            GitError::StageFailed(cause) => label("stage failed", cause),
            GitError::CommitFailed(cause) => label("commit failed", cause),
            GitError::PushFailed(cause) => label("push failed", cause),
        }
    }
}

impl Failure {
    /// The description of the failure underneath.
    pub open spec fn described(self) -> Seq<char> {
        match self {
            Failure::Config(e) => e.described(),
            Failure::Repo(e) => e.described(),
            Failure::Buffer(e) => e.described(),
            Failure::Git(e) => e.described(),
        }
    }

    /// The description of the failure underneath.
    pub fn describe(&self) -> (text: String)
        ensures
            text@ == self.described(),
    {
        match self {
            Failure::Config(e) => e.describe(),
            Failure::Repo(e) => e.describe(),
            Failure::Buffer(e) => e.describe(),
            Failure::Git(e) => e.describe(),
        }
    }
}

} // verus!
