//! Staging, committing and pushing, as plain descriptions of what is to be
//! done. The caller carries them out on the repository.

use vstd::prelude::*;
use vstd::string::*;
use crate::clock::{get_now, is_message_stamp};
use crate::config::Config;
use crate::names::{buffer_index_path, joined, push_refspec, refspec, REMOTE_NAME};

verus! {

/// The reference that every commit moves.
pub const HEAD_REF: &'static str = "HEAD";

/// What is added to the index for one change of a buffer.
#[derive(Clone, Debug, PartialEq, Eq)]
pub struct StageRequest {
    /// Path of the buffer, relative to the mirror's root.
    pub path: String,
}

/// Who a commit is by, as the repository's own settings say.
#[derive(Clone, Debug, PartialEq, Eq)]
pub struct Author {
    pub name: String,
    pub email: String,
}

/// A commit to be created. It has one parent, so the history stays a line.
#[derive(Clone, Debug, PartialEq, Eq)]
pub struct CommitRecord {
    /// The tree written from the index.
    pub tree_oid: String,
    /// Author and committer.
    pub author: Author,
    /// The message: the minute at which the commit is made.
    pub message: String,
    /// The only parent.
    pub parent_oid: String,
}

/// A push to be made.
#[derive(Clone, Debug, PartialEq, Eq)]
pub struct PushRequest {
    /// Name of the remote.
    pub remote: String,
    /// What is pushed where.
    pub refspec: String,
    /// Private key for the remote; the user name is the one in its address.
    pub ssh_file: String,
}

impl CommitRecord {
    /// The commit with the given tree, author and message on top of `head_oid`.
    pub fn new(tree_oid: String, author: Author, message: String, head_oid: String) -> (r:
        CommitRecord)
        ensures
            r == (CommitRecord { tree_oid, author, message, parent_oid: head_oid }),
    {
        CommitRecord { tree_oid, author, message, parent_oid: head_oid }
    }

    /// The parents of the commit: exactly one.
    pub open spec fn parent_ids(self) -> Seq<String> {
        seq![self.parent_oid]
    }

    /// The parents of the commit: exactly one.
    pub fn parents(&self) -> (list: Vec<String>)
        ensures
            list@ == self.parent_ids(),
    {
        let mut list: Vec<String> = Vec::new();
        list.push(self.parent_oid.clone());
        list
    }

    /// The reference that the commit moves: HEAD.
    pub fn update_ref(&self) -> (name: &'static str)
        ensures
            name@ == HEAD_REF@,
    {
        HEAD_REF
    }
}

/// What staging the buffer `buf_name` adds to the index.
pub fn add_buffer(buf_name: &String, conf: &Config) -> (r: StageRequest)
    ensures
        r.path@ == joined(conf.buffer_dir_rel@, buf_name@),
{
    StageRequest { path: buffer_index_path(conf, buf_name.as_str()) }
}

/// The commit that records the index written as `tree_oid`, made now on top
/// of `head_oid`, the commit that HEAD points to. Its message is the current
/// local minute and its only parent is `head_oid`.
pub fn commit_buffer(tree_oid: String, author: Author, head_oid: String) -> (r: CommitRecord)
    ensures
        r.tree_oid == tree_oid,
        r.author == author,
        r.parent_oid == head_oid,
        r.parent_ids() == seq![head_oid],
        is_message_stamp(r.message@),
{
    let message = get_now();
    CommitRecord::new(tree_oid, author, message, head_oid)
}

/// The push that sends the configured branch to the branch of the same name
/// on the remote the mirror was cloned from.
pub fn push_to_repo(conf: &Config) -> (r: PushRequest)
    ensures
        r.remote@ == REMOTE_NAME@,
        r.refspec@ == refspec(conf.branch@),
        r.ssh_file == conf.ssh_file,
{
    PushRequest {
        remote: String::from_str(REMOTE_NAME),
        refspec: push_refspec(conf.branch.as_str()),
        ssh_file: conf.ssh_file.clone(),
    }
}

} // verus!
