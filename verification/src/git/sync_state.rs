//! The record of a sync that stopped at a merge conflict.

use crate::git::oid::Oid;
use vstd::prelude::*;
use vstd::string::StringExecFns;

verus! {

/// What `sync --continue` needs to resume: the local commit whose remote
/// branch could not be merged, the remote commit that conflicted with it,
/// the parent of the local commit, and the branch that HEAD left.
#[derive(Debug, Clone, PartialEq, Eq)]
pub struct SyncState {
    pub main_commit_id: Oid,
    pub remote_commit_id: Oid,
    pub main_commit_parent_id: Oid,
    pub main_branch_name: String,
}

/// The contents of a `SyncState`.
pub struct SyncStateView {
    pub main_commit: Seq<u8>,
    pub remote_commit: Seq<u8>,
    pub main_commit_parent: Seq<u8>,
    pub main_branch: Seq<char>,
}

impl View for SyncState {
    type V = SyncStateView;

    open spec fn view(&self) -> SyncStateView {
        SyncStateView {
            main_commit: self.main_commit_id@,
            remote_commit: self.remote_commit_id@,
            main_commit_parent: self.main_commit_parent_id@,
            main_branch: self.main_branch_name@,
        }
    }
}

/// The directory, below the repository, that holds the record.
pub open spec fn journal_dir() -> Seq<char> {
    ".ubr"@
}

/// The name of the file that holds the record.
pub open spec fn journal_file() -> Seq<char> {
    "SYNC_MERGE_HEAD"@
}

impl SyncState {
    /// The record of a conflict between the remote branch of `main_commit`
    /// and `remote_commit`.
    pub fn new(main_commit: Oid, remote_commit: Oid, main_commit_parent: Oid, branch: String) -> (r:
        SyncState)
        ensures
            r@ == (SyncStateView {
                main_commit: main_commit@,
                remote_commit: remote_commit@,
                main_commit_parent: main_commit_parent@,
                main_branch: branch@,
            }),
    {
        SyncState {
            main_commit_id: main_commit,
            remote_commit_id: remote_commit,
            main_commit_parent_id: main_commit_parent,
            main_branch_name: branch,
        }
    }

    /// The same record, field by field.
    pub fn duplicate(&self) -> (r: SyncState)
        ensures
            r@ == self@,
    {
        SyncState {
            main_commit_id: self.main_commit_id,
            remote_commit_id: self.remote_commit_id,
            main_commit_parent_id: self.main_commit_parent_id,
            main_branch_name: self.main_branch_name.clone(),
        }
    }

    /// The path of the record's file, relative to the repository.
    pub fn relative_path() -> (p: String)
        ensures
            p@ == journal_dir() + "/"@ + journal_file(),
    {
        let mut p = String::from_str(".ubr");
        p.append("/");
        p.append("SYNC_MERGE_HEAD");
        p
    }
}

} // verus!
