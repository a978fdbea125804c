//! The ways in which a command fails.

use crate::git::oid::{encode_hex, Oid};
use crate::git::sync_state::SyncState;
use vstd::prelude::*;
use vstd::string::StringExecFns;

verus! {

/// Why a command stopped.
#[derive(Debug, Clone, PartialEq, Eq)]
pub enum EngineError {
    /// The revision that the user gave does not resolve.
    BadRevspec { revspec: String },
    /// The revision is at or below the upstream mainline.
    AlreadyPushed { commit: Oid },
    /// `create` was asked for a commit that is tracked, without `--force`.
    AlreadyTracked,
    /// `sync` was asked for a commit that is not tracked.
    NotTracked { revspec: String },
    /// The commit does not apply to the upstream mainline.
    CherrypickConflict,
    /// The remote branch of a commit could not be merged: `ours` and
    /// `theirs` conflict, the working tree shows where, and `state` is what
    /// `sync --continue` will need.
    MergeConflict { ours: Oid, theirs: Oid, state: SyncState },
    /// HEAD is on no branch.
    DetachedHead,
    /// Fetching from or pushing to the remote failed.
    Transport,
    /// A merge left nothing in the index.
    EmptyIndex,
    /// The commit has no message to name a branch after.
    EmptyMessage,
    /// `sync --continue` was given a revision.
    ContinueWithRevspec,
    /// `sync --continue` found no sync to continue.
    NothingToContinue,
    /// The remote branch of a tracked commit has not been fetched.
    MissingRemoteBranch { name: String },
    /// `create` would publish to a remote branch that exists.
    BranchExists { name: String },
    /// The repository refused an operation; `message` is what it said.
    Store { message: String },
}

/// What the user is told when the remote branch of a commit cannot be
/// merged.
pub open spec fn conflict_message(ours: Seq<u8>, theirs: Seq<u8>) -> Seq<char> {
    "Unable to merge local commit ("@ + encode_hex(ours) + ") with commit from remote ("@
        + encode_hex(theirs)
        + ")\nOnce all the conflicts has been resolved, run 'ubr sync --continue'\n"@
}

/// What the user is told of the failure `e`.
pub open spec fn message_of(e: EngineError) -> Seq<char> {
    match e {
        EngineError::BadRevspec { revspec } => "Bad revision '"@ + revspec@ + "'"@,
        EngineError::AlreadyPushed { commit } => "Commit "@ + encode_hex(commit@)
            + " is already pushed to the remote"@,
        EngineError::AlreadyTracked => "Commit is already tracked"@,
        EngineError::NotTracked { revspec } => "Commit "@ + revspec@
            + " is not tracked so cannot be synced"@,
        EngineError::CherrypickConflict => "There are conflicts"@,
        EngineError::MergeConflict { ours, theirs, state } => conflict_message(ours@, theirs@),
        EngineError::DetachedHead => "Detached HEAD"@,
        EngineError::Transport => "Unable to reach the remote"@,
        EngineError::EmptyIndex => "Index is empty"@,
        EngineError::EmptyMessage => "Commit has no message"@,
        EngineError::ContinueWithRevspec => "Can not call --continue with a reference"@,
        EngineError::NothingToContinue => "There is no sync to continue"@,
        EngineError::MissingRemoteBranch { name } => "Remote branch '"@ + name@ + "' is not known"@,
        EngineError::BranchExists { name } => "Remote branch '"@ + name@ + "' already exist"@,
        EngineError::Store { message } => message@,
    }
}

impl EngineError {
    /// What the user is told of this failure.
    pub fn message(&self) -> (s: String)
        ensures
            s@ == message_of(*self),
    {
        match self {
            EngineError::BadRevspec { revspec } => {
                let mut s = String::from_str("Bad revision '");
                s.append(revspec.as_str());
                s.append("'");
                s
            },
            EngineError::AlreadyPushed { commit } => {
                let mut s = String::from_str("Commit ");
                let hex = commit.to_hex();
                s.append(hex.as_str());
                s.append(" is already pushed to the remote");
                s
            },
            EngineError::AlreadyTracked => String::from_str("Commit is already tracked"),
            EngineError::NotTracked { revspec } => {
                let mut s = String::from_str("Commit ");
                s.append(revspec.as_str());
                s.append(" is not tracked so cannot be synced");
                s
            },
            EngineError::CherrypickConflict => String::from_str("There are conflicts"),
            EngineError::MergeConflict { ours, theirs, state } => {
                let mut s = String::from_str("Unable to merge local commit (");
                let ours_hex = ours.to_hex();
                s.append(ours_hex.as_str());
                s.append(") with commit from remote (");
                let theirs_hex = theirs.to_hex();
                s.append(theirs_hex.as_str());
                s.append(
                    ")\nOnce all the conflicts has been resolved, run 'ubr sync --continue'\n",
                );
                s
            },
            EngineError::DetachedHead => String::from_str("Detached HEAD"),
            EngineError::Transport => String::from_str("Unable to reach the remote"),
            EngineError::EmptyIndex => String::from_str("Index is empty"),
            EngineError::EmptyMessage => String::from_str("Commit has no message"),
            EngineError::ContinueWithRevspec => String::from_str(
                "Can not call --continue with a reference",
            ),
            EngineError::NothingToContinue => String::from_str("There is no sync to continue"),
            EngineError::MissingRemoteBranch { name } => {
                let mut s = String::from_str("Remote branch '");
                s.append(name.as_str());
                s.append("' is not known");
                s
            },
            EngineError::BranchExists { name } => {
                let mut s = String::from_str("Remote branch '");
                s.append(name.as_str());
                s.append("' already exist");
                s
            },
            EngineError::Store { message } => message.clone(),
        }
    }
}

/// A change that does not apply is refused: the failure for an index with
/// conflicts, and nothing for one without.
pub fn refuse_conflicts(conflicts: bool) -> (r: Result<(), EngineError>)
    ensures
        conflicts ==> r == Err::<(), EngineError>(EngineError::CherrypickConflict),
        !conflicts ==> r == Ok::<(), EngineError>(()),
{
    if conflicts {
        Err(EngineError::CherrypickConflict)
    } else {
        Ok(())
    }
}

} // verus!
