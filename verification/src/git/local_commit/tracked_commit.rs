//! A local commit that is published on a remote branch, and the steps that
//! keep the two in line.

use crate::error::{refuse_conflicts, EngineError};
use crate::git::local_commit::meta_data::{CommitMetadata, MetadataView};
use crate::git::local_commit::patch::{split_order, DeltaFilter, PatchPart, Pick, Role};
use crate::git::local_commit::untracked_commit::UnTrackedCommit;
use crate::git::oid::Oid;
use crate::git::repo::{lift, GitRepo};
use crate::git::store::{
    apply_to_tree, checkout_tree, cherrypick_commit, commit_id, commit_message, commit_parent,
    commit_tree, diff_blob_pairs, diff_tree_to_index, diff_tree_to_tree, find_annotated_commit,
    find_commit, index_has_conflicts, index_is_empty, index_write_tree_to, merge_base,
    merge_commits, set_head_detached, start_merge, tree_id,
};
use crate::git::sync_state::{SyncState, SyncStateView};
use vstd::prelude::*;

verus! {

/// How the fetched tip of a remote branch lies to the tip that the local
/// commit knows.
#[derive(Debug, Clone, Copy, PartialEq, Eq, Structural)]
pub enum RemoteMove {
    /// The remote is ahead: the known tip is an ancestor of the fetched one.
    FastForward,
    /// The known tip is ahead of the fetched one.
    LocalAhead,
    /// Each side has commits that the other lacks.
    Diverged,
}

/// How `tip`, the fetched tip of the remote branch, lies to `known`, the tip
/// that the local commit knows, given the merge base of the two.
pub open spec fn remote_move(base: Seq<u8>, known: Seq<u8>, tip: Seq<u8>) -> RemoteMove {
    if base == known {
        RemoteMove::FastForward
    } else if base == tip {
        RemoteMove::LocalAhead
    } else {
        RemoteMove::Diverged
    }
}

/// Whether the remote branch has yet to take in the upstream mainline:
/// `base` is the merge base of the branch's known tip with the local commit
/// `local`, and `main` is the upstream mainline.
pub open spec fn main_is_behind(base: Seq<u8>, main: Seq<u8>, local: Seq<u8>) -> bool {
    base != main && base != local
}

/// What becomes of a merge, given its index.
#[derive(Debug, Clone, Copy, PartialEq, Eq, Structural)]
pub enum MergeOutcome {
    /// The two sides conflict: the conflict is handed to the user.
    Surface,
    /// The merge left nothing: it is refused.
    Refuse,
    /// The merge is committed.
    Commit,
}

/// What becomes of a merge whose index has conflicts, or is empty, or
/// neither. A conflict counts before anything else.
pub open spec fn merge_outcome(conflicts: bool, empty: bool) -> MergeOutcome {
    if conflicts {
        MergeOutcome::Surface
    } else if empty {
        MergeOutcome::Refuse
    } else {
        MergeOutcome::Commit
    }
}

/// Decides `merge_outcome`.
pub fn decide_merge(conflicts: bool, empty: bool) -> (r: MergeOutcome)
    ensures
        r == merge_outcome(conflicts, empty),
{
    if conflicts {
        MergeOutcome::Surface
    } else if empty {
        MergeOutcome::Refuse
    } else {
        MergeOutcome::Commit
    }
}

/// The tip of a remote branch after a change is applied to the tree of its
/// tip `base`, where no commit is needed: `base` itself, where the tree that
/// results is the tree that `base` has.
pub open spec fn kept(base: Seq<u8>, base_tree: Seq<u8>, new_tree: Seq<u8>) -> Option<Seq<u8>> {
    if new_tree == base_tree {
        Some(base)
    } else {
        None
    }
}

/// Decides `kept`.
pub fn kept_tip(base: Oid, base_tree: &Oid, new_tree: &Oid) -> (r: Option<Oid>)
    ensures
        match r {
            Some(tip) => kept(base@, base_tree@, new_tree@) == Some(tip@),
            None => kept(base@, base_tree@, new_tree@) is None,
        },
{
    if *new_tree == *base_tree {
        Some(base)
    } else {
        None
    }
}

/// Decides `remote_move`.
pub fn decide_remote_move(base: &Oid, known: &Oid, tip: &Oid) -> (r: RemoteMove)
    ensures
        r == remote_move(base@, known@, tip@),
{
    if *base == *known {
        RemoteMove::FastForward
    } else if *base == *tip {
        RemoteMove::LocalAhead
    } else {
        RemoteMove::Diverged
    }
}

/// Decides `main_is_behind`.
pub fn decide_main_is_behind(base: &Oid, main: &Oid, local: &Oid) -> (r: bool)
    ensures
        r == main_is_behind(base@, main@, local@),
{
    !(*base == *main || *base == *local)
}

/// The two tips are merged exactly when their merge base is neither of
/// them, and the local commit stays as it is exactly when the fetched tip is
/// their merge base and the known tip is not.
pub proof fn lemma_remote_move_cases(base: Seq<u8>, known: Seq<u8>, tip: Seq<u8>)
    ensures
        remote_move(base, known, tip) == RemoteMove::Diverged <==> base != known && base != tip,
        remote_move(base, known, tip) == RemoteMove::LocalAhead <==> base != known && base == tip,
        remote_move(base, known, tip) == RemoteMove::FastForward <==> base == known,
{
}

/// A local commit with its tracking metadata.
#[derive(Debug)]
pub struct TrackedCommit {
    commit: Oid,
    meta_data: CommitMetadata,
}

impl TrackedCommit {
    /// The commit `commit`, tracked under `meta_data`.
    pub fn new(commit: Oid, meta_data: CommitMetadata) -> (r: TrackedCommit)
        ensures
            r.id_view() == commit@,
            r.meta_view() == meta_data@,
    {
        TrackedCommit { commit, meta_data }
    }

    /// The bytes of the commit's id.
    pub closed spec fn id_view(&self) -> Seq<u8> {
        self.commit@
    }

    /// The contents of the commit's tracking metadata.
    pub closed spec fn meta_view(&self) -> MetadataView {
        self.meta_data@
    }

    /// The id of the commit.
    pub fn as_commit(&self) -> (r: &Oid)
        ensures
            r@ == self.id_view(),
    {
        &self.commit
    }

    /// The id of the commit.
    pub fn commit(&self) -> (r: Oid)
        ensures
            r@ == self.id_view(),
    {
        self.commit
    }

    /// The tracking metadata of the commit.
    pub fn meta_data(&self) -> (r: &CommitMetadata)
        ensures
            r@ == self.meta_view(),
    {
        &self.meta_data
    }

    /// The same commit with `new_remote_head` as the known tip of its
    /// branch.
    pub fn update_remote(self, new_remote_head: Oid) -> (r: TrackedCommit)
        ensures
            r.id_view() == self.id_view(),
            r.meta_view() == (MetadataView {
                branch: self.meta_view().branch,
                commit: new_remote_head@,
            }),
    {
        TrackedCommit {
            commit: self.commit,
            meta_data: self.meta_data.update_commit(new_remote_head),
        }
    }

    /// The fetched tip of the commit's remote branch.
    pub fn remote_branch<'repo>(&self, git_repo: &'repo GitRepo) -> (r: Result<
        git2::Commit<'repo>,
        EngineError,
    >)
        ensures
            r matches Err(e) ==> e matches EngineError::MissingRemoteBranch { name } && name@
                == self.meta_view().branch,
    {
        match git_repo.find_head_of_remote_branch(self.meta_data.remote_branch_name.as_str()) {
            Some(commit) => Ok(commit),
            None => Err(EngineError::MissingRemoteBranch {
                name: self.meta_data.remote_branch_name.clone(),
            }),
        }
    }

    /// The commit that is known as the tip of the remote branch.
    pub fn local_branch_head<'repo>(&self, git_repo: &'repo GitRepo) -> (r: Result<
        git2::Commit<'repo>,
        EngineError,
    >)
        ensures
            r matches Err(e) ==> e is Store,
    {
        lift(find_commit(git_repo.repository(), &self.meta_data.remote_commit))
    }

    /// Applies the part of `patch` that `filter` selects to the tree of
    /// `base` and commits the result on top of `base` with `message`, in the
    /// name of the author of `local`. Where that part changes nothing,
    /// `base` itself is the result.
    fn commit_part(
        git_repo: &GitRepo,
        local: &git2::Commit<'_>,
        base: Oid,
        patch: &git2::Diff<'_>,
        filter: &DeltaFilter,
        message: &str,
    ) -> (r: Result<Oid, EngineError>)
        ensures
            r matches Err(e) ==> e is Store || e is CherrypickConflict,
    {
        let repo = git_repo.repository();
        let base_commit = lift(find_commit(repo, &base))?;
        let base_tree = lift(commit_tree(&base_commit))?;
        let mut index = lift(apply_to_tree(repo, &base_tree, patch, filter))?;
        refuse_conflicts(index_has_conflicts(&index))?;
        let new_tree = lift(index_write_tree_to(&mut index, repo))?;
        match kept_tip(base, &tree_id(&base_tree), &new_tree) {
            Some(tip) => Ok(tip),
            None => git_repo.commit_tree_id(&new_tree, local, message, &base_commit, None),
        }
    }

    /// Brings the remote branch up to the local commit, after the user has
    /// amended it. The commit's change is taken against the upstream
    /// mainline and compared with the known tip of the branch. What differs
    /// is committed on top of that tip in two steps: first the file changes
    /// that the mainline has made too, as `Sync with main!`, then the rest,
    /// as `Fixup!`. The local commit stays as it is; its metadata names the
    /// new tip.
    pub fn update_local_branch_head(self, git_repo: &GitRepo) -> (r: Result<
        TrackedCommit,
        EngineError,
    >)
        ensures
            r matches Ok(t) ==> t.id_view() == self.id_view() && t.meta_view().branch
                == self.meta_view().branch,
            r matches Err(e) ==> e is Store || e is CherrypickConflict,
    {
        let repo = git_repo.repository();
        let local = lift(find_commit(repo, &self.commit))?;
        let remote_commit = lift(find_commit(repo, &self.meta_data.remote_commit))?;
        let origin_main_commit = git_repo.base_commit()?;
        let complete_index = lift(
            cherrypick_commit(repo, &local, &origin_main_commit, Pick::Update.favor_theirs()),
        )?;
        refuse_conflicts(index_has_conflicts(&complete_index))?;
        let remote_tree = lift(commit_tree(&remote_commit))?;
        let patch = lift(diff_tree_to_index(repo, &remote_tree, &complete_index))?;
        let changes = diff_blob_pairs(&patch);
        self.commit_changes(git_repo, &local, &patch, &changes)
    }

    /// Commits to the remote branch what `patch` changes against its known
    /// tip, for the local commit `local`; `changes` are the file changes of
    /// `patch`. Where there are none, the commit comes back as it is.
    /// Otherwise one commit is written for each role of `split_order`, in
    /// that order, each on top of the one before and with the part of the
    /// patch that its role holds, and the metadata names the new tip.
    pub fn commit_changes(
        self,
        git_repo: &GitRepo,
        local: &git2::Commit<'_>,
        patch: &git2::Diff<'_>,
        changes: &Vec<(Oid, Oid)>,
    ) -> (r: Result<TrackedCommit, EngineError>)
        ensures
            changes@.len() == 0 ==> (r matches Ok(t) && t.id_view() == self.id_view()
                && t.meta_view() == self.meta_view()),
            r matches Ok(t) ==> t.id_view() == self.id_view() && t.meta_view().branch
                == self.meta_view().branch,
            r matches Err(e) ==> e is Store || e is CherrypickConflict,
    {
        if changes.len() == 0 {
            return Ok(self);
        }
        let repo = git_repo.repository();
        let remote_commit = lift(find_commit(repo, &self.meta_data.remote_commit))?;
        let remote_tree = lift(commit_tree(&remote_commit))?;
        let origin_main_commit = git_repo.base_commit()?;
        let main_tree = lift(commit_tree(&origin_main_commit))?;
        let main_patch = lift(diff_tree_to_tree(repo, &remote_tree, &main_tree))?;
        let order = split_order();
        let mut filter = DeltaFilter::new(diff_blob_pairs(&main_patch), PatchPart::Whole);
        let mut tip = self.meta_data.remote_commit;
        let mut i: usize = 0;
        while i < order.len()
            invariant
                i <= order.len(),
                changes@.len() != 0,
            decreases order.len() - i,
        {
            let role = order[i];
            filter = filter.for_part(role.part());
            tip = TrackedCommit::commit_part(git_repo, local, tip, patch, &filter, role.message())?;
            i += 1;
        }
        self.with_remote_head(git_repo, &tip)
    }

    /// Makes `new_head` the known tip of the remote branch: the note of the
    /// commit is written anew with it. Where `new_head` is the known tip
    /// already, the commit comes back as it is and nothing is written.
    pub fn with_remote_head(self, git_repo: &GitRepo, new_head: &Oid) -> (r: Result<
        TrackedCommit,
        EngineError,
    >)
        ensures
            new_head@ == self.meta_view().commit ==> (r matches Ok(t) && t.id_view()
                == self.id_view() && t.meta_view() == self.meta_view()),
            match r {
                Ok(t) => t.id_view() == self.id_view() && t.meta_view() == (MetadataView {
                    branch: self.meta_view().branch,
                    commit: new_head@,
                }),
                Err(e) => e is Store,
            },
    {
        if *new_head == self.meta_data.remote_commit {
            return Ok(self);
        }
        let local = lift(find_commit(git_repo.repository(), &self.commit))?;
        let new_meta = self.meta_data.update_commit(*new_head);
        git_repo.save_meta_data(&local, &new_meta)?;
        Ok(TrackedCommit { commit: self.commit, meta_data: new_meta })
    }

    /// Takes into the local commit what others have pushed to its remote
    /// branch. A branch that is ahead of the known tip is taken as it is; a
    /// branch that has diverged from it is merged with it; where the known
    /// tip is ahead, nothing is done. The local commit is then written anew
    /// on `new_parent`, or on its own parent where none is given, with the
    /// change that the new tip makes to the upstream mainline.
    pub fn merge_remote_head(self, git_repo: &GitRepo, new_parent: Option<&Oid>) -> (r: Result<
        TrackedCommit,
        EngineError,
    >)
        ensures
            match r {
                Ok(t) => t.meta_view().branch == self.meta_view().branch,
                Err(EngineError::MergeConflict { ours, theirs, state }) => conflict_record(
                    self.id_view(),
                    self.meta_view().commit,
                    ours@,
                    theirs@,
                    state@,
                    git_repo.branch(),
                ),
                Err(e) => e is Store || e is EmptyIndex || e is CherrypickConflict
                    || e is MissingRemoteBranch,
            },
    {
        let repo = git_repo.repository();
        let remote_branch_head = {
            let tip = self.remote_branch(git_repo)?;
            commit_id(&tip)
        };
        let base = lift(merge_base(repo, &self.meta_data.remote_commit, &remote_branch_head))?;
        self.take_remote(git_repo, &remote_branch_head, &base, new_parent)
    }

    /// Does what `merge_remote_head` does, for the fetched tip `tip` of the
    /// remote branch and the merge base `base` of that tip with the known
    /// one. Where the known tip is ahead, the commit comes back as it is.
    /// Where the remote is ahead, the new commit is tracked with `tip`.
    /// Where the two have diverged, it is tracked with their merge.
    pub fn take_remote(
        self,
        git_repo: &GitRepo,
        tip: &Oid,
        base: &Oid,
        new_parent: Option<&Oid>,
    ) -> (r: Result<TrackedCommit, EngineError>)
        ensures
            match remote_move(base@, self.meta_view().commit, tip@) {
                RemoteMove::LocalAhead => (r matches Ok(t) && t.id_view() == self.id_view()
                    && t.meta_view() == self.meta_view()),
                RemoteMove::FastForward => match r {
                    Ok(t) => t.meta_view() == (MetadataView {
                        branch: self.meta_view().branch,
                        commit: tip@,
                    }),
                    Err(e) => e is Store || e is CherrypickConflict,
                },
                RemoteMove::Diverged => match r {
                    Ok(t) => t.meta_view().branch == self.meta_view().branch,
                    Err(EngineError::MergeConflict { ours, theirs, state }) => theirs@ == tip@
                        && conflict_record(
                        self.id_view(),
                        self.meta_view().commit,
                        ours@,
                        theirs@,
                        state@,
                        git_repo.branch(),
                    ),
                    Err(e) => e is Store || e is EmptyIndex || e is CherrypickConflict,
                },
            },
    {
        let local_branch_head = self.meta_data.remote_commit;
        let new_remote_commit = match decide_remote_move(base, &local_branch_head, tip) {
            RemoteMove::FastForward => *tip,
            RemoteMove::LocalAhead => {
                return Ok(self);
            },
            RemoteMove::Diverged => self.merge(git_repo, &local_branch_head, tip)?,
        };
        self.cont(git_repo, &new_remote_commit, new_parent)
    }

    /// Takes the upstream mainline into the remote branch, where the branch
    /// has yet to take it in: the mainline and the known tip are merged, and
    /// the metadata names the merge.
    pub fn sync_with_main(self, git_repo: &GitRepo) -> (r: Result<TrackedCommit, EngineError>)
        ensures
            match r {
                Ok(t) => t.id_view() == self.id_view() && t.meta_view().branch
                    == self.meta_view().branch,
                Err(EngineError::MergeConflict { ours, theirs, state }) => theirs@
                    == self.meta_view().commit && state@.main_commit == self.id_view()
                    && state@.remote_commit == theirs@ && state@.main_branch
                    == git_repo.branch(),
                Err(e) => e is Store || e is EmptyIndex,
            },
    {
        let repo = git_repo.repository();
        let base = lift(merge_base(repo, &self.meta_data.remote_commit, &self.commit))?;
        let main = git_repo.base_commit_id()?;
        self.take_main(git_repo, &main, &base)
    }

    /// Does what `sync_with_main` does, for the upstream mainline `main` and
    /// the merge base `base` of the known tip with the local commit. Where
    /// the merge base is the mainline or the local commit, the commit comes
    /// back as it is.
    pub fn take_main(self, git_repo: &GitRepo, main: &Oid, base: &Oid) -> (r: Result<
        TrackedCommit,
        EngineError,
    >)
        ensures
            !main_is_behind(base@, main@, self.id_view()) ==> (r matches Ok(t) && t.id_view()
                == self.id_view() && t.meta_view() == self.meta_view()),
            match r {
                Ok(t) => t.id_view() == self.id_view() && t.meta_view().branch
                    == self.meta_view().branch,
                Err(EngineError::MergeConflict { ours, theirs, state }) => ours@ == main@
                    && theirs@ == self.meta_view().commit && state@.main_commit
                    == self.id_view() && state@.remote_commit == theirs@ && state@.main_branch
                    == git_repo.branch(),
                Err(e) => e is Store || e is EmptyIndex,
            },
    {
        if !decide_main_is_behind(base, main, &self.commit) {
            return Ok(self);
        }
        let local_branch_head = self.meta_data.remote_commit;
        let merged = self.merge(git_repo, main, &local_branch_head)?;
        self.with_remote_head(git_repo, &merged)
    }

    /// Writes the local commit anew for the tip `new_remote_commit` of its
    /// remote branch: on `new_parent`, or on its own parent where none is
    /// given, with the change that the tip makes to the upstream mainline,
    /// and with its own author and message. The new commit is tracked under
    /// the same branch, with that tip.
    pub fn cont(self, git_repo: &GitRepo, new_remote_commit: &Oid, new_parent: Option<&Oid>) -> (r:
        Result<TrackedCommit, EngineError>)
        ensures
            r matches Ok(t) ==> t.meta_view() == (MetadataView {
                branch: self.meta_view().branch,
                commit: new_remote_commit@,
            }),
            r matches Err(e) ==> e is Store || e is CherrypickConflict,
    {
        let repo = git_repo.repository();
        let local = lift(find_commit(repo, &self.commit))?;
        let remote = lift(find_commit(repo, new_remote_commit))?;
        let new_remote_tree = lift(commit_tree(&remote))?;
        let main = git_repo.base_commit()?;
        let main_tree = lift(commit_tree(&main))?;
        let diff = lift(diff_tree_to_tree(repo, &main_tree, &new_remote_tree))?;
        let parent_commit = match new_parent {
            Some(parent) => lift(find_commit(repo, parent))?,
            None => lift(commit_parent(&local))?,
        };
        let parent_tree = lift(commit_tree(&parent_commit))?;
        let whole = DeltaFilter::whole();
        let mut index = lift(apply_to_tree(repo, &parent_tree, &diff, &whole))?;
        refuse_conflicts(index_has_conflicts(&index))?;
        let message = lift(commit_message(&local))?;
        let new_id = git_repo.commit_index(
            &mut index,
            &local,
            message.as_str(),
            &parent_commit,
            None,
        )?;
        let new_commit = lift(find_commit(repo, &new_id))?;
        let new_meta_data = self.meta_data.update_commit(*new_remote_commit);
        git_repo.save_meta_data(&new_commit, &new_meta_data)?;
        Ok(TrackedCommit::new(new_id, new_meta_data))
    }

    /// Merges `ours` and `theirs` into a commit with the message `Merge` and
    /// the two as its parents. Where they conflict, the conflict is handed
    /// to the user: the working tree is set to `ours`, HEAD is detached
    /// there, the merge of `theirs` is started in the working tree, and the
    /// failure carries the record by which the sync can be continued.
    pub fn merge(&self, git_repo: &GitRepo, ours: &Oid, theirs: &Oid) -> (r: Result<
        Oid,
        EngineError,
    >)
        ensures
            match r {
                Ok(_) => true,
                Err(EngineError::MergeConflict { ours: o, theirs: t, state }) => o@ == ours@ && t@
                    == theirs@ && state@.main_commit == self.id_view() && state@.remote_commit
                    == theirs@ && state@.main_branch == git_repo.branch(),
                Err(e) => e is Store || e is EmptyIndex,
            },
    {
        let repo = git_repo.repository();
        let commit1 = lift(find_commit(repo, ours))?;
        let commit2 = lift(find_commit(repo, theirs))?;
        let mut merge_index = lift(merge_commits(repo, &commit1, &commit2))?;
        let conflicts = index_has_conflicts(&merge_index);
        let empty = index_is_empty(&merge_index);
        self.settle_merge(git_repo, ours, theirs, &mut merge_index, conflicts, empty)
    }

    /// Settles the merge of `ours` and `theirs` whose index is `index`,
    /// given whether that index has conflicts and whether it is empty. A
    /// merge with conflicts is handed to the user and ends in the failure
    /// that tells of it; an empty merge is refused; any other is committed
    /// with the message `Merge` and the two as its parents.
    pub fn settle_merge(
        &self,
        git_repo: &GitRepo,
        ours: &Oid,
        theirs: &Oid,
        index: &mut git2::Index,
        conflicts: bool,
        empty: bool,
    ) -> (r: Result<Oid, EngineError>)
        ensures
            match merge_outcome(conflicts, empty) {
                MergeOutcome::Refuse => r == Err::<Oid, EngineError>(EngineError::EmptyIndex),
                MergeOutcome::Surface => match r {
                    Ok(_) => false,
                    Err(EngineError::MergeConflict { ours: o, theirs: t, state }) => o@ == ours@
                        && t@ == theirs@ && state@.main_commit == self.id_view()
                        && state@.remote_commit == theirs@ && state@.main_branch
                        == git_repo.branch(),
                    Err(e) => e is Store,
                },
                MergeOutcome::Commit => r matches Err(e) ==> e is Store,
            },
    {
        match decide_merge(conflicts, empty) {
            MergeOutcome::Surface => {
                let parent = self.surface_conflict(git_repo, ours, theirs)?;
                Err(self.conflict_of(git_repo, ours, theirs, &parent))
            },
            MergeOutcome::Refuse => Err(EngineError::EmptyIndex),
            MergeOutcome::Commit => {
                let repo = git_repo.repository();
                let commit1 = lift(find_commit(repo, ours))?;
                let commit2 = lift(find_commit(repo, theirs))?;
                let local = lift(find_commit(repo, &self.commit))?;
                git_repo.commit_index(
                    index,
                    &local,
                    Role::Merge.message(),
                    &commit1,
                    Some(&commit2),
                )
            },
        }
    }

    /// Hands the conflict between `ours` and `theirs` to the user: the
    /// working tree is set to `ours`, HEAD is detached there, and the merge
    /// of `theirs` is started in the working tree. The result is the parent
    /// of the local commit, for the record.
    fn surface_conflict(&self, git_repo: &GitRepo, ours: &Oid, theirs: &Oid) -> (r: Result<
        Oid,
        EngineError,
    >)
        ensures
            r matches Err(e) ==> e is Store,
    {
        let repo = git_repo.repository();
        let local = lift(find_commit(repo, &self.commit))?;
        let parent = lift(commit_parent(&local))?;
        let commit1 = lift(find_commit(repo, ours))?;
        let tree = lift(commit_tree(&commit1))?;
        lift(checkout_tree(repo, &tree))?;
        lift(set_head_detached(repo, ours))?;
        let annotated = lift(find_annotated_commit(repo, theirs))?;
        lift(start_merge(repo, &annotated))?;
        Ok(commit_id(&parent))
    }

    /// The failure that tells of the conflict between `ours` and `theirs`,
    /// for a local commit whose parent is `parent`: it names the two
    /// commits, and its record names the local commit, `theirs`, the parent
    /// and the branch that the repository is on.
    pub fn conflict_of(&self, git_repo: &GitRepo, ours: &Oid, theirs: &Oid, parent: &Oid) -> (e:
        EngineError)
        ensures
            e matches EngineError::MergeConflict { ours: o, theirs: t, state } && o@ == ours@ && t@
                == theirs@ && state@ == (SyncStateView {
                main_commit: self.id_view(),
                remote_commit: theirs@,
                main_commit_parent: parent@,
                main_branch: git_repo.branch(),
            }),
    {
        let state = SyncState::new(
            self.commit,
            *theirs,
            *parent,
            git_repo.branch_name().clone(),
        );
        EngineError::MergeConflict { ours: *ours, theirs: *theirs, state }
    }

    /// Forgets the publication of the commit: its note is removed. The
    /// remote branch stays.
    pub fn untrack(self, git_repo: &GitRepo) -> (r: Result<UnTrackedCommit, EngineError>)
        ensures
            r matches Ok(u) ==> u.id_view() == self.id_view(),
            r matches Err(e) ==> e is Store,
    {
        let commit = lift(find_commit(git_repo.repository(), &self.commit))?;
        git_repo.remove_meta_data(&commit)?;
        Ok(UnTrackedCommit::new(self.commit))
    }
}

/// What the failure of a merge of the remote branch says: `ours` is the tip
/// that the local commit `local` knew, and the record names the local commit,
/// the fetched tip `theirs` and the branch that the sync runs on.
pub open spec fn conflict_record(
    local: Seq<u8>,
    known: Seq<u8>,
    ours: Seq<u8>,
    theirs: Seq<u8>,
    state: SyncStateView,
    branch: Seq<char>,
) -> bool {
    &&& ours == known
    &&& state.main_commit == local
    &&& state.remote_commit == theirs
    &&& state.main_branch == branch
}

} // verus!
