//! `sync`: brings every unpushed commit, its remote branch and the local
//! branch in line. The work is done in steps; between two steps the caller
//! does what only it can do: push, and remove the record of a conflict.

use crate::commands::create::text_of;
use crate::error::EngineError;
use crate::git::local_commit::main_commit::{is_classified, MainCommit, MainCommitView};
use crate::git::local_commit::meta_data::{meta_view_of, CommitMetadata, MetadataView};
use crate::git::local_commit::patch::Role;
use crate::git::local_commit::tracked_commit::TrackedCommit;
use crate::git::local_commit::untracked_commit::UnTrackedCommit;
use crate::git::oid::Oid;
use crate::git::repo::{lift, GitRepo};
use crate::git::store::{cleanup_state, commit_id, commit_parent, find_commit, working_index};
use crate::git::sync_state::SyncState;
use vstd::prelude::*;

verus! {

/// What `sync` is asked for.
#[derive(Debug)]
pub struct Options {
    /// Resume the sync that stopped at a conflict.
    pub cont: bool,
    /// The one commit to sync; every unpushed commit where none is given.
    pub commit_ref: Option<String>,
}

impl Default for Options {
    fn default() -> (r: Options)
        ensures
            !r.cont,
            r.commit_ref is None,
    {
        Options { cont: false, commit_ref: None }
    }
}

/// How a sync starts.
#[derive(Debug, Clone, Copy, PartialEq, Eq, Structural)]
pub enum SyncMode {
    /// `--continue` with a revision: refused.
    Refused,
    /// `--continue` without the record of a conflict: nothing to resume.
    Idle,
    /// `--continue`: the merge that the user resolved is finished first.
    Resume,
    /// A revision is given: that one commit is synced.
    Single,
    /// Every unpushed commit is synced.
    All,
}

/// How a sync starts, given whether `--continue` and a revision are given
/// and whether the record of a conflict exists.
pub open spec fn sync_mode(cont: bool, has_revision: bool, has_journal: bool) -> SyncMode {
    if cont {
        if has_revision {
            SyncMode::Refused
        } else if !has_journal {
            SyncMode::Idle
        } else {
            SyncMode::Resume
        }
    } else if has_revision {
        SyncMode::Single
    } else {
        SyncMode::All
    }
}

/// How a sync starts, with what it starts from.
#[derive(Debug)]
pub enum SyncStart {
    /// `--continue` with a revision: refused.
    Refused,
    /// `--continue` without the record of a conflict: nothing to resume.
    Idle,
    /// `--continue`, with the record of the conflict.
    Resume(SyncState),
    /// The revision of the one commit to sync.
    Single(String),
    /// Every unpushed commit is synced.
    All,
}

impl SyncStart {
    /// How the sync starts.
    pub open spec fn mode(&self) -> SyncMode {
        match self {
            SyncStart::Refused => SyncMode::Refused,
            SyncStart::Idle => SyncMode::Idle,
            SyncStart::Resume(_) => SyncMode::Resume,
            SyncStart::Single(_) => SyncMode::Single,
            SyncStart::All => SyncMode::All,
        }
    }

    /// How the sync starts.
    pub fn kind(&self) -> (r: SyncMode)
        ensures
            r == self.mode(),
    {
        match self {
            SyncStart::Refused => SyncMode::Refused,
            SyncStart::Idle => SyncMode::Idle,
            SyncStart::Resume(_) => SyncMode::Resume,
            SyncStart::Single(_) => SyncMode::Single,
            SyncStart::All => SyncMode::All,
        }
    }
}

/// Decides how a sync starts and hands on what it starts from: the record
/// of the conflict, or the revision.
pub fn start_of(options: Options, journal: Option<SyncState>) -> (r: SyncStart)
    ensures
        r.mode() == sync_mode(options.cont, options.commit_ref is Some, journal is Some),
        r matches SyncStart::Resume(state) ==> journal == Some(state),
        r matches SyncStart::Single(revision) ==> options.commit_ref == Some(revision),
{
    if options.cont {
        if options.commit_ref.is_some() {
            SyncStart::Refused
        } else {
            match journal {
                Some(state) => SyncStart::Resume(state),
                None => SyncStart::Idle,
            }
        }
    } else {
        match options.commit_ref {
            Some(revision) => SyncStart::Single(revision),
            None => SyncStart::All,
        }
    }
}

/// The position of the first commit with the id `id` in `commits`, or the
/// length of `commits` where none has it.
pub open spec fn position_of(commits: Seq<Seq<u8>>, id: Seq<u8>) -> int
    decreases commits.len(),
{
    if commits.len() == 0 || commits[0] == id {
        0
    } else {
        1 + position_of(commits.drop_first(), id)
    }
}

/// The ids of `commits`, in order.
pub open spec fn ids_of(commits: Seq<Oid>) -> Seq<Seq<u8>> {
    Seq::new(commits.len(), |i: int| commits[i]@)
}

/// The only position before which no commit has the id and at which one
/// has it, or the sequence ends, is `position_of`.
pub proof fn lemma_position_is(commits: Seq<Seq<u8>>, id: Seq<u8>, n: int)
    requires
        0 <= n <= commits.len(),
        forall|j: int| 0 <= j < n ==> #[trigger] commits[j] != id,
        n < commits.len() ==> commits[n] == id,
    ensures
        position_of(commits, id) == n,
    decreases commits.len(),
{
    if n > 0 {
        assert(commits[0] != id);
        let rest = commits.drop_first();
        assert forall|j: int| 0 <= j < n - 1 implies #[trigger] rest[j] != id by {
            assert(rest[j] == commits[j + 1]);
        }
        lemma_position_is(rest, id, n - 1);
    }
}

/// The commits that follow the first one with the id `id`; none where no
/// commit has it.
pub open spec fn commits_after(commits: Seq<Seq<u8>>, id: Seq<u8>) -> Seq<Seq<u8>> {
    let n = position_of(commits, id);
    if n < commits.len() {
        commits.skip(n + 1)
    } else {
        Seq::empty()
    }
}

/// The commits of `commits` that follow `id`, or `None` where `id` is not
/// among them.
pub fn remaining_after(commits: &Vec<Oid>, id: &Oid) -> (r: Option<Vec<Oid>>)
    ensures
        match r {
            Some(rest) => position_of(ids_of(commits@), id@) < commits.len() && ids_of(rest@)
                == commits_after(ids_of(commits@), id@),
            None => position_of(ids_of(commits@), id@) == commits.len(),
        },
{
    let ghost ids = ids_of(commits@);
    let mut n: usize = 0;
    while n < commits.len() && !(commits[n] == *id)
        invariant
            n <= commits.len(),
            ids == ids_of(commits@),
            forall|j: int| 0 <= j < n ==> #[trigger] ids[j] != id@,
        decreases commits.len() - n,
    {
        n += 1;
    }
    proof {
        if n < commits.len() {
            assert(ids[n as int] == id@);
        }
        lemma_position_is(ids, id@, n as int);
    }
    if n == commits.len() {
        return None;
    }
    let mut rest: Vec<Oid> = Vec::new();
    let mut i: usize = n + 1;
    while i < commits.len()
        invariant
            n < i <= commits.len(),
            ids == ids_of(commits@),
            ids_of(rest@) == ids.subrange(n + 1, i as int),
        decreases commits.len() - i,
    {
        let ghost before = rest@;
        rest.push(commits[i]);
        assert(ids_of(rest@) =~= ids_of(before).push(commits[i as int]@));
        assert(ids_of(rest@) =~= ids.subrange(n + 1, i + 1));
        i += 1;
    }
    assert(ids.subrange(n + 1, commits.len() as int) =~= ids.skip(n + 1));
    Some(rest)
}

/// What the caller does next.
#[derive(Debug)]
pub enum SyncStep {
    /// Remove the record of the conflict: the merge is finished.
    ForgetJournal,
    /// Push the remote commit of this metadata to its branch.
    Push(CommitMetadata),
    /// Nothing: the local branch has been moved, the sync is done.
    Done,
}

/// Where a sync stands.
#[derive(Debug, Clone, Copy, PartialEq, Eq, Structural)]
pub enum Stage {
    /// The record of the conflict is to be removed.
    Forgetting,
    /// The merge that the user resolved is to be pushed.
    Resumed,
    /// The pending commits are walked.
    Walking,
    /// The local branch has been moved.
    Finished,
}

/// A sync under way.
#[derive(Debug)]
pub struct SyncRun {
    parent: Oid,
    pending: Vec<MainCommit>,
    next: usize,
    stage: Stage,
    resumed: Option<CommitMetadata>,
    journal_at_start: bool,
    journal: bool,
    cont: bool,
}

impl SyncRun {
    /// The commit that the next commit is rewritten onto, and that the local
    /// branch is moved to in the end.
    pub closed spec fn parent(&self) -> Seq<u8> {
        self.parent@
    }

    /// The commits that this sync walks, oldest first.
    pub closed spec fn pending(&self) -> Seq<MainCommitView> {
        Seq::new(self.pending.len() as nat, |i: int| self.pending[i]@)
    }

    /// How many of the pending commits are done.
    pub closed spec fn next(&self) -> int {
        self.next as int
    }

    /// Where the sync stands.
    pub closed spec fn stage(&self) -> Stage {
        self.stage
    }

    /// The metadata of the merge that the user resolved, until it is handed
    /// out to be pushed.
    pub closed spec fn resumed(&self) -> Option<MetadataView> {
        meta_view_of(self.resumed)
    }

    /// Whether the sync resumes one that stopped at a conflict.
    pub closed spec fn resumes(&self) -> bool {
        self.cont
    }

    /// Whether the record of a conflict existed when the sync started.
    pub closed spec fn journal_at_start(&self) -> bool {
        self.journal_at_start
    }

    /// Whether the record of a conflict exists, given that the caller has
    /// done each step that it was handed.
    pub closed spec fn journal(&self) -> bool {
        self.journal
    }

    /// What holds of a sync at every step: it has not gone past its pending
    /// commits; only a resumed sync passes through the first two stages, and
    /// it has the finished merge to push until it has handed it out; a
    /// resumed sync has the record in place exactly until its removal is
    /// handed out; and any other sync leaves the record as it found it.
    pub closed spec fn wf(&self) -> bool {
        &&& self.next <= self.pending.len()
        &&& (self.stage == Stage::Forgetting || self.stage == Stage::Resumed) ==> self.cont
            && self.resumed is Some
        &&& self.stage == Stage::Finished ==> self.next == self.pending.len()
        &&& self.cont ==> self.journal_at_start && (self.journal <==> self.stage
            == Stage::Forgetting)
        &&& !self.cont ==> self.journal == self.journal_at_start
    }

    /// Whether the sync is done.
    pub fn is_finished(&self) -> (r: bool)
        ensures
            r == (self.stage() == Stage::Finished),
    {
        self.stage == Stage::Finished
    }

    /// The id of the commit that the local branch is moved to in the end, as
    /// far as the sync has come.
    pub fn parent_commit(&self) -> (r: Oid)
        ensures
            r@ == self.parent(),
    {
        self.parent
    }

    /// Does the next part of the sync and says what the caller is to do
    /// before it asks again. A resumed sync first has the record of the
    /// conflict removed and the finished merge pushed. Then the pending
    /// commits are taken in order: an untracked commit is rewritten onto the
    /// commit before it; a tracked commit has its remote branch brought up
    /// to it and the remote's changes taken in, and is handed out to be
    /// pushed. After the last commit the local branch is moved.
    pub fn advance(&mut self, repo: &GitRepo) -> (r: Result<SyncStep, EngineError>)
        requires
            old(self).wf(),
        ensures
            final(self).wf(),
            final(self).pending() == old(self).pending(),
            final(self).resumes() == old(self).resumes(),
            final(self).journal_at_start() == old(self).journal_at_start(),
            old(self).next() <= final(self).next() <= old(self).pending().len(),
            old(self).stage() == Stage::Forgetting ==> (r matches Ok(SyncStep::ForgetJournal)),
            old(self).stage() == Stage::Resumed ==> (r matches Ok(SyncStep::Push(m)) && Some(m@)
                == old(self).resumed()),
            old(self).stage() != Stage::Resumed ==> final(self).resumed() == old(self).resumed(),
            old(self).stage() == Stage::Finished ==> (r matches Ok(SyncStep::Done)),
            match r {
                Ok(SyncStep::ForgetJournal) => {
                    &&& old(self).stage() == Stage::Forgetting
                    &&& final(self).stage() == Stage::Resumed
                    &&& final(self).next() == old(self).next()
                    &&& !final(self).journal()
                },
                Ok(SyncStep::Push(m)) => {
                    &&& old(self).stage() == Stage::Resumed || old(self).stage() == Stage::Walking
                    &&& final(self).stage() == Stage::Walking
                    &&& old(self).stage() == Stage::Resumed ==> final(self).next() == old(
                        self,
                    ).next()
                    &&& old(self).stage() == Stage::Walking ==> {
                        &&& final(self).next() > old(self).next()
                        &&& all_untracked(
                            old(self).pending(),
                            old(self).next(),
                            final(self).next() - 1,
                        )
                        &&& old(self).pending()[final(self).next() - 1] matches MainCommitView::Published {
                            commit,
                            meta_data,
                        } && meta_data.branch == m@.branch
                    }
                },
                Ok(SyncStep::Done) => {
                    &&& old(self).stage() == Stage::Walking || old(self).stage()
                        == Stage::Finished
                    &&& final(self).stage() == Stage::Finished
                    &&& final(self).next() == old(self).pending().len()
                    &&& all_untracked(old(self).pending(), old(self).next(), final(self).next())
                },
                Err(e) => {
                    &&& old(self).stage() == Stage::Walking
                    &&& final(self).stage() == Stage::Walking
                    &&& !(e is BadRevspec) && !(e is AlreadyPushed) && !(e is AlreadyTracked) && !(e
                        is NotTracked) && !(e is DetachedHead) && !(e is Transport)
                },
            },
    {
        match self.stage {
            Stage::Forgetting => {
                self.stage = Stage::Resumed;
                self.journal = false;
                return Ok(SyncStep::ForgetJournal);
            },
            Stage::Resumed => {
                self.stage = Stage::Walking;
                let meta = self.resumed.take();
                match meta {
                    Some(m) => {
                        return Ok(SyncStep::Push(m));
                    },
                    None => {},
                }
            },
            Stage::Walking => {},
            Stage::Finished => {
                return Ok(SyncStep::Done);
            },
        }
        let ghost start = self.next as int;
        while self.next < self.pending.len()
            invariant
                self.wf(),
                self.stage == Stage::Walking,
                old(self).stage() == Stage::Walking,
                self.pending() == old(self).pending(),
                self.resumes() == old(self).resumes(),
                self.journal_at_start() == old(self).journal_at_start(),
                self.resumed() == old(self).resumed(),
                start == old(self).next(),
                start <= self.next <= self.pending.len(),
                all_untracked(self.pending(), start, self.next as int),
            decreases self.pending.len() - self.next,
        {
            let ghost before = self.pending();
            let i = self.next;
            match &self.pending[i] {
                MainCommit::UnTracked(c) => {
                    let commit = UnTrackedCommit::new(c.commit());
                    let rebased = commit.rebase(repo, &self.parent)?;
                    self.parent = rebased.commit();
                    self.next = i + 1;
                    assert(self.pending() =~= before);
                    assert(before[i as int] is UnTracked);
                },
                MainCommit::Published(t) => {
                    let commit = TrackedCommit::new(t.commit(), t.meta_data().duplicate());
                    let updated = commit.update_local_branch_head(repo)?;
                    let merged = updated.merge_remote_head(repo, Some(&self.parent))?;
                    self.parent = merged.commit();
                    self.next = i + 1;
                    assert(self.pending() =~= before);
                    return Ok(SyncStep::Push(merged.meta_data().duplicate()));
                },
            }
        }
        repo.update_current_branch(&self.parent)?;
        self.stage = Stage::Finished;
        Ok(SyncStep::Done)
    }
}

/// Whether the commits of `pending` from position `from` up to, not
/// including, `to` are all untracked.
pub open spec fn all_untracked(pending: Seq<MainCommitView>, from: int, to: int) -> bool {
    forall|j: int| from <= j < to ==> #[trigger] pending[j] is UnTracked
}

/// The number of tracked commits among the first `n` of `pending`.
pub open spec fn published_count(pending: Seq<MainCommitView>, n: int) -> nat
    decreases n,
{
    if n <= 0 {
        0
    } else if pending[n - 1] is Published {
        published_count(pending, n - 1) + 1
    } else {
        published_count(pending, n - 1)
    }
}

/// Whether `stops` are the positions at which a sync of `pending` stands
/// after each step that `advance` takes through them, from the start to the
/// end: each step but the last passes over untracked commits and ends
/// behind a tracked one, which it hands out to be pushed; the last step
/// passes over untracked commits up to the end.
pub open spec fn is_walk(pending: Seq<MainCommitView>, stops: Seq<int>) -> bool {
    &&& stops.len() >= 1
    &&& stops[0] == 0
    &&& forall|k: int|
        0 <= k < stops.len() - 1 ==> {
            &&& (#[trigger] stops[k]) < stops[k + 1] <= pending.len()
            &&& all_untracked(pending, stops[k], stops[k + 1] - 1)
            &&& pending[stops[k + 1] - 1] is Published
        }
    &&& 0 <= stops.last() <= pending.len()
    &&& all_untracked(pending, stops.last(), pending.len() as int)
}

/// Passing over untracked commits does not change the number of tracked
/// commits passed.
pub proof fn lemma_untracked_add_nothing(pending: Seq<MainCommitView>, from: int, to: int)
    requires
        0 <= from <= to <= pending.len(),
        all_untracked(pending, from, to),
    ensures
        published_count(pending, to) == published_count(pending, from),
    decreases to - from,
{
    if from < to {
        assert(pending[to - 1] is UnTracked);
        lemma_untracked_add_nothing(pending, from, to - 1);
    }
}

/// A sync hands out each tracked commit among its pending commits exactly
/// once: it takes as many steps that end in a push as there are tracked
/// commits.
pub proof fn lemma_one_push_per_tracked_commit(pending: Seq<MainCommitView>, stops: Seq<int>)
    requires
        is_walk(pending, stops),
    ensures
        stops.len() - 1 == published_count(pending, pending.len() as int),
{
    lemma_pushes_up_to(pending, stops, stops.len() - 1);
    lemma_untracked_add_nothing(pending, stops.last(), pending.len() as int);
}

/// After `k` steps that end in a push, `k` tracked commits are passed.
proof fn lemma_pushes_up_to(pending: Seq<MainCommitView>, stops: Seq<int>, k: int)
    requires
        is_walk(pending, stops),
        0 <= k < stops.len(),
    ensures
        0 <= stops[k] <= pending.len(),
        published_count(pending, stops[k]) == k,
    decreases k,
{
    if k > 0 {
        lemma_pushes_up_to(pending, stops, k - 1);
        assert(stops[k - 1] < stops[k - 1 + 1] <= pending.len());
        lemma_untracked_add_nothing(pending, stops[k - 1], stops[k] - 1);
    }
}

/// Once a sync is done, no record of a conflict is left, unless the sync
/// was started anew while such a record existed.
pub proof fn lemma_finished_sync_leaves_no_journal(run: SyncRun)
    requires
        run.wf(),
        run.stage() == Stage::Finished,
        run.resumes() || !run.journal_at_start(),
    ensures
        !run.journal(),
{
}

/// Finishes the merge that the user resolved in the working tree: the
/// index of the working tree is written as a tree and committed as the
/// merge of the commit that HEAD was left at with the remote commit of the
/// record. The local commit of the record is then written anew on its
/// recorded parent, for the merge as the tip of its remote branch.
pub fn finish_merge(repo: &GitRepo, state: &SyncState) -> (r: Result<TrackedCommit, EngineError>)
    ensures
        r matches Err(e) ==> e is Store || e is NothingToContinue || e is CherrypickConflict,
{
    let local = MainCommit::new(repo, state.main_commit_id)?;
    finish_merge_of(repo, state, local)
}

/// Does what `finish_merge` does, for the local commit of the record as it
/// is classified. Where that commit is not tracked, there is nothing to
/// continue. The commit that results is tracked under the same branch.
pub fn finish_merge_of(repo: &GitRepo, state: &SyncState, local: MainCommit) -> (r: Result<
    TrackedCommit,
    EngineError,
>)
    ensures
        match local {
            MainCommit::UnTracked(_) => r matches Err(EngineError::NothingToContinue),
            MainCommit::Published(t) => match r {
                Ok(n) => n.meta_view().branch == t.meta_view().branch,
                Err(e) => e is Store || e is CherrypickConflict,
            },
        },
{
    let local = match local {
        MainCommit::Published(t) => t,
        MainCommit::UnTracked(_) => {
            return Err(EngineError::NothingToContinue);
        },
    };
    let store = repo.repository();
    let ours = repo.head()?;
    let theirs = lift(find_commit(store, &state.remote_commit_id))?;
    let original = lift(find_commit(store, &state.main_commit_id))?;
    let mut index = lift(working_index(store))?;
    let merged = repo.commit_index(
        &mut index,
        &original,
        Role::Merge.message(),
        &ours,
        Some(&theirs),
    )?;
    lift(cleanup_state(store))?;
    local.cont(repo, &merged, Some(&state.main_commit_parent_id))
}

/// Starts the sync that resumes after the conflict that `state` records,
/// given the local commit of the record as it is classified, and the ids
/// of the commits that follow it on the local branch; `rest` is `None`
/// where the commit is not on the branch. Where it is not, or is not
/// tracked, there is nothing to continue. Otherwise the merge is finished,
/// and the commits that follow are left to walk.
pub fn resume_run(repo: &GitRepo, state: &SyncState, local: MainCommit, rest: Option<Vec<Oid>>) -> (r:
    Result<SyncRun, EngineError>)
    ensures
        rest is None || local is UnTracked ==> (r matches Err(EngineError::NothingToContinue)),
        rest is Some && local is Published ==> match r {
            Ok(run) => {
                &&& run.wf()
                &&& run.next() == 0
                &&& run.resumes()
                &&& run.journal_at_start()
                &&& run.journal()
                &&& run.stage() == Stage::Forgetting
                &&& run.pending().len() == rest->0.len()
                &&& forall|j: int|
                    0 <= j < rest->0.len() ==> (#[trigger] run.pending()[j]).commit()
                        == rest->0[j]@
                &&& run.resumed() matches Some(m) && m.branch == local->Published_0.meta_view().branch
            },
            Err(e) => e is Store || e is CherrypickConflict,
        },
{
    let rest = match rest {
        Some(rest) => rest,
        None => {
            return Err(EngineError::NothingToContinue);
        },
    };
    let finished = finish_merge_of(repo, state, local)?;
    let pending = repo.classify_all(&rest)?;
    let run = SyncRun {
        parent: finished.commit(),
        pending,
        next: 0,
        stage: Stage::Forgetting,
        resumed: Some(finished.meta_data().duplicate()),
        journal_at_start: true,
        journal: true,
        cont: true,
    };
    assert forall|j: int| 0 <= j < rest.len() implies (#[trigger] run.pending()[j]).commit()
        == rest[j]@ by {
        assert(is_classified(run.pending[j], rest[j]@));
    }
    Ok(run)
}

/// Starts the sync of the one commit `commit`, which the revision
/// `revision` names. A commit that is not tracked cannot be synced.
/// Otherwise the commit is the only one to walk, from its own parent.
pub fn single_run(repo: &GitRepo, commit: MainCommit, revision: String, had_journal: bool) -> (r:
    Result<SyncRun, EngineError>)
    ensures
        match commit {
            MainCommit::UnTracked(_) => r matches Err(EngineError::NotTracked { revspec })
                && revspec@ == revision@,
            MainCommit::Published(_) => match r {
                Ok(run) => {
                    &&& run.wf()
                    &&& run.next() == 0
                    &&& !run.resumes()
                    &&& run.journal_at_start() == had_journal
                    &&& run.journal() == had_journal
                    &&& run.stage() == Stage::Walking
                    &&& run.pending() == seq![commit@]
                    &&& run.resumed() is None
                },
                Err(e) => e is Store,
            },
        },
{
    let parent = match &commit {
        MainCommit::UnTracked(_) => {
            return Err(EngineError::NotTracked { revspec: revision });
        },
        MainCommit::Published(t) => {
            let handle = lift(find_commit(repo.repository(), t.as_commit()))?;
            let parent = lift(commit_parent(&handle))?;
            commit_id(&parent)
        },
    };
    let mut pending: Vec<MainCommit> = Vec::new();
    pending.push(commit);
    let run = SyncRun {
        parent,
        pending,
        next: 0,
        stage: Stage::Walking,
        resumed: None,
        journal_at_start: had_journal,
        journal: had_journal,
        cont: false,
    };
    assert(run.pending() =~= seq![commit@]);
    Ok(run)
}

/// Starts a sync. With `--continue`, the merge that the record `journal`
/// tells of is finished, and the commits that follow the recorded commit on
/// the local branch are left to walk. With a revision, the commit that it
/// names is the only one to walk, and it must be tracked. Otherwise every
/// unpushed commit is walked, from the upstream mainline.
pub fn execute(options: Options, repo: &GitRepo, journal: Option<SyncState>) -> (r: Result<
    SyncRun,
    EngineError,
>)
    ensures
        sync_mode(options.cont, options.commit_ref is Some, journal is Some) == SyncMode::Refused
            ==> (r matches Err(EngineError::ContinueWithRevspec)),
        sync_mode(options.cont, options.commit_ref is Some, journal is Some) == SyncMode::Idle
            ==> (r matches Err(EngineError::NothingToContinue)),
        match r {
            Ok(run) => {
                &&& run.wf()
                &&& run.next() == 0
                &&& run.resumes() == options.cont
                &&& run.journal_at_start() == journal is Some
                &&& run.journal() == journal is Some
                &&& run.stage() == if options.cont {
                    Stage::Forgetting
                } else {
                    Stage::Walking
                }
                &&& run.resumed() is Some == options.cont
                &&& sync_mode(options.cont, options.commit_ref is Some, journal is Some)
                    == SyncMode::Single ==> run.pending().len() == 1 && run.pending()[0]
                    is Published
            },
            Err(EngineError::ContinueWithRevspec) => sync_mode(
                options.cont,
                options.commit_ref is Some,
                journal is Some,
            ) == SyncMode::Refused,
            Err(EngineError::NotTracked { revspec }) => !options.cont && text_of(
                options.commit_ref,
            ) == Some(revspec@),
            Err(EngineError::BadRevspec { revspec }) => !options.cont && text_of(
                options.commit_ref,
            ) == Some(revspec@),
            Err(EngineError::AlreadyPushed { .. }) => !options.cont && options.commit_ref is Some,
            Err(EngineError::NothingToContinue) => options.cont,
            Err(e) => e is Store || (e is CherrypickConflict && options.cont),
        },
{
    let had_journal = journal.is_some();
    match start_of(options, journal) {
        SyncStart::Refused => Err(EngineError::ContinueWithRevspec),
        SyncStart::Idle => Err(EngineError::NothingToContinue),
        SyncStart::Resume(state) => {
            let tip = repo.branch_tip()?;
            let ids = repo.unpushed_ids(&tip)?;
            let rest = remaining_after(&ids, &state.main_commit_id);
            let local = MainCommit::new(repo, state.main_commit_id)?;
            resume_run(repo, &state, local, rest)
        },
        SyncStart::Single(c_ref) => {
            let commit = repo.find_unpushed_commit(c_ref.as_str())?;
            single_run(repo, commit, c_ref, had_journal)
        },
        SyncStart::All => {
            let parent = repo.base_commit_id()?;
            let pending = repo.unpushed_commits()?;
            Ok(
                SyncRun {
                    parent,
                    pending,
                    next: 0,
                    stage: Stage::Walking,
                    resumed: None,
                    journal_at_start: had_journal,
                    journal: had_journal,
                    cont: false,
                },
            )
        },
    }
}

} // verus!
