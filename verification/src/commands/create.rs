//! `create`: publishes a commit on a remote branch of its own.

use crate::error::EngineError;
use crate::git::local_commit::main_commit::MainCommit;
use crate::git::local_commit::meta_data::{is_plain_name, CommitMetadata};
use crate::git::local_commit::untracked_commit::{
    branch_name_of, lemma_branch_name_plain, UnTrackedCommit,
};
use crate::git::repo::GitRepo;
use vstd::prelude::*;
use vstd::string::StringExecFns;

verus! {

/// What `create` is asked for.
#[derive(Debug)]
pub struct Options {
    /// Publish anew a commit that is tracked already.
    pub force: bool,
    /// The commit to publish; HEAD where none is given.
    pub commit_ref: Option<String>,
    /// The name of the remote branch; made from the commit's title where
    /// none is given.
    pub name: Option<String>,
}

/// The contents of an `Options`.
pub struct OptionsView {
    pub force: bool,
    pub commit_ref: Option<Seq<char>>,
    pub name: Option<Seq<char>>,
}

/// The text of an optional string.
pub open spec fn text_of(s: Option<String>) -> Option<Seq<char>> {
    match s {
        Some(s) => Some(s@),
        None => None,
    }
}

impl View for Options {
    type V = OptionsView;

    open spec fn view(&self) -> OptionsView {
        OptionsView {
            force: self.force,
            commit_ref: text_of(self.commit_ref),
            name: text_of(self.name),
        }
    }
}

impl Default for Options {
    fn default() -> (r: Options)
        ensures
            r@ == (OptionsView { force: false, commit_ref: None, name: None }),
    {
        Options { force: false, commit_ref: None, name: None }
    }
}

impl Options {
    /// The same options with `--force`.
    pub fn with_force(self) -> (r: Options)
        ensures
            r@ == (OptionsView { force: true, ..self@ }),
    {
        Options { force: true, commit_ref: self.commit_ref, name: self.name }
    }

    /// The same options with `name` for the remote branch.
    pub fn with_name(self, name: &str) -> (r: Options)
        ensures
            r@ == (OptionsView { name: Some(name@), ..self@ }),
    {
        Options { force: self.force, commit_ref: self.commit_ref, name: Some(String::from_str(name)) }
    }

    /// The same options with `name` as the commit to publish.
    pub fn with_commit_ref(self, name: &str) -> (r: Options)
        ensures
            r@ == (OptionsView { commit_ref: Some(name@), ..self@ }),
    {
        Options { force: self.force, commit_ref: Some(String::from_str(name)), name: self.name }
    }

    /// The revision to publish: the one given, or HEAD.
    pub fn revision(&self) -> (r: String)
        ensures
            r@ == revision_of(self@),
    {
        match &self.commit_ref {
            Some(rev) => rev.clone(),
            None => String::from_str("HEAD"),
        }
    }
}

/// The revision that `create` publishes.
pub open spec fn revision_of(options: OptionsView) -> Seq<char> {
    match options.commit_ref {
        Some(rev) => rev,
        None => "HEAD"@,
    }
}

/// How `create` goes about a commit.
#[derive(Debug, Clone, Copy, PartialEq, Eq, Structural)]
pub enum CreatePlan {
    /// The commit is untracked: publish it.
    Track,
    /// The commit is tracked and `--force` is given: forget its publication,
    /// then publish it.
    Retrack,
    /// The commit is tracked and `--force` is not given: refuse.
    Refuse,
}

/// How `create` goes about a commit that is tracked or not, with `--force`
/// or without.
pub open spec fn create_plan(published: bool, force: bool) -> CreatePlan {
    if !published {
        CreatePlan::Track
    } else if force {
        CreatePlan::Retrack
    } else {
        CreatePlan::Refuse
    }
}

/// Decides `create_plan` for `commit`.
pub fn plan(commit: &MainCommit, force: bool) -> (r: CreatePlan)
    ensures
        r == create_plan(commit.is_tracked(), force),
{
    match commit {
        MainCommit::UnTracked(_) => CreatePlan::Track,
        MainCommit::Published(_) => if force {
            CreatePlan::Retrack
        } else {
            CreatePlan::Refuse
        },
    }
}

/// Whether `create` may publish to a remote branch: one that exists is
/// taken over only with `--force`.
pub open spec fn may_publish(branch_exists: bool, force: bool) -> bool {
    force || !branch_exists
}

/// Decides `may_publish`.
pub fn decide_may_publish(branch_exists: bool, force: bool) -> (r: bool)
    ensures
        r == may_publish(branch_exists, force),
{
    force || !branch_exists
}

/// `create` refuses a tracked commit exactly when `--force` is missing, and
/// with `--force` it refuses neither a tracked commit nor a branch that
/// exists.
pub proof fn lemma_force_overrides(published: bool, branch_exists: bool)
    ensures
        create_plan(published, true) != CreatePlan::Refuse,
        may_publish(branch_exists, true),
        create_plan(published, false) == CreatePlan::Refuse <==> published,
        may_publish(branch_exists, false) <==> !branch_exists,
{
}

/// Publishes the commit that `config` names: the commit is classified, a
/// tracked one is refused unless `--force` is given, and the commit is
/// tracked under a new remote branch. The result is the metadata to push.
pub fn execute(config: Options, git_repo: &GitRepo) -> (r: Result<CommitMetadata, EngineError>)
    ensures
        match r {
            Ok(m) => match config@.name {
                Some(n) => m@.branch == n,
                None => is_plain_name(m@.branch) && exists|message: Seq<char>|
                    m@.branch == branch_name_of(message),
            },
            Err(EngineError::BadRevspec { revspec }) => revspec@ == revision_of(config@),
            Err(EngineError::AlreadyTracked) => !config.force,
            Err(EngineError::BranchExists { name }) => !config.force && (config@.name matches Some(
                n,
            ) ==> name@ == n),
            Err(e) => e is AlreadyPushed || e is CherrypickConflict || e is Store || (e
                is EmptyMessage && config.name is None),
        },
{
    let rev = config.revision();
    let commit = git_repo.find_unpushed_commit(rev.as_str())?;
    publish(commit, config, git_repo)
}

/// Publishes `commit` as `config` says. A tracked commit is refused unless
/// `--force` is given, and with `--force` its publication is forgotten
/// first. The branch is named as `config` says, or after the title of the
/// commit; a remote branch of that name that exists is taken over only with
/// `--force`. The result is the metadata to push.
pub fn publish(commit: MainCommit, config: Options, git_repo: &GitRepo) -> (r: Result<
    CommitMetadata,
    EngineError,
>)
    ensures
        create_plan(commit.is_tracked(), config.force) == CreatePlan::Refuse ==> (r matches Err(
            EngineError::AlreadyTracked,
        )),
        match r {
            Ok(m) => match config@.name {
                Some(n) => m@.branch == n,
                None => is_plain_name(m@.branch) && exists|message: Seq<char>|
                    m@.branch == branch_name_of(message),
            },
            Err(EngineError::AlreadyTracked) => create_plan(commit.is_tracked(), config.force)
                == CreatePlan::Refuse,
            Err(EngineError::BranchExists { name }) => !config.force && (config@.name matches Some(
                n,
            ) ==> name@ == n),
            Err(e) => e is CherrypickConflict || e is Store || (e is EmptyMessage && config.name
                is None),
        },
{
    let untracked_commit = match plan(&commit, config.force) {
        CreatePlan::Refuse => {
            return Err(EngineError::AlreadyTracked);
        },
        CreatePlan::Track | CreatePlan::Retrack => match commit {
            MainCommit::UnTracked(c) => c,
            MainCommit::Published(t) => t.untrack(git_repo)?,
        },
    };
    let name = match config.name {
        Some(n) => n,
        None => {
            let id = untracked_commit.commit();
            let message = git_repo.message_text(&id)?;
            proof {
                lemma_branch_name_plain(message@);
            }
            UnTrackedCommit::generate_remote_branch_name(message.as_str())?
        },
    };
    let exists = git_repo.find_head_of_remote_branch(name.as_str()).is_some();
    publish_as(untracked_commit, name, exists, config.force, git_repo)
}

/// Publishes the untracked commit `commit` on the remote branch `name`,
/// given whether a remote branch of that name exists. A branch that exists
/// is taken over only with `--force`; without it the commit is refused and
/// stays untracked. The result is the metadata to push.
pub fn publish_as(
    commit: UnTrackedCommit,
    name: String,
    exists: bool,
    force: bool,
    git_repo: &GitRepo,
) -> (r: Result<CommitMetadata, EngineError>)
    ensures
        !may_publish(exists, force) ==> (r matches Err(EngineError::BranchExists { name: n })
            && n@ == name@),
        may_publish(exists, force) ==> match r {
            Ok(m) => m@.branch == name@,
            Err(e) => e is CherrypickConflict || e is Store,
        },
{
    if !decide_may_publish(exists, force) {
        return Err(EngineError::BranchExists { name });
    }
    let tracked_commit = commit.track(git_repo, Some(name))?;
    Ok(tracked_commit.meta_data().duplicate())
}

} // verus!
