//! An open repository on a named branch.

use crate::error::EngineError;
use crate::git::local_commit::main_commit::{is_classified, MainCommit};
use crate::git::local_commit::meta_data::{meta_view_of, note_meta, note_text, CommitMetadata};
use crate::git::oid::Oid;
use crate::git::remote_command::{CommandOption, RemoteGitCommand};
use crate::git::store::{
    commit_author, commit_committer, commit_id, commit_message, config_set_str,
    default_signature, error_message, find_commit, find_remote_branch, find_tree,
    graph_descendant_of, head_reference, index_write_tree_to, object_peel_to_commit,
    open_repository, read_note, reference_is_branch, reference_name, reference_peel_to_commit,
    refname_to_id, remove_note, repository_config, revparse, set_branch, set_head,
    set_head_detached, signature_now, walk_above, write_commit, write_note,
};
use crate::text::{join2, strip_prefix, strip_prefix_str};
use vstd::prelude::*;
use vstd::string::StringExecFns;

verus! {

/// The failure of the library that stands for a failure of the object
/// store: it carries what the store said.
pub(crate) fn lift<T>(r: Result<T, git2::Error>) -> (out: Result<T, EngineError>)
    ensures
        match r {
            Ok(v) => out == Ok::<T, EngineError>(v),
            Err(_) => out matches Err(EngineError::Store { .. }),
        },
{
    match r {
        Ok(v) => Ok(v),
        Err(e) => Err(EngineError::Store { message: error_message(&e) }),
    }
}

/// What the store gave, where it gave something.
pub(crate) fn known<T>(r: Result<T, git2::Error>) -> (out: Option<T>)
    ensures
        match r {
            Ok(v) => out == Some(v),
            Err(_) => out is None,
        },
{
    match r {
        Ok(v) => Some(v),
        Err(_) => None,
    }
}

/// What the revision `revspec` names, given what the store found for it: a
/// revision for which nothing is found is a bad one.
pub fn resolved<T>(found: Option<T>, revspec: &str) -> (r: Result<T, EngineError>)
    ensures
        match found {
            Some(v) => r == Ok::<T, EngineError>(v),
            None => r matches Err(EngineError::BadRevspec { revspec: text }) && text@ == revspec@,
        },
{
    match found {
        Some(v) => Ok(v),
        None => Err(EngineError::BadRevspec { revspec: String::from_str(revspec) }),
    }
}

/// The name of the branch that the full reference name `refname` stands
/// for: what follows `refs/heads/`.
pub open spec fn branch_of_ref(refname: Seq<char>) -> Option<Seq<char>> {
    strip_prefix(refname, "refs/heads/"@)
}

/// The branch that HEAD is on, given whether it points to a branch and the
/// name of the reference that it points to; none where it points to no
/// branch.
pub open spec fn head_branch(is_branch: bool, refname: Seq<char>) -> Option<Seq<char>> {
    if is_branch {
        branch_of_ref(refname)
    } else {
        None
    }
}

/// The full reference name of the local branch `name`.
pub open spec fn local_ref(name: Seq<char>) -> Seq<char> {
    "refs/heads/"@ + name
}

/// The full reference name of the upstream of the branch `name`.
pub open spec fn upstream_ref(name: Seq<char>) -> Seq<char> {
    "refs/remotes/origin/"@ + name
}

/// The name under which the remote-tracking branch `name` is looked up.
pub open spec fn remote_branch_ref(name: Seq<char>) -> Seq<char> {
    "origin/"@ + name
}

/// The name of the branch behind a full reference name; `None` where the
/// reference is no local branch.
pub fn branch_name_of_ref(refname: &str) -> (r: Option<String>)
    ensures
        match r {
            Some(name) => branch_of_ref(refname@) == Some(name@),
            None => branch_of_ref(refname@) is None,
        },
{
    strip_prefix_str(refname, "refs/heads/")
}

/// The full reference name of the local branch `name`.
pub fn local_ref_name(name: &str) -> (r: String)
    ensures
        r@ == local_ref(name@),
{
    join2("refs/heads/", name)
}

/// The full reference name of the upstream of the branch `name`.
pub fn upstream_ref_name(name: &str) -> (r: String)
    ensures
        r@ == upstream_ref(name@),
{
    join2("refs/remotes/origin/", name)
}

/// The name under which the remote-tracking branch `name` is looked up.
pub fn remote_branch_ref_name(name: &str) -> (r: String)
    ensures
        r@ == remote_branch_ref(name@),
{
    join2("origin/", name)
}

/// An open repository, and the branch that its HEAD is on.
pub struct GitRepo {
    repo: git2::Repository,
    pub current_branch_name: String,
    path: String,
    option: CommandOption,
}

impl GitRepo {
    /// Opens the repository that holds `path`. HEAD must be on a branch.
    pub fn open(path: &str) -> (r: Result<GitRepo, EngineError>)
        ensures
            r matches Ok(g) ==> g.path()@ == path@ && g.option() == CommandOption::Default,
            r matches Err(e) ==> e is Store || e is DetachedHead,
    {
        GitRepo::open_with_remote(path, CommandOption::Default)
    }

    /// Opens the repository that holds `path`, to reach its remote in the
    /// way that `option` says. HEAD must be on a branch.
    pub fn open_with_remote(path: &str, option: CommandOption) -> (r: Result<GitRepo, EngineError>)
        ensures
            r matches Ok(g) ==> g.path()@ == path@ && g.option() == option,
            r matches Err(e) ==> e is Store || e is DetachedHead,
    {
        let repo = lift(open_repository(path))?;
        let (is_branch, refname) = {
            let head = lift(head_reference(&repo))?;
            (reference_is_branch(&head), lift(reference_name(&head))?)
        };
        GitRepo::on_head(repo, path, option, is_branch, refname.as_str())
    }

    /// The repository `repo`, opened at `path`, on the branch that its HEAD
    /// is on, given whether HEAD points to a branch and the name of the
    /// reference that it points to. A HEAD that points to no branch is
    /// refused; otherwise the branch is the one that the reference names.
    pub fn on_head(
        repo: git2::Repository,
        path: &str,
        option: CommandOption,
        is_branch: bool,
        refname: &str,
    ) -> (r: Result<GitRepo, EngineError>)
        ensures
            match head_branch(is_branch, refname@) {
                None => r matches Err(EngineError::DetachedHead),
                Some(branch) => match r {
                    Ok(g) => g.branch() == branch && g.path()@ == path@ && g.option() == option,
                    Err(e) => e is Store,
                },
            },
    {
        if !is_branch {
            return Err(EngineError::DetachedHead);
        }
        match branch_name_of_ref(refname) {
            Some(name) => GitRepo::attach(repo, path, name, option),
            None => Err(EngineError::DetachedHead),
        }
    }

    /// Opens the repository that holds `path` for the branch `branch`,
    /// wherever HEAD is: a sync that stopped at a conflict left HEAD
    /// detached.
    pub fn open_on_branch(path: &str, branch: &str, option: CommandOption) -> (r: Result<
        GitRepo,
        EngineError,
    >)
        ensures
            r matches Ok(g) ==> g.path()@ == path@ && g.option() == option
                && g.branch() == branch@,
            r matches Err(e) ==> e is Store,
    {
        let repo = lift(open_repository(path))?;
        GitRepo::attach(repo, path, String::from_str(branch), option)
    }

    /// The repository `repo`, opened at `path`, on the branch `branch`. Notes
    /// are set to follow the commits that are rewritten.
    fn attach(repo: git2::Repository, path: &str, branch: String, option: CommandOption) -> (r:
        Result<GitRepo, EngineError>)
        ensures
            r matches Ok(g) ==> g.path()@ == path@ && g.option() == option
                && g.branch() == branch@,
            r matches Err(e) ==> e is Store,
    {
        let mut config = lift(repository_config(&repo))?;
        lift(config_set_str(&mut config, "notes.rewriteRef", "refs/notes/*"))?;
        let r = GitRepo { repo, current_branch_name: branch, path: String::from_str(path), option };
        Ok(r)
    }

    /// The name of the branch that the repository is on.
    pub closed spec fn branch(&self) -> Seq<char> {
        self.current_branch_name@
    }

    /// The name of the branch that the repository is on.
    pub fn branch_name(&self) -> (r: &String)
        ensures
            r@ == self.branch(),
    {
        &self.current_branch_name
    }

    /// The path that the repository was opened at.
    pub closed spec fn path(&self) -> String {
        self.path
    }

    /// How the remote is reached.
    pub closed spec fn option(&self) -> CommandOption {
        self.option
    }

    /// The object store.
    pub(crate) closed spec fn store(&self) -> git2::Repository {
        self.repo
    }

    /// The object store.
    pub(crate) fn repository(&self) -> (r: &git2::Repository)
        ensures
            *r == self.store(),
    {
        &self.repo
    }

    /// The command that reaches the remote of this repository.
    pub fn remote(&self) -> (r: RemoteGitCommand)
        ensures
            r.path()@ == self.path()@,
            r.option() == self.option(),
    {
        RemoteGitCommand::new(self.option, self.path.clone())
    }

    /// The id of the upstream mainline: the tip of `origin/<branch>`.
    pub fn base_commit_id(&self) -> (r: Result<Oid, EngineError>)
        ensures
            r matches Err(e) ==> e is Store,
    {
        let name = upstream_ref_name(self.current_branch_name.as_str());
        lift(refname_to_id(&self.repo, name.as_str()))
    }

    /// The upstream mainline: the tip of `origin/<branch>`.
    pub fn base_commit(&self) -> (r: Result<git2::Commit<'_>, EngineError>)
        ensures
            r matches Err(e) ==> e is Store,
    {
        let id = self.base_commit_id()?;
        lift(find_commit(&self.repo, &id))
    }

    /// The commit that HEAD is at.
    pub fn head(&self) -> (r: Result<git2::Commit<'_>, EngineError>)
        ensures
            r matches Err(e) ==> e is Store,
    {
        let head = lift(head_reference(&self.repo))?;
        lift(reference_peel_to_commit(&head))
    }

    /// The tip of the local branch, wherever HEAD is.
    pub fn branch_tip(&self) -> (r: Result<Oid, EngineError>)
        ensures
            r matches Err(e) ==> e is Store,
    {
        let name = local_ref_name(self.current_branch_name.as_str());
        lift(refname_to_id(&self.repo, name.as_str()))
    }

    /// The fetched tip of the remote branch `branch_name`, if there is such
    /// a branch.
    pub fn find_head_of_remote_branch(&self, branch_name: &str) -> (r: Option<git2::Commit<'_>>) {
        let name = remote_branch_ref_name(branch_name);
        match known(find_remote_branch(&self.repo, name.as_str())) {
            Some(reference) => known(reference_peel_to_commit(&reference)),
            None => None,
        }
    }

    /// Whether `commit` stands strictly above `base`: it has `base` among
    /// its ancestors, and is not `base` itself.
    pub fn strictly_above(&self, commit: &Oid, base: &Oid) -> (r: Result<bool, EngineError>)
        ensures
            r matches Ok(above) ==> (commit@ == base@ ==> !above),
            r matches Err(e) ==> e is Store,
    {
        lift(graph_descendant_of(&self.repo, commit, base))
    }

    /// The commit that `commit_ref` names, classified. The commit must be a
    /// strict descendant of the upstream mainline.
    pub fn find_unpushed_commit(&self, commit_ref: &str) -> (r: Result<MainCommit, EngineError>)
        ensures
            match r {
                Ok(c) => is_classified(c, c.id_view()),
                Err(EngineError::BadRevspec { revspec }) => revspec@ == commit_ref@,
                Err(e) => e is AlreadyPushed || e is Store,
            },
    {
        let object = resolved(known(revparse(&self.repo, commit_ref)), commit_ref)?;
        let commit = lift(object_peel_to_commit(&object))?;
        let id = commit_id(&commit);
        let base = self.base_commit_id()?;
        self.admit_above(id, &base)
    }

    /// The commit `id`, classified, provided it stands strictly above the
    /// upstream mainline `base`. The mainline itself is never admitted.
    pub fn admit_above(&self, id: Oid, base: &Oid) -> (r: Result<MainCommit, EngineError>)
        ensures
            match r {
                Ok(c) => is_classified(c, id@) && id@ != base@,
                Err(EngineError::AlreadyPushed { commit }) => commit@ == id@,
                Err(e) => e is Store,
            },
    {
        let above = self.strictly_above(&id, base)?;
        self.admit_unpushed(id, above)
    }

    /// The commit `id`, classified, given whether it stands strictly above
    /// the upstream mainline. A commit at or below the mainline is pushed
    /// already, and is refused.
    pub fn admit_unpushed(&self, id: Oid, above: bool) -> (r: Result<MainCommit, EngineError>)
        ensures
            !above ==> (r matches Err(EngineError::AlreadyPushed { commit }) && commit@ == id@),
            above ==> match r {
                Ok(c) => is_classified(c, id@),
                Err(e) => e is Store,
            },
    {
        if !above {
            return Err(EngineError::AlreadyPushed { commit: id });
        }
        MainCommit::new(self, id)
    }

    /// The text of the note on the commit `commit_id`, if it has one.
    pub fn find_note_for_commit(&self, commit_id: &Oid) -> (r: Result<Option<String>, EngineError>)
        ensures
            r matches Err(e) ==> e is Store,
    {
        lift(read_note(&self.repo, commit_id))
    }

    /// The tracking metadata of the commit `commit_id`, if its note holds
    /// any.
    pub fn find_meta_data_for_commit(&self, commit_id: &Oid) -> (r: Result<
        Option<CommitMetadata>,
        EngineError,
    >)
        ensures
            r matches Ok(found) ==> exists|note: Option<Seq<char>>|
                meta_view_of(found) == note_meta(note),
            r matches Err(e) ==> e is Store,
    {
        let note = self.find_note_for_commit(commit_id)?;
        let found = CommitMetadata::of_note(&note);
        assert(meta_view_of(found) == note_meta(note_text(note)));
        Ok(found)
    }

    /// The signature that the engine commits with: the configured one, or,
    /// where none is configured, the committer of `commit` at the present
    /// time.
    pub fn committer_for(&self, commit: &git2::Commit<'_>) -> (r: Result<
        git2::Signature<'static>,
        EngineError,
    >)
        ensures
            r matches Err(e) ==> e is Store,
    {
        match known(default_signature(&self.repo)) {
            Some(signature) => Ok(signature),
            None => {
                let committer = commit_committer(commit);
                lift(signature_now(&committer))
            },
        }
    }

    /// Attaches `meta_data` to `commit` as its note, in place of the note
    /// that it may have.
    pub fn save_meta_data(&self, commit: &git2::Commit<'_>, meta_data: &CommitMetadata) -> (r:
        Result<(), EngineError>)
        ensures
            r matches Err(e) ==> e is Store,
    {
        let committer = self.committer_for(commit)?;
        let id = commit_id(commit);
        let text = meta_data.to_note();
        lift(write_note(&self.repo, &committer, &id, text.as_str()))
    }

    /// Removes the note of `commit`.
    pub fn remove_meta_data(&self, commit: &git2::Commit<'_>) -> (r: Result<(), EngineError>)
        ensures
            r matches Err(e) ==> e is Store,
    {
        let committer = self.committer_for(commit)?;
        let id = commit_id(commit);
        lift(remove_note(&self.repo, &committer, &id))
    }

    /// The message of the commit `id`; `None` where the commit cannot be
    /// found or its message is not text.
    pub fn message_of(&self, id: &Oid) -> (r: Option<String>) {
        match known(find_commit(&self.repo, id)) {
            Some(commit) => known(commit_message(&commit)),
            None => None,
        }
    }

    /// The message of the commit `id`.
    pub fn message_text(&self, id: &Oid) -> (r: Result<String, EngineError>)
        ensures
            r matches Err(e) ==> e is Store,
    {
        let commit = lift(find_commit(&self.repo, id))?;
        lift(commit_message(&commit))
    }

    /// Writes the tree `tree` as a commit with `message` on `first_parent`,
    /// and on `second_parent` where there is one. The author is that of
    /// `original_commit`; the committer is the present user.
    pub fn commit_tree_id(
        &self,
        tree: &Oid,
        original_commit: &git2::Commit<'_>,
        message: &str,
        first_parent: &git2::Commit<'_>,
        second_parent: Option<&git2::Commit<'_>>,
    ) -> (r: Result<Oid, EngineError>)
        ensures
            r matches Err(e) ==> e is Store,
    {
        let tree = lift(find_tree(&self.repo, tree))?;
        let author = commit_author(original_commit);
        let committer = self.committer_for(original_commit)?;
        lift(
            write_commit(
                &self.repo,
                &author,
                &committer,
                message,
                &tree,
                first_parent,
                second_parent,
            ),
        )
    }

    /// Writes `index` as a tree and commits it as `commit_tree_id` does. An
    /// index with conflicts cannot be written.
    pub fn commit_index(
        &self,
        index: &mut git2::Index,
        original_commit: &git2::Commit<'_>,
        message: &str,
        first_parent: &git2::Commit<'_>,
        second_parent: Option<&git2::Commit<'_>>,
    ) -> (r: Result<Oid, EngineError>)
        ensures
            r matches Err(e) ==> e is Store,
    {
        let tree = lift(index_write_tree_to(index, &self.repo))?;
        self.commit_tree_id(&tree, original_commit, message, first_parent, second_parent)
    }

    /// The ids of the commits strictly between the upstream mainline and
    /// `tip`, oldest first.
    pub fn unpushed_ids(&self, tip: &Oid) -> (r: Result<Vec<Oid>, EngineError>)
        ensures
            r matches Err(e) ==> e is Store,
    {
        let base = self.base_commit_id()?;
        lift(walk_above(&self.repo, tip, &base))
    }

    /// Classifies each of `ids` by the note that it has: the commits come in
    /// the order of `ids`.
    pub fn classify_all(&self, ids: &Vec<Oid>) -> (r: Result<Vec<MainCommit>, EngineError>)
        ensures
            ids.len() == 0 ==> r is Ok,
            r matches Ok(out) ==> out.len() == ids.len() && forall|j: int|
                0 <= j < out.len() ==> is_classified(#[trigger] out[j], ids[j]@),
            r matches Err(e) ==> e is Store,
    {
        let mut out: Vec<MainCommit> = Vec::new();
        let mut i: usize = 0;
        while i < ids.len()
            invariant
                i <= ids.len(),
                out.len() == i,
                forall|j: int| 0 <= j < i ==> is_classified(#[trigger] out[j], ids[j]@),
            decreases ids.len() - i,
        {
            let commit = MainCommit::new(self, ids[i])?;
            out.push(commit);
            i += 1;
        }
        Ok(out)
    }

    /// The commits strictly between the upstream mainline and `tip`, oldest
    /// first, each classified by the note that it has.
    pub fn unpushed_commits_from(&self, tip: &Oid) -> (r: Result<Vec<MainCommit>, EngineError>)
        ensures
            r matches Ok(out) ==> forall|j: int|
                0 <= j < out.len() ==> is_classified(#[trigger] out[j], out[j].id_view()),
            r matches Err(e) ==> e is Store,
    {
        let ids = self.unpushed_ids(tip)?;
        self.classify_all(&ids)
    }

    /// The commits strictly between the upstream mainline and HEAD, oldest
    /// first, each classified by the note that it has.
    pub fn unpushed_commits(&self) -> (r: Result<Vec<MainCommit>, EngineError>)
        ensures
            r matches Ok(out) ==> forall|j: int|
                0 <= j < out.len() ==> is_classified(#[trigger] out[j], out[j].id_view()),
            r matches Err(e) ==> e is Store,
    {
        let head = self.head()?;
        let tip = commit_id(&head);
        self.unpushed_commits_from(&tip)
    }

    /// Moves the local branch to `new_head`: HEAD is detached at it, the
    /// branch is set, and HEAD is put back on the branch.
    pub fn update_current_branch(&self, new_head: &Oid) -> (r: Result<(), EngineError>)
        ensures
            r matches Err(e) ==> e is Store,
    {
        let commit = lift(find_commit(&self.repo, new_head))?;
        lift(set_head_detached(&self.repo, new_head))?;
        lift(set_branch(&self.repo, self.current_branch_name.as_str(), &commit))?;
        let name = local_ref_name(self.current_branch_name.as_str());
        lift(set_head(&self.repo, name.as_str()))
    }
}

} // verus!
