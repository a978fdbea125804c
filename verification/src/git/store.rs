//! The calls into the object store. Each function here hands one operation
//! to `git2`. What comes back depends on the repository on disk, so nothing
//! is claimed of a result but what holds in every repository.

use crate::git::local_commit::patch::DeltaFilter;
use crate::git::oid::Oid;
use vstd::prelude::*;

verus! {

/// `git2::Repository`: an open repository. Nothing is known of what it holds.
#[verifier::external_type_specification]
#[verifier::external_body]
pub struct ExRepository(git2::Repository);

/// `git2::Error`: what the store says when it refuses an operation.
#[verifier::external_type_specification]
#[verifier::external_body]
pub struct ExError(git2::Error);

/// `git2::Index`: an index, in memory or of the working tree.
#[verifier::external_type_specification]
#[verifier::external_body]
pub struct ExIndex(git2::Index);

/// `git2::Commit`: a commit that was looked up in the repository.
#[verifier::external_type_specification]
#[verifier::external_body]
pub struct ExCommit<'repo>(git2::Commit<'repo>);

/// `git2::Tree`: a tree that was looked up in the repository.
#[verifier::external_type_specification]
#[verifier::external_body]
pub struct ExTree<'repo>(git2::Tree<'repo>);

/// `git2::Diff`: the file changes between two trees, or a tree and an index.
#[verifier::external_type_specification]
#[verifier::external_body]
pub struct ExDiff<'repo>(git2::Diff<'repo>);

/// `git2::Reference`: a reference that was looked up in the repository.
#[verifier::external_type_specification]
#[verifier::external_body]
pub struct ExReference<'repo>(git2::Reference<'repo>);

/// `git2::Object`: an object that a revision names.
#[verifier::external_type_specification]
#[verifier::external_body]
pub struct ExObject<'repo>(git2::Object<'repo>);

/// `git2::Signature`: who acts, and when.
#[verifier::external_type_specification]
#[verifier::external_body]
pub struct ExSignature<'a>(git2::Signature<'a>);

/// `git2::Config`: the configuration of a repository.
#[verifier::external_type_specification]
#[verifier::external_body]
pub struct ExConfig(git2::Config);

/// `git2::AnnotatedCommit`: a commit, with how it was named.
#[verifier::external_type_specification]
#[verifier::external_body]
pub struct ExAnnotatedCommit<'repo>(git2::AnnotatedCommit<'repo>);

/// `git2::Repository::open_ext` with no flags and no ceiling directories:
/// opens the repository that holds `path`.
#[verifier::external_body]
pub(crate) fn open_repository(path: &str) -> (r: Result<git2::Repository, git2::Error>) {
    git2::Repository::open_ext(path, git2::RepositoryOpenFlags::empty(), Vec::<String>::new())
}

/// `git2::Error::message`: the text of a failure.
#[verifier::external_body]
pub(crate) fn error_message(error: &git2::Error) -> (r: String) {
    error.message().to_string()
}

/// `git2::Repository::head`: the reference that HEAD points to.
#[verifier::external_body]
pub(crate) fn head_reference<'repo>(repo: &'repo git2::Repository) -> (r: Result<
    git2::Reference<'repo>,
    git2::Error,
>) {
    repo.head()
}

/// `git2::Reference::is_branch`: whether the reference is a local branch.
#[verifier::external_body]
pub(crate) fn reference_is_branch(reference: &git2::Reference<'_>) -> (r: bool) {
    reference.is_branch()
}

/// `git2::Reference::name`: the full name of the reference.
#[verifier::external_body]
pub(crate) fn reference_name(reference: &git2::Reference<'_>) -> (r: Result<String, git2::Error>) {
    reference.name().map(String::from)
}

/// `git2::Reference::peel_to_commit`: the commit that the reference leads
/// to.
#[verifier::external_body]
pub(crate) fn reference_peel_to_commit<'repo>(reference: &git2::Reference<'repo>) -> (r: Result<
    git2::Commit<'repo>,
    git2::Error,
>) {
    reference.peel_to_commit()
}

/// `git2::Repository::config`: the configuration of the repository.
#[verifier::external_body]
pub(crate) fn repository_config(repo: &git2::Repository) -> (r: Result<git2::Config, git2::Error>) {
    repo.config()
}

/// `git2::Config::set_str`: sets `key` to `value` at the most specific
/// level that the configuration has.
#[verifier::external_body]
pub(crate) fn config_set_str(config: &mut git2::Config, key: &str, value: &str) -> (r: Result<
    (),
    git2::Error,
>) {
    config.set_str(key, value)
}

/// `git2::Repository::refname_to_id`: the id that a reference name resolves
/// to.
#[verifier::external_body]
pub(crate) fn refname_to_id(repo: &git2::Repository, name: &str) -> (r: Result<Oid, git2::Error>) {
    let raw = repo.refname_to_id(name)?;
    Ok(Oid::from_bytes(raw.as_bytes().try_into().unwrap_or_default()))
}

/// `git2::Repository::find_commit`.
#[verifier::external_body]
pub(crate) fn find_commit<'repo>(repo: &'repo git2::Repository, id: &Oid) -> (r: Result<
    git2::Commit<'repo>,
    git2::Error,
>) {
    repo.find_commit(git2::Oid::from_bytes(&id.as_bytes())?)
}

/// `git2::Repository::find_tree`.
#[verifier::external_body]
pub(crate) fn find_tree<'repo>(repo: &'repo git2::Repository, id: &Oid) -> (r: Result<
    git2::Tree<'repo>,
    git2::Error,
>) {
    repo.find_tree(git2::Oid::from_bytes(&id.as_bytes())?)
}

/// `git2::Repository::find_branch` among the remote-tracking branches; the
/// branch is handed on as the reference that it is.
#[verifier::external_body]
pub(crate) fn find_remote_branch<'repo>(repo: &'repo git2::Repository, name: &str) -> (r: Result<
    git2::Reference<'repo>,
    git2::Error,
>) {
    repo.find_branch(name, git2::BranchType::Remote).map(|branch| branch.into_reference())
}

/// `git2::Repository::revparse_ext`: the object that a revision names.
#[verifier::external_body]
pub(crate) fn revparse<'repo>(repo: &'repo git2::Repository, spec: &str) -> (r: Result<
    git2::Object<'repo>,
    git2::Error,
>) {
    repo.revparse_ext(spec).map(|(object, _)| object)
}

/// `git2::Object::peel_to_commit`.
#[verifier::external_body]
pub(crate) fn object_peel_to_commit<'repo>(object: &git2::Object<'repo>) -> (r: Result<
    git2::Commit<'repo>,
    git2::Error,
>) {
    object.peel_to_commit()
}

/// `git2::Repository::graph_descendant_of`: whether `commit` has `ancestor`
/// among its ancestors. A commit is no descendant of itself.
#[verifier::external_body]
pub(crate) fn graph_descendant_of(repo: &git2::Repository, commit: &Oid, ancestor: &Oid) -> (r:
    Result<bool, git2::Error>)
    ensures
        r matches Ok(descends) ==> (commit@ == ancestor@ ==> !descends),
{
    repo.graph_descendant_of(
        git2::Oid::from_bytes(&commit.as_bytes())?,
        git2::Oid::from_bytes(&ancestor.as_bytes())?,
    )
}

/// `git2::Repository::merge_base`.
#[verifier::external_body]
pub(crate) fn merge_base(repo: &git2::Repository, one: &Oid, two: &Oid) -> (r: Result<
    Oid,
    git2::Error,
>) {
    let raw = repo.merge_base(
        git2::Oid::from_bytes(&one.as_bytes())?,
        git2::Oid::from_bytes(&two.as_bytes())?,
    )?;
    Ok(Oid::from_bytes(raw.as_bytes().try_into().unwrap_or_default()))
}

/// A walk of `git2::Repository::revwalk`, set by `git2::Revwalk::set_sorting`
/// to the topological and the reverse order, over the range that
/// `git2::Revwalk::push_range` takes from `base` to `tip`: the commits that
/// `tip` reaches and `base` does not, parents before children.
#[verifier::external_body]
pub(crate) fn walk_above(repo: &git2::Repository, tip: &Oid, base: &Oid) -> (r: Result<
    Vec<Oid>,
    git2::Error,
>) {
    let from = git2::Oid::from_bytes(&base.as_bytes())?;
    let to = git2::Oid::from_bytes(&tip.as_bytes())?;
    let mut walk = repo.revwalk()?;
    walk.set_sorting(git2::Sort::TOPOLOGICAL.union(git2::Sort::REVERSE))?;
    walk.push_range(&format!("{}..{}", from, to))?;
    walk.map(|id| id.map(|raw| Oid::from_bytes(raw.as_bytes().try_into().unwrap_or_default())))
        .collect()
}

/// `git2::Repository::find_note` in the default notes namespace, and
/// `git2::Note::message` on what it finds. A commit without a note gives
/// `None`, and so does a note that is not UTF-8.
#[verifier::external_body]
pub(crate) fn read_note(repo: &git2::Repository, id: &Oid) -> (r: Result<
    Option<String>,
    git2::Error,
>) {
    match repo.find_note(None, git2::Oid::from_bytes(&id.as_bytes())?) {
        Ok(note) => Ok(note.message().ok().map(String::from)),
        Err(error) if error.code() == git2::ErrorCode::NotFound => Ok(None),
        Err(error) => Err(error),
    }
}

/// `git2::Repository::note` in the default notes namespace, replacing the
/// note that the commit may have.
#[verifier::external_body]
pub(crate) fn write_note(
    repo: &git2::Repository,
    signature: &git2::Signature<'_>,
    id: &Oid,
    text: &str,
) -> (r: Result<(), git2::Error>) {
    let raw = git2::Oid::from_bytes(&id.as_bytes())?;
    repo.note(signature, signature, None, raw, text, true).map(|_| ())
}

/// `git2::Repository::note_delete` in the default notes namespace.
#[verifier::external_body]
pub(crate) fn remove_note(repo: &git2::Repository, signature: &git2::Signature<'_>, id: &Oid) -> (r:
    Result<(), git2::Error>) {
    repo.note_delete(git2::Oid::from_bytes(&id.as_bytes())?, None, signature, signature)
}

/// `git2::Repository::signature`: the signature that the configuration
/// gives, at the present time.
#[verifier::external_body]
pub(crate) fn default_signature(repo: &git2::Repository) -> (r: Result<
    git2::Signature<'static>,
    git2::Error,
>) {
    repo.signature()
}

/// `git2::Signature::now` with the name and the e-mail address of `like`.
#[verifier::external_body]
pub(crate) fn signature_now(like: &git2::Signature<'_>) -> (r: Result<
    git2::Signature<'static>,
    git2::Error,
>) {
    git2::Signature::now(
        String::from_utf8_lossy(like.name_bytes()).as_ref(),
        String::from_utf8_lossy(like.email_bytes()).as_ref(),
    )
}

/// `git2::Commit::id`.
#[verifier::external_body]
pub(crate) fn commit_id(commit: &git2::Commit<'_>) -> (r: Oid) {
    Oid::from_bytes(commit.id().as_bytes().try_into().unwrap_or_default())
}

/// `git2::Commit::tree`.
#[verifier::external_body]
pub(crate) fn commit_tree<'repo>(commit: &git2::Commit<'repo>) -> (r: Result<
    git2::Tree<'repo>,
    git2::Error,
>) {
    commit.tree()
}

/// `git2::Commit::parent` for the first parent.
#[verifier::external_body]
pub(crate) fn commit_parent<'repo>(commit: &git2::Commit<'repo>) -> (r: Result<
    git2::Commit<'repo>,
    git2::Error,
>) {
    commit.parent(0)
}

/// `git2::Commit::message`; an error where the message is not UTF-8.
#[verifier::external_body]
pub(crate) fn commit_message(commit: &git2::Commit<'_>) -> (r: Result<String, git2::Error>) {
    commit.message().map(String::from)
}

/// `git2::Commit::author`, as a signature of its own.
#[verifier::external_body]
pub(crate) fn commit_author(commit: &git2::Commit<'_>) -> (r: git2::Signature<'static>) {
    commit.author().to_owned()
}

/// `git2::Commit::committer`, as a signature of its own.
#[verifier::external_body]
pub(crate) fn commit_committer(commit: &git2::Commit<'_>) -> (r: git2::Signature<'static>) {
    commit.committer().to_owned()
}

/// `git2::Tree::id`.
#[verifier::external_body]
pub(crate) fn tree_id(tree: &git2::Tree<'_>) -> (r: Oid) {
    Oid::from_bytes(tree.id().as_bytes().try_into().unwrap_or_default())
}

/// `git2::Repository::cherrypick_commit` against the first parent: the
/// index that applying `commit` to `onto` gives. With `favor_theirs`, a
/// region that both sides changed takes the side of `commit` and is no
/// conflict.
#[verifier::external_body]
pub(crate) fn cherrypick_commit(
    repo: &git2::Repository,
    commit: &git2::Commit<'_>,
    onto: &git2::Commit<'_>,
    favor_theirs: bool,
) -> (r: Result<git2::Index, git2::Error>) {
    let favor = if favor_theirs {
        git2::FileFavor::Theirs
    } else {
        git2::FileFavor::Normal
    };
    repo.cherrypick_commit(commit, onto, 0, Some(git2::MergeOptions::new().file_favor(favor)))
}

/// `git2::Repository::merge_commits` with the default options.
#[verifier::external_body]
pub(crate) fn merge_commits(
    repo: &git2::Repository,
    ours: &git2::Commit<'_>,
    theirs: &git2::Commit<'_>,
) -> (r: Result<git2::Index, git2::Error>) {
    repo.merge_commits(ours, theirs, None)
}

/// `git2::Index::has_conflicts`.
#[verifier::external_body]
pub(crate) fn index_has_conflicts(index: &git2::Index) -> (r: bool) {
    index.has_conflicts()
}

/// `git2::Index::is_empty`.
#[verifier::external_body]
pub(crate) fn index_is_empty(index: &git2::Index) -> (r: bool) {
    index.is_empty()
}

/// `git2::Index::write_tree_to`: writes the index as a tree and gives the
/// tree's id. It fails on an index with conflicts.
#[verifier::external_body]
pub(crate) fn index_write_tree_to(index: &mut git2::Index, repo: &git2::Repository) -> (r: Result<
    Oid,
    git2::Error,
>) {
    let raw = index.write_tree_to(repo)?;
    Ok(Oid::from_bytes(raw.as_bytes().try_into().unwrap_or_default()))
}

/// `git2::Repository::index`: the index of the working tree.
#[verifier::external_body]
pub(crate) fn working_index(repo: &git2::Repository) -> (r: Result<git2::Index, git2::Error>) {
    repo.index()
}

/// `git2::Repository::diff_tree_to_index` with the default options.
#[verifier::external_body]
pub(crate) fn diff_tree_to_index<'repo>(
    repo: &'repo git2::Repository,
    tree: &git2::Tree<'_>,
    index: &git2::Index,
) -> (r: Result<git2::Diff<'repo>, git2::Error>) {
    repo.diff_tree_to_index(Some(tree), Some(index), None)
}

/// `git2::Repository::diff_tree_to_tree` with the default options.
#[verifier::external_body]
pub(crate) fn diff_tree_to_tree<'repo>(
    repo: &'repo git2::Repository,
    old_tree: &git2::Tree<'_>,
    new_tree: &git2::Tree<'_>,
) -> (r: Result<git2::Diff<'repo>, git2::Error>) {
    repo.diff_tree_to_tree(Some(old_tree), Some(new_tree), None)
}

/// `git2::Diff::deltas`: for each file that the diff changes, the ids of its
/// old and of its new content, in the order of the diff.
#[verifier::external_body]
pub(crate) fn diff_blob_pairs(diff: &git2::Diff<'_>) -> (r: Vec<(Oid, Oid)>) {
    diff.deltas().map(
        |delta|
            (
                Oid::from_bytes(delta.old_file().id().as_bytes().try_into().unwrap_or_default()),
                Oid::from_bytes(delta.new_file().id().as_bytes().try_into().unwrap_or_default()),
            ),
    ).collect()
}

/// `git2::Repository::apply_to_tree` with a delta callback: applies to
/// `tree` the file changes of `diff` that `filter` admits, and gives the
/// index that results. The callback asks `DeltaFilter::admits_delta` for
/// each file.
#[verifier::external_body]
pub(crate) fn apply_to_tree(
    repo: &git2::Repository,
    tree: &git2::Tree<'_>,
    diff: &git2::Diff<'_>,
    filter: &DeltaFilter,
) -> (r: Result<git2::Index, git2::Error>) {
    let mut options = git2::ApplyOptions::new();
    options.delta_callback(
        |delta|
            filter.admits_delta(
                delta.map(
                    |d|
                        (
                            Oid::from_bytes(d.old_file().id().as_bytes().try_into().unwrap_or_default()),
                            Oid::from_bytes(d.new_file().id().as_bytes().try_into().unwrap_or_default()),
                        ),
                ),
            ),
    );
    repo.apply_to_tree(tree, diff, Some(&mut options))
}

/// `git2::Repository::commit` without a reference to update: writes a
/// commit with one or two parents and gives its id.
#[verifier::external_body]
pub(crate) fn write_commit(
    repo: &git2::Repository,
    author: &git2::Signature<'_>,
    committer: &git2::Signature<'_>,
    message: &str,
    tree: &git2::Tree<'_>,
    first_parent: &git2::Commit<'_>,
    second_parent: Option<&git2::Commit<'_>>,
) -> (r: Result<Oid, git2::Error>) {
    let raw = match second_parent {
        Some(second) => repo.commit(None, author, committer, message, tree, &[first_parent, second]),
        None => repo.commit(None, author, committer, message, tree, &[first_parent]),
    }?;
    Ok(Oid::from_bytes(raw.as_bytes().try_into().unwrap_or_default()))
}

/// `git2::Repository::set_head_detached`.
#[verifier::external_body]
pub(crate) fn set_head_detached(repo: &git2::Repository, id: &Oid) -> (r: Result<(), git2::Error>) {
    repo.set_head_detached(git2::Oid::from_bytes(&id.as_bytes())?)
}

/// `git2::Repository::branch` with force: points the branch `name` at
/// `target`, whether or not it exists.
#[verifier::external_body]
pub(crate) fn set_branch(repo: &git2::Repository, name: &str, target: &git2::Commit<'_>) -> (r:
    Result<(), git2::Error>) {
    repo.branch(name, target, true).map(|_| ())
}

/// `git2::Repository::set_head`.
#[verifier::external_body]
pub(crate) fn set_head(repo: &git2::Repository, refname: &str) -> (r: Result<(), git2::Error>) {
    repo.set_head(refname)
}

/// `git2::Repository::checkout_tree` with the default options.
#[verifier::external_body]
pub(crate) fn checkout_tree(repo: &git2::Repository, tree: &git2::Tree<'_>) -> (r: Result<
    (),
    git2::Error,
>) {
    repo.checkout_tree(tree.as_object(), None)
}

/// `git2::Repository::find_annotated_commit`.
#[verifier::external_body]
pub(crate) fn find_annotated_commit<'repo>(repo: &'repo git2::Repository, id: &Oid) -> (r: Result<
    git2::AnnotatedCommit<'repo>,
    git2::Error,
>) {
    repo.find_annotated_commit(git2::Oid::from_bytes(&id.as_bytes())?)
}

/// `git2::Repository::merge` with the default options: merges `theirs` into
/// the working tree and the index, and leaves the repository in the state
/// of a merge.
#[verifier::external_body]
pub(crate) fn start_merge(repo: &git2::Repository, theirs: &git2::AnnotatedCommit<'_>) -> (r:
    Result<(), git2::Error>) {
    repo.merge(&[theirs], None, None)
}

/// `git2::Repository::cleanup_state`: forgets a merge in progress.
#[verifier::external_body]
pub(crate) fn cleanup_state(repo: &git2::Repository) -> (r: Result<(), git2::Error>) {
    repo.cleanup_state()
}

} // verus!
