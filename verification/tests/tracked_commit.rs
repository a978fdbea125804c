#![allow(dead_code)]
#![allow(unused_imports)]

use ubr::commands::{create, sync};
use ubr::error::EngineError;
use ubr::git::local_commit::{CommitMetadata, MainCommit, TrackedCommit};
use ubr::git::oid::Oid;
use ubr::git::remote_command::CommandOption;
use ubr::git::{GitRepo, SyncState};

struct Sandbox {
    dir: tempfile::TempDir,
    repo: git2::Repository,
}

fn signature() -> git2::Signature<'static> {
    git2::Signature::new("Tester", "tester@example.com", &git2::Time::new(1_700_000_000, 0)).unwrap()
}

fn sandbox() -> Sandbox {
    let dir = tempfile::tempdir().unwrap();
    let mut options = git2::RepositoryInitOptions::new();
    options.initial_head("master");
    let repo = git2::Repository::init_opts(dir.path(), &options).unwrap();
    {
        let mut config = repo.config().unwrap();
        config.set_str("user.name", "Tester").unwrap();
        config.set_str("user.email", "tester@example.com").unwrap();
    }
    Sandbox { dir, repo }
}

fn raw(id: &Oid) -> git2::Oid {
    git2::Oid::from_bytes(&id.as_bytes()).unwrap()
}

fn oid(id: git2::Oid) -> Oid {
    Oid::parse(&id.to_string()).unwrap()
}

fn content_at(repo: &git2::Repository, tree: &git2::Tree<'_>, path: &str) -> String {
    match tree.get_name(path) {
        Some(entry) => {
            let blob = repo.find_blob(entry.id()).unwrap();
            String::from_utf8(blob.content().to_vec()).unwrap()
        }
        None => String::new(),
    }
}

fn tree_with<'a>(
    repo: &'a git2::Repository,
    base: Option<&git2::Tree<'_>>,
    path: &str,
    content: &str,
    append: bool,
) -> git2::Tree<'a> {
    let mut text = String::new();
    if append {
        text.push_str(&content_at(repo, base.unwrap(), path));
    }
    text.push_str(content);
    text.push('\n');
    let blob = repo.blob(text.as_bytes()).unwrap();
    let mut builder = repo.treebuilder(base).unwrap();
    builder.insert(path, blob, 0o100644).unwrap();
    repo.find_tree(builder.write().unwrap()).unwrap()
}

fn head_commit(repo: &git2::Repository) -> Option<git2::Commit<'_>> {
    repo.head().ok().map(|head| head.peel_to_commit().unwrap())
}

fn ancestor(sandbox: &Sandbox, ancestors: u32) -> git2::Oid {
    let mut commit = head_commit(&sandbox.repo).unwrap();
    for _ in 0..ancestors {
        commit = commit.parent(0).unwrap();
    }
    commit.id()
}

fn sync_workdir(sandbox: &Sandbox) {
    sandbox.repo.checkout_head(Some(git2::build::CheckoutBuilder::new().force())).unwrap();
}

fn commit_file(sandbox: &Sandbox, path: &str, content: &str, append: bool, message: &str) -> git2::Oid {
    let repo = &sandbox.repo;
    let parent = head_commit(repo);
    let base = parent.as_ref().map(|commit| commit.tree().unwrap());
    let tree = tree_with(repo, base.as_ref(), path, content, append);
    let parents: Vec<&git2::Commit<'_>> = parent.iter().collect();
    let id = repo.commit(Some("HEAD"), &signature(), &signature(), message, &tree, &parents).unwrap();
    sync_workdir(sandbox);
    id
}

fn copy_note(repo: &git2::Repository, from: git2::Oid, to: git2::Oid) {
    if let Ok(note) = repo.find_note(None, from) {
        repo.note(&signature(), &signature(), None, to, note.message().unwrap(), true).unwrap();
    }
}

fn amend_file(sandbox: &Sandbox, path: &str, content: &str, append: bool, message: Option<&str>) -> git2::Oid {
    let repo = &sandbox.repo;
    let head = head_commit(repo).unwrap();
    let tree = tree_with(repo, Some(&head.tree().unwrap()), path, content, append);
    let parent = head.parent(0).unwrap();
    let text = message.unwrap_or(head.message().unwrap());
    let id = repo.commit(None, &head.author(), &signature(), text, &tree, &[&parent]).unwrap();
    copy_note(repo, head.id(), id);
    repo.reference("refs/heads/master", id, true, "amend").unwrap();
    sync_workdir(sandbox);
    id
}

fn replay(sandbox: &Sandbox, commits: &[git2::Oid], onto: git2::Oid) -> git2::Oid {
    let repo = &sandbox.repo;
    let mut tip = onto;
    for id in commits {
        let commit = repo.find_commit(*id).unwrap();
        let base = repo.find_commit(tip).unwrap();
        let mut index = repo.cherrypick_commit(&commit, &base, 0, None).unwrap();
        assert!(!index.has_conflicts());
        let tree = repo.find_tree(index.write_tree_to(repo).unwrap()).unwrap();
        let message = commit.message().unwrap();
        tip = repo.commit(None, &commit.author(), &signature(), message, &tree, &[&base]).unwrap();
        copy_note(repo, *id, tip);
    }
    repo.reference("refs/heads/master", tip, true, "rebase").unwrap();
    sync_workdir(sandbox);
    tip
}

fn unpushed(sandbox: &Sandbox) -> Vec<git2::Oid> {
    let repo = &sandbox.repo;
    let head = head_commit(repo).unwrap().id();
    let upstream = repo.refname_to_id("refs/remotes/origin/master").unwrap();
    let base = repo.merge_base(head, upstream).unwrap();
    let mut walk = repo.revwalk().unwrap();
    walk.set_sorting(git2::Sort::TOPOLOGICAL.union(git2::Sort::REVERSE)).unwrap();
    walk.push_range(&format!("{}..{}", base, head)).unwrap();
    walk.map(|id| id.unwrap()).collect()
}

fn pull_rebase(sandbox: &Sandbox) -> git2::Oid {
    let upstream = sandbox.repo.refname_to_id("refs/remotes/origin/master").unwrap();
    replay(sandbox, &unpushed(sandbox), upstream)
}

fn push_master(sandbox: &Sandbox) {
    let head = head_commit(&sandbox.repo).unwrap();
    sandbox.repo.reference("refs/remotes/origin/master", head.id(), true, "push").unwrap();
}

fn publish(sandbox: &Sandbox, meta: &CommitMetadata) {
    let name = format!("refs/remotes/origin/{}", meta.remote_branch_name);
    sandbox.repo.reference(&name, raw(&meta.remote_commit), true, "push").unwrap();
}

fn remote_commit(sandbox: &Sandbox, branch: &str, path: &str, content: &str, append: bool, message: &str) -> git2::Oid {
    let repo = &sandbox.repo;
    let name = format!("refs/remotes/origin/{}", branch);
    let tip = repo.find_commit(repo.refname_to_id(&name).unwrap()).unwrap();
    let tree = tree_with(repo, Some(&tip.tree().unwrap()), path, content, append);
    let other = git2::Signature::new("Other", "other@example.com", &git2::Time::new(1_700_000_100, 0)).unwrap();
    let id = repo.commit(None, &other, &other, message, &tree, &[&tip]).unwrap();
    repo.reference(&name, id, true, "fetch").unwrap();
    id
}

fn diff_text(repo: &git2::Repository, from: &str, to: &str) -> String {
    let old = repo.revparse_single(from).unwrap().peel_to_tree().unwrap();
    let new = repo.revparse_single(to).unwrap().peel_to_tree().unwrap();
    let diff = repo.diff_tree_to_tree(Some(&old), Some(&new), None).unwrap();
    let mut out = String::new();
    diff.print(git2::DiffFormat::Patch, |_delta, _hunk, line| {
        match line.origin() {
            '+' | '-' | ' ' => out.push(line.origin()),
            _ => {}
        }
        out.push_str(std::str::from_utf8(line.content()).unwrap());
        true
    })
    .unwrap();
    out
}

fn assert_diff(sandbox: &Sandbox, from: &str, to: &str, expected: &str) {
    assert_eq!(diff_text(&sandbox.repo, from, to), expected, "comparing diff {} -> {}", from, to);
}

fn assert_in_sync(sandbox: &Sandbox, commit: &Oid, remote_head: &Oid) {
    let local = diff_text(&sandbox.repo, &format!("{}^", commit.to_hex()), &commit.to_hex());
    assert_diff(sandbox, "origin/master", &remote_head.to_hex(), &local);
}

fn note_of(repo: &git2::Repository, rev: &str) -> String {
    let id = repo.revparse_single(rev).unwrap().peel_to_commit().unwrap().id();
    repo.find_note(None, id).unwrap().message().unwrap().to_string()
}

fn messages(repo: &git2::Repository, rev: &str, count: usize) -> Vec<String> {
    let mut commit = repo.revparse_single(rev).unwrap().peel_to_commit().unwrap();
    let mut out = Vec::new();
    for _ in 0..count {
        out.push(commit.message().unwrap().to_string());
        match commit.parent(0) {
            Ok(parent) => commit = parent,
            Err(_) => break,
        }
    }
    out
}

fn git_repo(sandbox: &Sandbox) -> GitRepo {
    GitRepo::open(sandbox.dir.path().to_str().unwrap()).unwrap()
}

fn create(sandbox: &Sandbox, options: create::Options) -> CommitMetadata {
    let meta = create::execute(options, &git_repo(sandbox)).unwrap();
    publish(sandbox, &meta);
    meta
}

fn expect_tracked(commit: MainCommit) -> TrackedCommit {
    match commit {
        MainCommit::UnTracked(_) => panic!("not a TrackedCommit"),
        MainCommit::Published(commit) => commit,
    }
}

fn run_sync(sandbox: &Sandbox, repo: &GitRepo, options: sync::Options, journal: Option<SyncState>) -> Result<Vec<String>, EngineError> {
    let mut steps = Vec::new();
    let mut run = sync::execute(options, repo, journal)?;
    loop {
        match run.advance(repo)? {
            sync::SyncStep::ForgetJournal => steps.push("forget".to_string()),
            sync::SyncStep::Push(meta) => {
                publish(sandbox, &meta);
                steps.push(format!("push {}", meta.remote_branch_name));
            }
            sync::SyncStep::Done => break,
        }
    }
    assert!(run.is_finished());
    Ok(steps)
}

fn setup_repo() -> Sandbox {
    let local = sandbox();
    commit_file(&local, "file1", "Hello, World!", false, "Initial");
    push_master(&local);
    commit_file(&local, "file2", "another file", false, "Commit 1");
    create(&local, create::Options::default());
    local
}

fn simple_update() {
    let local = sandbox();
    commit_file(&local, "file1", "Hello, World!", false, "Initial");
    push_master(&local);
    commit_file(&local, "file2", "Hello, World!", false, "Commit 1");
    create(&local, create::Options::default());

    amend_file(&local, "file3", "Yaay, no conflicts", false, None);

    let git_repo = git_repo(&local);
    let commit = git_repo.find_unpushed_commit("HEAD").unwrap();
    let tracked_commit = match commit {
        MainCommit::UnTracked(_) => panic!("Not a main commit"),
        MainCommit::Published(c) => c,
    };
    let tracked_commit = tracked_commit.update_local_branch_head(&git_repo).unwrap();

    let new_commit = tracked_commit.meta_data().remote_commit.to_hex();

    let actual_diff = diff_text(&local.repo, "origin/master", &new_commit);
    let expected_diff = "diff --git a/file2 b/file2\n\
        new file mode 100644\n\
        index 0000000..8ab686e\n\
        --- /dev/null\n\
        +++ b/file2\n\
        @@ -0,0 +1 @@\n\
        +Hello, World!\n\
        diff --git a/file3 b/file3\n\
        new file mode 100644\n\
        index 0000000..c76ab66\n\
        --- /dev/null\n\
        +++ b/file3\n\
        @@ -0,0 +1 @@\n\
        +Yaay, no conflicts\n";
    assert_eq!(actual_diff, expected_diff);

    let new_tracked_commit = expect_tracked(git_repo.find_unpushed_commit("HEAD").unwrap());
    assert_eq!(
        new_tracked_commit.meta_data().remote_commit,
        tracked_commit.meta_data().remote_commit
    );
}

#[test]
fn tracked_commit_update_local_branch_head_test_simple_update() {
    simple_update();
}

#[test]
fn tracked_commit_test_simple_update() {
    simple_update();
}

fn update_local() {
    let local = sandbox();
    commit_file(&local, "file1", "Hello, World!", false, "Initial");
    push_master(&local);
    commit_file(&local, "file2", "Hello, World!", false, "Commit 1");
    create(&local, create::Options::default());

    amend_file(&local, "file2", "Hello, Conflicting World!", false, None);

    let git_repo = git_repo(&local);
    let commit = git_repo.find_unpushed_commit("HEAD").unwrap();
    let tracked_commit = match commit {
        MainCommit::UnTracked(_) => panic!("Not a main commit"),
        MainCommit::Published(c) => c,
    };
    let tracked_commit = tracked_commit.update_local_branch_head(&git_repo).unwrap();

    let new_commit = tracked_commit.meta_data().remote_commit.to_hex();

    let actual_diff = diff_text(&local.repo, "origin/master", &new_commit);
    let expected_diff = "diff --git a/file2 b/file2\n\
        new file mode 100644\n\
        index 0000000..11032e3\n\
        --- /dev/null\n\
        +++ b/file2\n\
        @@ -0,0 +1 @@\n\
        +Hello, Conflicting World!\n";
    assert_eq!(actual_diff, expected_diff);

    let new_tracked_commit = expect_tracked(git_repo.find_unpushed_commit("HEAD").unwrap());
    assert_eq!(
        new_tracked_commit.meta_data().remote_commit,
        tracked_commit.meta_data().remote_commit
    );
}

#[test]
fn tracked_commit_update_local_branch_head_test_update_local() {
    update_local();
}

#[test]
fn tracked_commit_test_update_local() {
    update_local();
}

fn update_with_a_rebase_first(from_fork: bool) {
    let local = sandbox();
    commit_file(&local, "file1", "Hello, World!", false, "Initial");
    push_master(&local);
    commit_file(&local, "file2", "Hello, World!", false, "Commit 1");
    create(&local, create::Options::default());

    remote_commit(&local, "master", "unrelated_file", "Unrelated", false, "Other commit");

    amend_file(&local, "file2", "Hello, Conflicting World!", false, None);

    pull_rebase(&local);

    //     Commit 1 *
    //              |
    //              |   * remote-commit
    // Other commit *<-/-----------------(origin/master)
    //              | /
    //      Initial *
    let git_repo = git_repo(&local);
    let commit = git_repo.find_unpushed_commit("HEAD").unwrap();
    let tracked_commit = match commit {
        MainCommit::UnTracked(_) => panic!("Not a main commit"),
        MainCommit::Published(c) => c,
    };
    let tracked_commit = tracked_commit.update_local_branch_head(&git_repo).unwrap();

    let new_commit = tracked_commit.meta_data().remote_commit.to_hex();

    let from = if from_fork {
        format!("{}^^", new_commit)
    } else {
        "origin/master".to_string()
    };
    let actual_diff = diff_text(&local.repo, &from, &new_commit);
    let expected_diff = if from_fork {
        "diff --git a/file2 b/file2\n\
        index 8ab686e..11032e3 100644\n\
        --- a/file2\n\
        +++ b/file2\n\
        @@ -1 +1 @@\n\
        -Hello, World!\n\
        +Hello, Conflicting World!\n\
        diff --git a/unrelated_file b/unrelated_file\n\
        new file mode 100644\n\
        index 0000000..ad2bf15\n\
        --- /dev/null\n\
        +++ b/unrelated_file\n\
        @@ -0,0 +1 @@\n\
        +Unrelated\n"
    } else {
        "diff --git a/file2 b/file2\n\
        new file mode 100644\n\
        index 0000000..11032e3\n\
        --- /dev/null\n\
        +++ b/file2\n\
        @@ -0,0 +1 @@\n\
        +Hello, Conflicting World!\n"
    };
    assert_eq!(actual_diff, expected_diff);

    let new_tracked_commit = expect_tracked(git_repo.find_unpushed_commit("HEAD").unwrap());
    assert_eq!(
        new_tracked_commit.meta_data().remote_commit,
        tracked_commit.meta_data().remote_commit
    );
}

#[test]
fn tracked_commit_update_local_branch_head_test_update_with_a_rebase_first() {
    update_with_a_rebase_first(false);
}

#[test]
fn tracked_commit_test_update_with_a_rebase_first() {
    update_with_a_rebase_first(true);
}

fn no_changes() {
    let local = sandbox();
    commit_file(&local, "file1", "Hello, World!", false, "Initial");
    push_master(&local);
    commit_file(&local, "file2", "Hello, World!", false, "Commit 1");
    create(&local, create::Options::default());

    let git_repo = git_repo(&local);

    let tracked_commit = expect_tracked(git_repo.find_unpushed_commit("HEAD").unwrap());
    let original_branch_head = tracked_commit.meta_data().remote_commit;
    let new_tracked_commit = tracked_commit.update_local_branch_head(&git_repo).unwrap();

    assert_eq!(new_tracked_commit.meta_data().remote_commit, original_branch_head);
}

#[test]
fn tracked_commit_update_local_branch_head_nothing_should_happen_if_no_changes() {
    no_changes();
}

#[test]
fn tracked_commit_nothing_should_happen_if_no_changes() {
    no_changes();
}

fn rebased_local_commit_changed() -> Sandbox {
    let local = sandbox();
    commit_file(&local, "File1", "Hello World!\n\nThis is my very first file\n", false, "First commit");
    push_master(&local);
    commit_file(
        &local,
        "File1",
        "Hello World!\n\nMore lines..\n\nThis is my very first file\n",
        false,
        "add more lines",
    );
    create(&local, create::Options::default());
    amend_file(
        &local,
        "File1",
        "Hello World!\n\nMore lines.. + fixup\n\nThis is my very first file\n",
        false,
        None,
    );
    remote_commit(&local, "master", "File2", "Unrelated file from other commit", false, "Unrelated commit");
    pull_rebase(&local);
    local
}

#[test]
fn should_separate_fixup_and_merge_with_main() {
    let local = rebased_local_commit_changed();

    let git_repo = git_repo(&local);

    let tracked_commit = expect_tracked(git_repo.find_unpushed_commit("HEAD").unwrap());
    let new_tracked_commit = tracked_commit.update_local_branch_head(&git_repo).unwrap();
    let tip = new_tracked_commit.meta_data().remote_commit.to_hex();

    let expected_diff = "diff --git a/File1 b/File1\n\
        index 7da932b..78b5315 100644\n\
        --- a/File1\n\
        +++ b/File1\n\
        @@ -1,6 +1,6 @@\n \
        Hello World!\n \n\
        -More lines..\n\
        +More lines.. + fixup\n \n \
        This is my very first file\n \n";
    assert_diff(&local, &format!("{}^", tip), &tip, expected_diff);

    assert_diff(
        &local,
        &format!("{}^^", tip),
        &format!("{}^", tip),
        "diff --git a/File2 b/File2\n\
        new file mode 100644\n\
        index 0000000..1b59044\n\
        --- /dev/null\n\
        +++ b/File2\n\
        @@ -0,0 +1 @@\n\
        +Unrelated file from other commit\n",
    );

    assert_eq!(messages(&local.repo, &tip, 2), vec!["Fixup!", "Sync with main!"]);
}

//          *                                        *
//          |                                        |
//          *      * (remote_branch_head)   ===>     *      * (remote_branch_head, local_branch_head)
//          |     /                                  |     /
//       c1 *   * (local_branch_head)                *   *
//          |  /                                     |  /
// (origin) *                                        *
#[test]
fn should_not_merge_if_remote_commit_is_descendant_of_local() {
    let local = setup_repo();

    let remote_branch_head = remote_commit(&local, "commit-1", "file2", "Some fixes", true, "Fixes");

    let git_repo = git_repo(&local);

    let tracked_commit = expect_tracked(git_repo.find_unpushed_commit("HEAD").unwrap());

    //When
    let tracked_commit = tracked_commit.merge_remote_head(&git_repo, None).unwrap();
    let rev_str = tracked_commit.as_commit().to_hex();
    assert_eq!(tracked_commit.meta_data().remote_commit, oid(remote_branch_head));

    assert_eq!(note_of(&local.repo, &rev_str), tracked_commit.meta_data().to_note());

    let expected_diff = "diff --git a/file2 b/file2\n\
        new file mode 100644\n\
        index 0000000..684bd12\n\
        --- /dev/null\n\
        +++ b/file2\n\
        @@ -0,0 +1,2 @@\n\
        +another file\n\
        +Some fixes\n";
    assert_diff(&local, &format!("{}^", rev_str), &rev_str, expected_diff);

    assert_in_sync(&local, tracked_commit.as_commit(), &tracked_commit.meta_data().remote_commit);
}

#[test]
fn should_not_merge_if_local_commit_is_descendant_of_remote() {
    let local = setup_repo();

    let git_repo = git_repo(&local);
    {
        // Make a new local commit
        amend_file(&local, "file2", "some fixes", true, None);

        let tracked_commit = expect_tracked(git_repo.find_unpushed_commit("HEAD").unwrap());
        tracked_commit.update_local_branch_head(&git_repo).unwrap();
    }

    let tracked_commit = expect_tracked(git_repo.find_unpushed_commit("HEAD").unwrap());
    let local_branch_head = tracked_commit.meta_data().remote_commit;
    let tracked_commit = tracked_commit.merge_remote_head(&git_repo, None).unwrap();

    assert_eq!(tracked_commit.meta_data().remote_commit, local_branch_head);

    assert_in_sync(&local, tracked_commit.as_commit(), &tracked_commit.meta_data().remote_commit);
}

#[test]
fn test_merge() {
    let local = setup_repo();

    let git_repo = git_repo(&local);
    let tracked_commit = {
        // Make a new local commit
        amend_file(&local, "file2", "some fixes", true, None);

        let tracked_commit = expect_tracked(git_repo.find_unpushed_commit("HEAD").unwrap());
        tracked_commit.update_local_branch_head(&git_repo).unwrap()
    };

    remote_commit(&local, "commit-1", "file3", "Some fixes in file3", false, "Fixes");

    let tracked_commit = tracked_commit.merge_remote_head(&git_repo, None).unwrap();
    let rev_str = tracked_commit.as_commit().to_hex();

    assert_diff(
        &local,
        &format!("{}^", rev_str),
        &rev_str,
        "diff --git a/file2 b/file2\n\
        new file mode 100644\n\
        index 0000000..f57a277\n\
        --- /dev/null\n\
        +++ b/file2\n\
        @@ -0,0 +1,2 @@\n\
        +another file\n\
        +some fixes\n\
        diff --git a/file3 b/file3\n\
        new file mode 100644\n\
        index 0000000..fa50e2f\n\
        --- /dev/null\n\
        +++ b/file3\n\
        @@ -0,0 +1 @@\n\
        +Some fixes in file3\n",
    );

    assert_in_sync(&local, tracked_commit.as_commit(), &tracked_commit.meta_data().remote_commit);
    assert_eq!(messages(&local.repo, &tracked_commit.meta_data().remote_commit.to_hex(), 1), vec!["Merge"]);
}

#[test]
fn nothing_should_happen_if_origin_has_not_changed() {
    let local = setup_repo();

    let git_repo = git_repo(&local);
    let tracked_commit = expect_tracked(git_repo.find_unpushed_commit("HEAD").unwrap());
    let original = tracked_commit.commit();

    let new_tracked_commit = tracked_commit.sync_with_main(&git_repo).unwrap();

    assert_eq!(new_tracked_commit.commit(), original);
}

#[test]
fn new_changes_main_should_be_merged_in() {
    let local = setup_repo();

    remote_commit(&local, "master", "file3", "Some other feature", false, "other feature");

    pull_rebase(&local);

    let git_repo = git_repo(&local);

    let tracked_commit = expect_tracked(git_repo.find_unpushed_commit("HEAD").unwrap());

    let new_tracked_commit = tracked_commit.sync_with_main(&git_repo).unwrap();

    assert_in_sync(
        &local,
        new_tracked_commit.as_commit(),
        &new_tracked_commit.meta_data().remote_commit,
    );
}

#[test]
fn test_rebase() {
    let local_repo = sandbox();
    commit_file(&local_repo, "File1", "Hello, World!", false, "commit1");
    push_master(&local_repo);
    commit_file(&local_repo, "File2", "Unrelated feature", false, "unrelated commit");
    commit_file(&local_repo, "File1", "Starting on a new feature", true, "feature 1");

    let git_repo = git_repo(&local_repo);
    let untracked_commit = match git_repo.find_unpushed_commit("HEAD^").unwrap() {
        MainCommit::UnTracked(c) => c,
        MainCommit::Published(_) => panic!("Expected an untracked commit"),
    };

    let original_id = untracked_commit.commit();
    let base = git_repo.base_commit_id().unwrap();

    let rebased = untracked_commit.rebase(&git_repo, &base).unwrap();

    // The commit is written anew by the present user: the same change on
    // the same parent, under a new id.
    let old = local_repo.repo.find_commit(raw(&original_id)).unwrap();
    let new = local_repo.repo.find_commit(raw(&rebased.commit())).unwrap();
    assert_ne!(rebased.commit(), original_id);
    assert_eq!(new.parent_count(), 1);
    assert_eq!(new.parent_id(0).unwrap(), raw(&base));
    assert_eq!(new.tree_id(), old.tree_id());
    assert_eq!(new.message().unwrap(), old.message().unwrap());
    assert_eq!(new.author().name(), old.author().name());
    assert_eq!(new.author().email(), old.author().email());
    assert_eq!(new.author().when(), old.author().when());
    assert_eq!(new.committer().name().unwrap(), "Tester");
    assert_eq!(new.committer().email().unwrap(), "tester@example.com");
    assert!(new.committer().when().seconds() > old.committer().when().seconds());
    assert!(local_repo.repo.find_note(None, new.id()).is_err());
    assert_eq!(ancestor(&local_repo, 1), raw(&original_id));
}

#[test]
fn rebase_moves_a_commit_onto_a_new_parent() {
    let local_repo = sandbox();
    commit_file(&local_repo, "File1", "Hello, World!", false, "commit1");
    push_master(&local_repo);
    commit_file(&local_repo, "File2", "Unrelated feature", false, "unrelated commit");
    commit_file(&local_repo, "File3", "A new feature", false, "feature 1");

    let git_repo = git_repo(&local_repo);
    let untracked_commit = match git_repo.find_unpushed_commit("HEAD").unwrap() {
        MainCommit::UnTracked(c) => c,
        MainCommit::Published(_) => panic!("Expected an untracked commit"),
    };
    let base = git_repo.base_commit_id().unwrap();
    let rebased = untracked_commit.rebase(&git_repo, &base).unwrap();
    let rev = rebased.commit().to_hex();
    assert_eq!(local_repo.repo.find_commit(raw(&rebased.commit())).unwrap().parent_id(0).unwrap(), raw(&base));
    assert_eq!(messages(&local_repo.repo, &rev, 1), vec!["feature 1"]);
    assert_diff(
        &local_repo,
        "origin/master",
        &rev,
        "diff --git a/File3 b/File3\n\
        new file mode 100644\n\
        index 0000000..7f78ff9\n\
        --- /dev/null\n\
        +++ b/File3\n\
        @@ -0,0 +1 @@\n\
        +A new feature\n",
    );
}

#[test]
fn untrack_removes_the_note_and_keeps_the_branch() {
    let local = setup_repo();
    let git_repo = git_repo(&local);
    let tracked_commit = expect_tracked(git_repo.find_unpushed_commit("HEAD").unwrap());
    let id = tracked_commit.commit();
    let untracked = tracked_commit.untrack(&git_repo).unwrap();
    assert_eq!(untracked.commit(), id);
    assert!(local.repo.find_note(None, raw(&id)).is_err());
    assert!(local.repo.find_reference("refs/remotes/origin/commit-1").is_ok());
    assert!(matches!(git_repo.find_unpushed_commit("HEAD").unwrap(), MainCommit::UnTracked(_)));
}

#[test]
fn a_remote_that_is_behind_is_left_alone() {
    let local = setup_repo();
    let git_repo = git_repo(&local);
    let commit = expect_tracked(git_repo.find_unpushed_commit("HEAD").unwrap());
    let id = commit.commit();
    let known = commit.meta_data().remote_commit;
    let older = git_repo.base_commit_id().unwrap();

    let same = commit.take_remote(&git_repo, &older, &older, None).unwrap();
    assert_eq!(same.commit(), id);
    assert_eq!(same.meta_data().remote_commit, known);

    let same = same.take_main(&git_repo, &older, &older).unwrap();
    assert_eq!(same.commit(), id);
    assert_eq!(same.meta_data().remote_commit, known);
    let same = same.take_main(&git_repo, &older, &id).unwrap();
    assert_eq!(same.meta_data().remote_commit, known);
}

#[test]
fn a_remote_that_is_ahead_is_taken_as_it_is() {
    let local = setup_repo();
    let fix = remote_commit(&local, "commit-1", "file2", "Some fixes", true, "Fixes");
    let git_repo = git_repo(&local);
    let commit = expect_tracked(git_repo.find_unpushed_commit("HEAD").unwrap());
    let known = commit.meta_data().remote_commit;

    let taken = commit.take_remote(&git_repo, &oid(fix), &known, None).unwrap();
    assert_eq!(taken.meta_data().remote_commit, oid(fix));
    assert_eq!(taken.meta_data().remote_branch_name, "commit-1");
    assert_in_sync(&local, taken.as_commit(), &oid(fix));
}

#[test]
fn a_tracked_commit_knows_both_tips_of_its_branch() {
    let local = setup_repo();
    let fix = remote_commit(&local, "commit-1", "file2", "Some fixes", true, "Fixes");
    let git_repo = git_repo(&local);
    let commit = expect_tracked(git_repo.find_unpushed_commit("HEAD").unwrap());
    assert_eq!(commit.remote_branch(&git_repo).unwrap().id(), fix);
    assert_eq!(
        commit.local_branch_head(&git_repo).unwrap().id(),
        raw(&commit.meta_data().remote_commit)
    );
    let moved = commit.update_remote(oid(fix));
    assert_eq!(moved.meta_data().remote_commit, oid(fix));
    assert_eq!(moved.meta_data().remote_branch_name, "commit-1");
}

#[test]
fn the_note_follows_the_known_tip() {
    let local = setup_repo();
    let git_repo = git_repo(&local);
    let commit = expect_tracked(git_repo.find_unpushed_commit("HEAD").unwrap());
    let known = commit.meta_data().remote_commit;
    let before = note_of(&local.repo, "HEAD");

    let same = commit.with_remote_head(&git_repo, &known).unwrap();
    assert_eq!(same.meta_data().remote_commit, known);
    assert_eq!(note_of(&local.repo, "HEAD"), before);

    let other = git_repo.base_commit_id().unwrap();
    let moved = same.with_remote_head(&git_repo, &other).unwrap();
    assert_eq!(moved.meta_data().remote_commit, other);
    assert_eq!(
        note_of(&local.repo, "HEAD"),
        format!("remote-branch: commit-1\nremote-commit: {}\n", other.to_hex())
    );
}

#[test]
fn a_patch_without_changes_leaves_the_branch_alone() {
    let local = setup_repo();
    let git_repo = git_repo(&local);
    let commit = expect_tracked(git_repo.find_unpushed_commit("HEAD").unwrap());
    let id = commit.commit();
    let known = commit.meta_data().remote_commit;
    let before = note_of(&local.repo, "HEAD");

    let handle = local.repo.find_commit(raw(&id)).unwrap();
    let tree = handle.tree().unwrap();
    let patch = local.repo.diff_tree_to_tree(Some(&tree), Some(&tree), None).unwrap();
    let same = commit.commit_changes(&git_repo, &handle, &patch, &Vec::new()).unwrap();
    assert_eq!(same.commit(), id);
    assert_eq!(same.meta_data().remote_commit, known);
    assert_eq!(note_of(&local.repo, "HEAD"), before);
}

#[test]
fn changes_are_committed_on_top_of_the_known_tip() {
    let local = setup_repo();
    amend_file(&local, "file3", "More", false, None);
    let git_repo = git_repo(&local);
    let commit = expect_tracked(git_repo.find_unpushed_commit("HEAD").unwrap());
    let id = commit.commit();
    let known = commit.meta_data().remote_commit;

    let handle = local.repo.find_commit(raw(&id)).unwrap();
    let old = local.repo.find_commit(raw(&known)).unwrap().tree().unwrap();
    let patch = local.repo.diff_tree_to_tree(Some(&old), Some(&handle.tree().unwrap()), None).unwrap();
    let changes: Vec<(Oid, Oid)> = patch
        .deltas()
        .map(|delta| (oid(delta.old_file().id()), oid(delta.new_file().id())))
        .collect();
    assert_eq!(changes.len(), 1);
    let moved = commit.commit_changes(&git_repo, &handle, &patch, &changes).unwrap();
    assert_eq!(moved.commit(), id);
    let tip = moved.meta_data().remote_commit;
    assert_ne!(tip, known);
    assert_eq!(local.repo.find_commit(raw(&tip)).unwrap().parent_id(0).unwrap(), raw(&known));
    assert_eq!(messages(&local.repo, &tip.to_hex(), 1), vec!["Fixup!"]);
    assert_in_sync(&local, &id, &tip);
}

#[test]
fn a_merge_is_settled_by_what_its_index_holds() {
    let local = setup_repo();
    let git_repo = git_repo(&local);
    let commit = expect_tracked(git_repo.find_unpushed_commit("HEAD").unwrap());
    let known = commit.meta_data().remote_commit;
    let main = git_repo.base_commit_id().unwrap();

    // An empty merge is refused, and nothing is touched.
    let mut index = git2::Index::new().unwrap();
    let refused = commit.settle_merge(&git_repo, &main, &known, &mut index, false, true);
    assert_eq!(refused, Err(EngineError::EmptyIndex));
    assert!(!local.repo.head_detached().unwrap());

    // A merge without conflicts is committed on both sides.
    let ours = local.repo.find_commit(raw(&main)).unwrap();
    let theirs = local.repo.find_commit(raw(&known)).unwrap();
    let mut index = local.repo.merge_commits(&ours, &theirs, None).unwrap();
    let merged = commit.settle_merge(&git_repo, &main, &known, &mut index, false, false).unwrap();
    let written = local.repo.find_commit(raw(&merged)).unwrap();
    assert_eq!(written.message().unwrap(), "Merge");
    assert_eq!(written.parent_id(0).unwrap(), raw(&main));
    assert_eq!(written.parent_id(1).unwrap(), raw(&known));
    assert!(!local.repo.head_detached().unwrap());

    // A merge with conflicts is handed to the user.
    let mut index = git2::Index::new().unwrap();
    let failure = commit.settle_merge(&git_repo, &main, &known, &mut index, true, true).unwrap_err();
    let parent = oid(local.repo.find_commit(raw(&commit.commit())).unwrap().parent_id(0).unwrap());
    assert_eq!(failure, commit.conflict_of(&git_repo, &main, &known, &parent));
    assert!(local.repo.head_detached().unwrap());
    assert_eq!(local.repo.head().unwrap().target().unwrap(), raw(&main));
}

#[test]
fn the_failure_of_a_conflict_names_both_sides_and_holds_the_record() {
    let local = setup_repo();
    let git_repo = git_repo(&local);
    let commit = expect_tracked(git_repo.find_unpushed_commit("HEAD").unwrap());
    let ours = Oid::from_bytes([1; 20]);
    let theirs = Oid::from_bytes([2; 20]);
    let parent = Oid::from_bytes([3; 20]);
    let failure = commit.conflict_of(&git_repo, &ours, &theirs, &parent);
    assert_eq!(
        failure,
        EngineError::MergeConflict {
            ours,
            theirs,
            state: SyncState {
                main_commit_id: commit.commit(),
                remote_commit_id: theirs,
                main_commit_parent_id: parent,
                main_branch_name: "master".to_string(),
            },
        }
    );
    assert_eq!(
        failure.message(),
        format!(
            "Unable to merge local commit ({}) with commit from remote ({})\nOnce all the conflicts has been resolved, run 'ubr sync --continue'\n",
            ours.to_hex(),
            theirs.to_hex()
        )
    );
}

#[test]
fn an_update_takes_the_side_of_the_commit_where_its_base_differs() {
    let local = sandbox();
    commit_file(&local, "File1", "a", false, "base");
    push_master(&local);
    commit_file(&local, "File1", "feature", true, "feature");
    create(&local, create::Options::default());

    // Another commit is put under the tracked one, and the tracked one
    // changes the same line again.
    {
        let repo = &local.repo;
        let main = repo.find_commit(repo.refname_to_id("refs/remotes/origin/master").unwrap()).unwrap();
        let under_tree = tree_with(repo, Some(&main.tree().unwrap()), "File1", "a\nother", false);
        let under = repo.commit(None, &signature(), &signature(), "other", &under_tree, &[&main]).unwrap();
        let under = repo.find_commit(under).unwrap();
        let old = head_commit(repo).unwrap();
        let tree = tree_with(repo, Some(&under_tree), "File1", "a\nfeature v2", false);
        let new = repo.commit(None, &old.author(), &signature(), "feature", &tree, &[&under]).unwrap();
        copy_note(repo, old.id(), new);
        repo.reference("refs/heads/master", new, true, "rewrite").unwrap();
        sync_workdir(&local);

        let picked = repo.cherrypick_commit(&repo.find_commit(new).unwrap(), &main, 0, None).unwrap();
        assert!(picked.has_conflicts());
    }

    let git_repo = git_repo(&local);
    let commit = expect_tracked(git_repo.find_unpushed_commit("HEAD").unwrap());
    let known = commit.meta_data().remote_commit;
    let updated = commit.update_local_branch_head(&git_repo).unwrap();
    let tip = local.repo.find_commit(raw(&updated.meta_data().remote_commit)).unwrap();
    assert_eq!(tip.parent_id(0).unwrap(), raw(&known));
    assert_eq!(tip.message().unwrap(), "Fixup!");
    assert_eq!(content_at(&local.repo, &tip.tree().unwrap(), "File1"), "a\nfeature v2\n");
}
