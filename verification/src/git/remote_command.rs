//! What is asked of the remote, and how: the arguments of the commands that
//! fetch and push. Running them is left to the caller.

use crate::git::local_commit::meta_data::{CommitMetadata, MetadataView};
use crate::git::oid::encode_hex;
use vstd::prelude::*;
use vstd::string::StringExecFns;

verus! {

/// How the remote is reached.
#[derive(Debug, Clone, Copy, PartialEq, Eq, Structural)]
pub enum CommandOption {
    /// Commands run and show their output.
    Default,
    /// Commands run without showing their output.
    Silent,
    /// Nothing is pushed; what would be is announced.
    DryRun,
}

/// The command that reaches the remote of the repository at a path.
#[derive(Debug)]
pub enum RemoteGitCommand {
    Default(String),
    Silent(String),
    DryRun(String),
}

/// What the caller is to do for the remote.
#[derive(Debug)]
pub enum RemoteAction {
    /// Run `git` in `dir` with `args`, showing its output unless `quiet`.
    Run { dir: String, args: Vec<String>, quiet: bool },
    /// Print `line` and run nothing.
    Announce { line: String },
}

/// The contents of a `RemoteAction`.
pub enum RemoteActionView {
    Run { dir: Seq<char>, args: Seq<Seq<char>>, quiet: bool },
    Announce { line: Seq<char> },
}

/// The texts that the strings of `v` hold, in order.
pub open spec fn strings_view(v: Seq<String>) -> Seq<Seq<char>> {
    Seq::new(v.len(), |i: int| v[i]@)
}

impl View for RemoteAction {
    type V = RemoteActionView;

    open spec fn view(&self) -> RemoteActionView {
        match self {
            RemoteAction::Run { dir, args, quiet } => RemoteActionView::Run {
                dir: dir@,
                args: strings_view(args@),
                quiet: *quiet,
            },
            RemoteAction::Announce { line } => RemoteActionView::Announce { line: line@ },
        }
    }
}

/// The refspec that pushes the remote commit of `m` to its branch.
pub open spec fn push_refspec(m: MetadataView) -> Seq<char> {
    encode_hex(m.commit) + ":refs/heads/"@ + m.branch
}

/// The arguments of the push of `m`: hooks are skipped, and the branch is
/// replaced only if it is where it was last seen.
pub open spec fn push_args(m: MetadataView) -> Seq<Seq<char>> {
    seq![
        "push"@,
        "--no-verify"@,
        "--force-with-lease"@,
        "--"@,
        "origin"@,
        push_refspec(m),
    ]
}

/// The arguments of the fetch.
pub open spec fn fetch_args() -> Seq<Seq<char>> {
    seq!["fetch"@]
}

/// What a dry run says in place of the push of `m`.
pub open spec fn dry_run_line(m: MetadataView) -> Seq<char> {
    "Pushing commit "@ + encode_hex(m.commit) + " to origin/"@ + m.branch
}

/// What is done to push `m` under `option` for the repository at `path`.
pub open spec fn push_action(option: CommandOption, path: Seq<char>, m: MetadataView) -> RemoteActionView {
    match option {
        CommandOption::Default => RemoteActionView::Run {
            dir: path,
            args: push_args(m),
            quiet: false,
        },
        CommandOption::Silent => RemoteActionView::Run { dir: path, args: push_args(m), quiet: true },
        CommandOption::DryRun => RemoteActionView::Announce { line: dry_run_line(m) },
    }
}

/// What is done to fetch under `option` for the repository at `path`: a dry
/// run fetches too, quietly.
pub open spec fn fetch_action(option: CommandOption, path: Seq<char>) -> RemoteActionView {
    RemoteActionView::Run {
        dir: path,
        args: fetch_args(),
        quiet: option != CommandOption::Default,
    }
}

impl RemoteGitCommand {
    /// The command for the repository at `path`.
    pub fn new(option: CommandOption, path: String) -> (r: RemoteGitCommand)
        ensures
            r.path() == path,
            r.option() == option,
    {
        match option {
            CommandOption::Default => RemoteGitCommand::Default(path),
            CommandOption::Silent => RemoteGitCommand::Silent(path),
            CommandOption::DryRun => RemoteGitCommand::DryRun(path),
        }
    }

    /// The path of the repository.
    pub open spec fn path(&self) -> String {
        match self {
            RemoteGitCommand::Default(path) => *path,
            RemoteGitCommand::Silent(path) => *path,
            RemoteGitCommand::DryRun(path) => *path,
        }
    }

    /// How the remote is reached.
    pub open spec fn option(&self) -> CommandOption {
        match self {
            RemoteGitCommand::Default(_) => CommandOption::Default,
            RemoteGitCommand::Silent(_) => CommandOption::Silent,
            RemoteGitCommand::DryRun(_) => CommandOption::DryRun,
        }
    }

    /// The refspec that pushes the remote commit of `meta_data` to its
    /// branch.
    pub fn refspec(meta_data: &CommitMetadata) -> (r: String)
        ensures
            r@ == push_refspec(meta_data@),
    {
        let mut r = meta_data.remote_commit.to_hex();
        r.append(":refs/heads/");
        r.append(meta_data.remote_branch_name.as_str());
        r
    }

    /// The arguments of the push of `meta_data`.
    pub fn push_arguments(meta_data: &CommitMetadata) -> (r: Vec<String>)
        ensures
            strings_view(r@) == push_args(meta_data@),
    {
        let mut r: Vec<String> = Vec::new();
        r.push(String::from_str("push"));
        r.push(String::from_str("--no-verify"));
        r.push(String::from_str("--force-with-lease"));
        r.push(String::from_str("--"));
        r.push(String::from_str("origin"));
        r.push(RemoteGitCommand::refspec(meta_data));
        assert(strings_view(r@) =~= push_args(meta_data@));
        r
    }

    /// What is to be done to push the remote commit of `meta_data` to its
    /// branch.
    pub fn push(&self, meta_data: &CommitMetadata) -> (r: RemoteAction)
        ensures
            r@ == push_action(self.option(), self.path()@, meta_data@),
    {
        match self {
            RemoteGitCommand::Default(path) => RemoteAction::Run {
                dir: path.clone(),
                args: RemoteGitCommand::push_arguments(meta_data),
                quiet: false,
            },
            RemoteGitCommand::Silent(path) => RemoteAction::Run {
                dir: path.clone(),
                args: RemoteGitCommand::push_arguments(meta_data),
                quiet: true,
            },
            RemoteGitCommand::DryRun(_) => {
                let mut line = String::from_str("Pushing commit ");
                let hex = meta_data.remote_commit.to_hex();
                line.append(hex.as_str());
                line.append(" to origin/");
                line.append(meta_data.remote_branch_name.as_str());
                RemoteAction::Announce { line }
            },
        }
    }

    /// What is to be done to fetch from the remote.
    pub fn fetch(&self) -> (r: RemoteAction)
        ensures
            r@ == fetch_action(self.option(), self.path()@),
    {
        let mut args: Vec<String> = Vec::new();
        args.push(String::from_str("fetch"));
        assert(strings_view(args@) =~= fetch_args());
        match self {
            RemoteGitCommand::Default(path) => RemoteAction::Run {
                dir: path.clone(),
                args,
                quiet: false,
            },
            RemoteGitCommand::Silent(path) => RemoteAction::Run { dir: path.clone(), args, quiet: true },
            RemoteGitCommand::DryRun(path) => RemoteAction::Run { dir: path.clone(), args, quiet: true },
        }
    }
}

} // verus!
