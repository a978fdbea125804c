//! Keeps one remote branch per local commit on a single long-lived branch.
//!
//! A contributor works on one branch and publishes single commits of it, each
//! on a remote branch of its own. A commit that is published carries a note
//! with the name of its branch and the commit last known as the tip of that
//! branch. `create` publishes a commit; `sync` brings every unpushed commit,
//! its remote branch and the local branch in line, and hands a conflict to
//! the user to resolve.
//!
//! The repository is reached through `git2`. Reaching the remote and keeping
//! the record of a conflict on disk are left to the caller: the commands say
//! what is to be pushed, and when the record is to be written or removed.

pub mod commands;
pub mod error;
pub mod git;
pub mod text;
