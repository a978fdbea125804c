//! Publishing the whole local branch under the user's name.

use crate::git::oid::{encode_hex, Oid};
use crate::git::remote_command::strings_view;
use vstd::prelude::*;
use vstd::string::StringExecFns;

verus! {

/// The name of the remote branch that holds the branch `branch` of `user`.
pub open spec fn user_branch(user: Seq<char>, branch: Seq<char>) -> Seq<char> {
    user + "/"@ + branch
}

/// The arguments of the push of `head` to the branch of `user`.
pub open spec fn push_args(user: Seq<char>, branch: Seq<char>, head: Seq<u8>) -> Seq<Seq<char>> {
    seq![
        "push"@,
        "--no-verify"@,
        "--force-with-lease"@,
        "--"@,
        "origin"@,
        encode_hex(head) + ":refs/heads/"@ + user_branch(user, branch),
    ]
}

/// The arguments with which `git` pushes `head` to the remote branch that
/// holds the branch `branch` of `user`.
pub fn arguments(user: &str, branch: &str, head: &Oid) -> (r: Vec<String>)
    ensures
        strings_view(r@) == push_args(user@, branch@, head@),
{
    let mut refspec = head.to_hex();
    refspec.append(":refs/heads/");
    refspec.append(user);
    refspec.append("/");
    refspec.append(branch);
    assert(refspec@ =~= encode_hex(head@) + ":refs/heads/"@ + user_branch(user@, branch@));
    let mut r: Vec<String> = Vec::new();
    r.push(String::from_str("push"));
    r.push(String::from_str("--no-verify"));
    r.push(String::from_str("--force-with-lease"));
    r.push(String::from_str("--"));
    r.push(String::from_str("origin"));
    r.push(refspec);
    assert(strings_view(r@) =~= push_args(user@, branch@, head@));
    r
}

} // verus!
