//! A local commit that has not been published.

use crate::error::{refuse_conflicts, EngineError};
use crate::git::local_commit::meta_data::{
    format_note, is_plain_name, lemma_note_round_trip, parse_note, CommitMetadata, MetadataView,
};
use crate::git::local_commit::patch::Pick;
use crate::git::local_commit::tracked_commit::TrackedCommit;
use crate::git::oid::Oid;
use crate::git::repo::{lift, GitRepo};
use crate::git::store::{cherrypick_commit, commit_message, find_commit, index_has_conflicts};
use crate::text::{
    chars_of, find_char, first_line, is_white_space, lemma_trim_identity, string_of,
};
use vstd::prelude::*;

verus! {

/// Whether a character of a commit's title is kept in the name of its
/// branch: ASCII letters and digits, `-` and `_`.
pub open spec fn is_branch_char(c: char) -> bool {
    let n = c as u32;
    ||| 0x30 <= n <= 0x39
    ||| 0x41 <= n <= 0x5A
    ||| 0x61 <= n <= 0x7A
    ||| c == '-'
    ||| c == '_'
}

/// What a character of a commit's title becomes in the name of its branch:
/// an upper-case letter its lower-case form, any character that is not kept
/// a `-`.
pub open spec fn branch_char(c: char) -> char {
    let n = c as u32;
    if 0x41 <= n <= 0x5A {
        (n + 0x20) as u8 as char
    } else if is_branch_char(c) {
        c
    } else {
        '-'
    }
}

/// The name of the remote branch for a commit with the message `message`:
/// its first line, character by character.
pub open spec fn branch_name_of(message: Seq<char>) -> Seq<char> {
    Seq::new(first_line(message).len(), |i: int| branch_char(first_line(message)[i]))
}

/// Decides `is_branch_char` and computes `branch_char`.
pub fn to_branch_char(c: char) -> (r: char)
    ensures
        r == branch_char(c),
{
    let n: u32 = c as u32;
    if 0x41 <= n && n <= 0x5A {
        let lower: u8 = (n + 0x20) as u8;
        lower as char
    } else if (0x30 <= n && n <= 0x39) || (0x61 <= n && n <= 0x7A) || c == '-' || c == '_' {
        c
    } else {
        '-'
    }
}

/// A name made from a commit's title holds lower-case ASCII letters, digits,
/// `-` and `_` only, so a note can hold it.
pub proof fn lemma_branch_name_plain(message: Seq<char>)
    ensures
        is_plain_name(branch_name_of(message)),
        forall|i: int|
            0 <= i < branch_name_of(message).len() ==> is_branch_char(
                #[trigger] branch_name_of(message)[i],
            ),
{
    let name = branch_name_of(message);
    assert forall|i: int| 0 <= i < name.len() implies is_branch_char(#[trigger] name[i])
        && !is_white_space(name[i]) && name[i] != '\n' by {
        let c = first_line(message)[i];
        assert(name[i] == branch_char(c));
    }
    lemma_trim_identity(name);
}

/// The metadata of a commit that is published under the name made from its
/// title survives being written to a note and read back.
pub proof fn lemma_generated_name_round_trip(message: Seq<char>, commit: Seq<u8>)
    requires
        commit.len() == 20,
    ensures
        parse_note(format_note(MetadataView { branch: branch_name_of(message), commit })) == Some(
            MetadataView { branch: branch_name_of(message), commit },
        ),
{
    lemma_branch_name_plain(message);
    lemma_note_round_trip(MetadataView { branch: branch_name_of(message), commit });
}

/// A local commit without tracking metadata.
#[derive(Debug)]
pub struct UnTrackedCommit {
    commit: Oid,
}

impl UnTrackedCommit {
    /// The untracked commit with the id `commit`.
    pub fn new(commit: Oid) -> (r: UnTrackedCommit)
        ensures
            r.id_view() == commit@,
    {
        UnTrackedCommit { commit }
    }

    /// The bytes of the commit's id.
    pub closed spec fn id_view(&self) -> Seq<u8> {
        self.commit@
    }

    /// The id of the commit.
    pub fn as_commit(&self) -> (r: &Oid)
        ensures
            r@ == self.id_view(),
    {
        &self.commit
    }

    /// The id of the commit.
    pub fn commit(&self) -> (r: Oid)
        ensures
            r@ == self.id_view(),
    {
        self.commit
    }

    /// Writes the commit anew on top of `parent_commit`: the same change,
    /// author and message, committed by the present user. A new commit is
    /// written whatever parent the commit has.
    pub fn rebase(self, git_repo: &GitRepo, parent_commit: &Oid) -> (r: Result<
        UnTrackedCommit,
        EngineError,
    >)
        ensures
            r matches Err(e) ==> e is Store || e is CherrypickConflict,
    {
        let repo = git_repo.repository();
        let commit = lift(find_commit(repo, &self.commit))?;
        let parent = lift(find_commit(repo, parent_commit))?;
        let mut index = lift(
            cherrypick_commit(repo, &commit, &parent, Pick::Rebase.favor_theirs()),
        )?;
        refuse_conflicts(index_has_conflicts(&index))?;
        let message = lift(commit_message(&commit))?;
        let id = git_repo.commit_index(&mut index, &commit, message.as_str(), &parent, None)?;
        Ok(UnTrackedCommit { commit: id })
    }

    /// Publishes the commit for the first time: its change is applied to the
    /// upstream mainline and committed there with the same message, as the
    /// first tip of the remote branch, and the commit gets its tracking
    /// metadata. The branch is named `name`, or after the title of the
    /// commit where no name is given.
    pub fn track(self, git_repo: &GitRepo, name: Option<String>) -> (r: Result<
        TrackedCommit,
        EngineError,
    >)
        ensures
            match r {
                Ok(t) => t.id_view() == self.id_view() && match name {
                    Some(n) => t.meta_view().branch == n@,
                    None => exists|message: Seq<char>|
                        t.meta_view().branch == branch_name_of(message),
                },
                Err(e) => e is Store || e is CherrypickConflict || (e is EmptyMessage
                    && name is None),
            },
    {
        let repo = git_repo.repository();
        let commit = lift(find_commit(repo, &self.commit))?;
        let message = lift(commit_message(&commit))?;
        let branch_name = match name {
            Some(n) => n,
            None => UnTrackedCommit::generate_remote_branch_name(message.as_str())?,
        };
        let origin_main_commit = git_repo.base_commit()?;
        let mut complete_index = lift(
            cherrypick_commit(repo, &commit, &origin_main_commit, Pick::Publish.favor_theirs()),
        )?;
        refuse_conflicts(index_has_conflicts(&complete_index))?;
        let remote_commit = git_repo.commit_index(
            &mut complete_index,
            &commit,
            message.as_str(),
            &origin_main_commit,
            None,
        )?;
        let meta_data = CommitMetadata { remote_branch_name: branch_name, remote_commit };
        git_repo.save_meta_data(&commit, &meta_data)?;
        Ok(TrackedCommit::new(self.commit, meta_data))
    }

    /// The name of the remote branch for a commit with the message
    /// `commit_msg`: its title in lower case, with `-` for every character
    /// but ASCII letters, digits, `-` and `_`. A commit without any message
    /// has no title to go by.
    pub fn generate_remote_branch_name(commit_msg: &str) -> (r: Result<String, EngineError>)
        ensures
            match r {
                Ok(name) => commit_msg@.len() > 0 && name@ == branch_name_of(commit_msg@),
                Err(e) => commit_msg@.len() == 0 && e == EngineError::EmptyMessage,
            },
    {
        let text = chars_of(commit_msg);
        if text.len() == 0 {
            return Err(EngineError::EmptyMessage);
        }
        let n = find_char(&text, 0, '\n');
        assert(text@.skip(0) =~= text@);
        let stop = if 0 < n && n < text.len() && text[n - 1] == '\r' {
            n - 1
        } else {
            n
        };
        let ghost title = first_line(text@);
        assert(title =~= text@.take(stop as int));
        let mut name: Vec<char> = Vec::new();
        let mut i: usize = 0;
        while i < stop
            invariant
                i <= stop <= text.len(),
                title == text@.take(stop as int),
                name.len() == i,
                forall|j: int| 0 <= j < i ==> #[trigger] name@[j] == branch_char(title[j]),
            decreases stop - i,
        {
            name.push(to_branch_char(text[i]));
            i += 1;
        }
        assert(name@ =~= branch_name_of(text@));
        Ok(string_of(&name))
    }
}

} // verus!
