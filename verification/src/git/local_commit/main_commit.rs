//! A commit above the upstream mainline, as tracked or as untracked.

use crate::error::EngineError;
use crate::git::local_commit::meta_data::{
    format_note, is_plain_name, lemma_note_round_trip, parse_note, CommitMetadata, MetadataView,
};
use crate::git::local_commit::tracked_commit::TrackedCommit;
use crate::git::local_commit::untracked_commit::UnTrackedCommit;
use crate::git::oid::Oid;
use crate::git::repo::GitRepo;
use vstd::prelude::*;

verus! {

/// A local commit: published under tracking metadata, or not published.
#[derive(Debug)]
pub enum MainCommit {
    UnTracked(UnTrackedCommit),
    Published(TrackedCommit),
}

/// The contents of a `MainCommit`.
pub enum MainCommitView {
    UnTracked { commit: Seq<u8> },
    Published { commit: Seq<u8>, meta_data: MetadataView },
}

impl MainCommitView {
    /// The bytes of the commit's id.
    pub open spec fn commit(self) -> Seq<u8> {
        match self {
            MainCommitView::UnTracked { commit } => commit,
            MainCommitView::Published { commit, meta_data } => commit,
        }
    }
}

impl View for MainCommit {
    type V = MainCommitView;

    open spec fn view(&self) -> MainCommitView {
        match self {
            MainCommit::UnTracked(c) => MainCommitView::UnTracked { commit: c.id_view() },
            MainCommit::Published(c) => MainCommitView::Published {
                commit: c.id_view(),
                meta_data: c.meta_view(),
            },
        }
    }
}

/// What a commit is, given the note that it has: tracked where the note
/// holds metadata, untracked where it holds none or where there is no note.
pub open spec fn classification(commit: Seq<u8>, note: Option<Seq<char>>) -> MainCommitView {
    match note {
        Some(text) => match parse_note(text) {
            Some(meta_data) => MainCommitView::Published { commit, meta_data },
            None => MainCommitView::UnTracked { commit },
        },
        None => MainCommitView::UnTracked { commit },
    }
}

/// Whether `c` is the commit `id`, classified by a note that it may have.
pub open spec fn is_classified(c: MainCommit, id: Seq<u8>) -> bool {
    &&& c.id_view() == id
    &&& exists|note: Option<Seq<char>>| c@ == classification(id, note)
}

impl MainCommit {
    /// Classifies `commit` by the text of its note.
    pub fn classify(commit: Oid, note: Option<&str>) -> (r: MainCommit)
        ensures
            r@ == classification(
                commit@,
                match note {
                    Some(text) => Some(text@),
                    None => None,
                },
            ),
    {
        match note {
            Some(text) => match CommitMetadata::parse(text) {
                Ok(meta_data) => MainCommit::Published(TrackedCommit::new(commit, meta_data)),
                Err(_) => MainCommit::UnTracked(UnTrackedCommit::new(commit)),
            },
            None => MainCommit::UnTracked(UnTrackedCommit::new(commit)),
        }
    }

    /// Classifies `commit` by the note that it has in `git_repo`.
    pub fn new(git_repo: &GitRepo, commit: Oid) -> (r: Result<MainCommit, EngineError>)
        ensures
            r matches Ok(c) ==> is_classified(c, commit@),
            r matches Err(e) ==> e is Store,
    {
        let note = git_repo.find_note_for_commit(&commit)?;
        let c = match &note {
            Some(text) => MainCommit::classify(commit, Some(text.as_str())),
            None => MainCommit::classify(commit, None),
        };
        proof {
            let ghost_note: Option<Seq<char>> = match note {
                Some(text) => Some(text@),
                None => None,
            };
            assert(c@ == classification(commit@, ghost_note));
        }
        Ok(c)
    }

    /// The bytes of the commit's id.
    pub open spec fn id_view(&self) -> Seq<u8> {
        match self {
            MainCommit::UnTracked(c) => c.id_view(),
            MainCommit::Published(c) => c.id_view(),
        }
    }

    /// Whether the commit is tracked.
    pub open spec fn is_tracked(&self) -> bool {
        self is Published
    }

    /// The id of the commit.
    pub fn id(&self) -> (r: Oid)
        ensures
            r@ == self.id_view(),
    {
        match self {
            MainCommit::UnTracked(c) => c.commit(),
            MainCommit::Published(c) => c.commit(),
        }
    }

    /// The message of the commit; `None` where it cannot be read as text.
    pub fn message(&self, git_repo: &GitRepo) -> (r: Option<String>) {
        let id = self.id();
        git_repo.message_of(&id)
    }
}

/// A commit is tracked or untracked, never both, and it is tracked exactly
/// when it has a note that holds tracking metadata.
pub proof fn lemma_classification_exclusive(commit: Seq<u8>, note: Option<Seq<char>>)
    ensures
        classification(commit, note) is Published != classification(commit, note) is UnTracked,
        classification(commit, note) is Published <==> note is Some && parse_note(note->0) is Some,
        classification(commit, note) matches MainCommitView::Published { commit: c, meta_data }
            ==> c == commit && parse_note(note->0) == Some(meta_data),
        classification(commit, note) matches MainCommitView::UnTracked { commit: c } ==> c == commit,
{
}

/// A commit whose note is the one written for the metadata `m` is tracked
/// under `m`, provided the branch name of `m` is one that a note can hold.
pub proof fn lemma_written_note_is_tracked(commit: Seq<u8>, m: MetadataView)
    requires
        m.commit.len() == 20,
        is_plain_name(m.branch),
    ensures
        classification(commit, Some(format_note(m))) == (MainCommitView::Published {
            commit,
            meta_data: m,
        }),
{
    lemma_note_round_trip(m);
}

} // verus!
