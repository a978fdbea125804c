//! Which file changes of a patch go into which commit on the remote branch.

use crate::git::oid::Oid;
use vstd::prelude::*;

verus! {

/// The part of a patch that is applied.
#[derive(Debug, Clone, Copy, PartialEq, Eq, Structural)]
pub enum PatchPart {
    /// Every file change.
    Whole,
    /// The file changes that the mainline has made too.
    MainSync,
    /// The file changes that the mainline has not made.
    Fixup,
}

/// What a commit is applied to a new base for.
#[derive(Debug, Clone, Copy, PartialEq, Eq, Structural)]
pub enum Pick {
    /// An untracked commit is written anew on another parent.
    Rebase,
    /// A commit is published for the first time.
    Publish,
    /// The remote branch of a commit is brought up to the commit, after
    /// the user has amended it.
    Update,
}

/// Whether a region that the commit and its new base have both changed
/// takes the side of the commit, and is no conflict. It does so only
/// where a remote branch is brought up to its commit: what the user wrote
/// last counts. A commit that is rebased or published must apply as it is.
pub open spec fn favors_commit(pick: Pick) -> bool {
    pick == Pick::Update
}

impl Pick {
    /// Decides `favors_commit`.
    pub fn favor_theirs(&self) -> (r: bool)
        ensures
            r == favors_commit(*self),
    {
        match self {
            Pick::Rebase => false,
            Pick::Publish => false,
            Pick::Update => true,
        }
    }
}

/// What a commit that the engine writes to a remote branch stands for.
#[derive(Debug, Clone, Copy, PartialEq, Eq, Structural)]
pub enum Role {
    /// The changes of the mainline that the branch takes in.
    MainSync,
    /// The changes that the user has made to the local commit.
    Fixup,
    /// The merge of two tips of the branch, or of the branch with the
    /// mainline.
    Merge,
}

/// The message of a commit that stands for `role`.
pub open spec fn role_message(role: Role) -> Seq<char> {
    match role {
        Role::MainSync => "Sync with main!"@,
        Role::Fixup => "Fixup!"@,
        Role::Merge => "Merge"@,
    }
}

/// The part of a patch that a commit of the role `role` holds. A merge holds
/// every change.
pub open spec fn role_part(role: Role) -> PatchPart {
    match role {
        Role::MainSync => PatchPart::MainSync,
        Role::Fixup => PatchPart::Fixup,
        Role::Merge => PatchPart::Whole,
    }
}

/// The commits that a patch is split into, in the order in which they are
/// written to the remote branch: the changes of the mainline first, the
/// changes of the user on top of them.
pub open spec fn split_roles() -> Seq<Role> {
    seq![Role::MainSync, Role::Fixup]
}

/// The commits that a patch is split into, in the order in which they are
/// written to the remote branch.
pub fn split_order() -> (r: Vec<Role>)
    ensures
        r@ == split_roles(),
{
    let mut r: Vec<Role> = Vec::new();
    r.push(Role::MainSync);
    r.push(Role::Fixup);
    assert(r@ =~= split_roles());
    r
}

impl Role {
    /// The part of a patch that a commit of this role holds.
    pub fn part(&self) -> (r: PatchPart)
        ensures
            r == role_part(*self),
    {
        match self {
            Role::MainSync => PatchPart::MainSync,
            Role::Fixup => PatchPart::Fixup,
            Role::Merge => PatchPart::Whole,
        }
    }

    /// The message of a commit that stands for this role.
    pub fn message(&self) -> (r: &'static str)
        ensures
            r@ == role_message(*self),
    {
        match self {
            Role::MainSync => "Sync with main!",
            Role::Fixup => "Fixup!",
            Role::Merge => "Merge",
        }
    }
}

/// A file change, as the ids of the old and of the new content.
pub type BlobPair = (Seq<u8>, Seq<u8>);

/// The pairs that `pairs` holds, as plain values.
pub open spec fn pairs_view(pairs: Seq<(Oid, Oid)>) -> Seq<BlobPair> {
    Seq::new(pairs.len(), |i: int| (pairs[i].0@, pairs[i].1@))
}

/// Whether the mainline has made the change from `old` to `new`: the pair
/// is among the file changes of the mainline.
pub open spec fn in_main(main: Seq<BlobPair>, old: Seq<u8>, new: Seq<u8>) -> bool {
    main.contains((old, new))
}

/// Whether the part `part` of a patch holds the change from `old` to `new`.
pub open spec fn part_admits(part: PatchPart, main: Seq<BlobPair>, old: Seq<u8>, new: Seq<u8>) -> bool {
    match part {
        PatchPart::Whole => true,
        PatchPart::MainSync => in_main(main, old, new),
        PatchPart::Fixup => !in_main(main, old, new),
    }
}

/// Selects the file changes of one part of a patch.
pub struct DeltaFilter {
    main: Vec<(Oid, Oid)>,
    part: PatchPart,
}

impl DeltaFilter {
    /// The file changes of the mainline that this filter goes by.
    pub closed spec fn mainline(&self) -> Seq<BlobPair> {
        pairs_view(self.main@)
    }

    /// The part that this filter selects.
    pub closed spec fn part(&self) -> PatchPart {
        self.part
    }

    /// The filter that selects `part`, given the file changes of the
    /// mainline.
    pub fn new(main: Vec<(Oid, Oid)>, part: PatchPart) -> (r: DeltaFilter)
        ensures
            r.mainline() == pairs_view(main@),
            r.part() == part,
    {
        DeltaFilter { main, part }
    }

    /// The filter that goes by the same file changes of the mainline and
    /// selects `part`.
    pub fn for_part(self, part: PatchPart) -> (r: DeltaFilter)
        ensures
            r.mainline() == self.mainline(),
            r.part() == part,
    {
        DeltaFilter { main: self.main, part }
    }

    /// The filter that selects every file change.
    pub fn whole() -> (r: DeltaFilter)
        ensures
            r.mainline() == Seq::<BlobPair>::empty(),
            r.part() == PatchPart::Whole,
    {
        let r = DeltaFilter { main: Vec::new(), part: PatchPart::Whole };
        assert(pairs_view(r.main@) =~= Seq::<BlobPair>::empty());
        r
    }

    /// Whether the mainline has made the change from `old` to `new`.
    pub fn in_main(&self, old: &Oid, new: &Oid) -> (r: bool)
        ensures
            r == in_main(self.mainline(), old@, new@),
    {
        let mut i: usize = 0;
        while i < self.main.len()
            invariant
                i <= self.main.len(),
                forall|j: int| 0 <= j < i ==> self.mainline()[j] != (old@, new@),
            decreases self.main.len() - i,
        {
            if self.main[i].0 == *old && self.main[i].1 == *new {
                assert(self.mainline()[i as int] == (old@, new@));
                return true;
            }
            i += 1;
        }
        false
    }

    /// Whether this filter selects the change from `old` to `new`.
    pub fn admits(&self, old: &Oid, new: &Oid) -> (r: bool)
        ensures
            r == part_admits(self.part(), self.mainline(), old@, new@),
    {
        match self.part {
            PatchPart::Whole => true,
            PatchPart::MainSync => self.in_main(old, new),
            PatchPart::Fixup => !self.in_main(old, new),
        }
    }

    /// Whether this filter selects the file change `delta`. A change of
    /// which nothing is known is selected.
    pub fn admits_delta(&self, delta: Option<(Oid, Oid)>) -> (r: bool)
        ensures
            r == match delta {
                Some((old, new)) => part_admits(self.part(), self.mainline(), old@, new@),
                None => true,
            },
    {
        match delta {
            Some((old, new)) => self.admits(&old, &new),
            None => true,
        }
    }
}

/// Every file change of a patch belongs to exactly one of the two commits
/// that the patch is split into.
pub proof fn lemma_parts_partition(main: Seq<BlobPair>, old: Seq<u8>, new: Seq<u8>)
    ensures
        part_admits(PatchPart::MainSync, main, old, new) != part_admits(
            PatchPart::Fixup,
            main,
            old,
            new,
        ),
        part_admits(PatchPart::Whole, main, old, new),
{
}

/// A file change goes with the mainline's exactly when the mainline holds a
/// change with the same old and the same new content.
pub proof fn lemma_main_sync_is_structural(main: Seq<BlobPair>, old: Seq<u8>, new: Seq<u8>)
    ensures
        part_admits(PatchPart::MainSync, main, old, new) <==> exists|i: int|
            0 <= i < main.len() && #[trigger] main[i] == (old, new),
{
}

} // verus!
