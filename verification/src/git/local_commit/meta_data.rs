//! The tracking metadata of a commit, and the text of the note that holds it.

use crate::git::oid::{
    encode_hex, lemma_encode_hex_digits, lemma_hex_digit_plain, lemma_hex_round_trip,
    lemma_oid_len, parse_hex, Oid,
};
use crate::text::{
    append_chars, chars_of, find_char, first_index, is_white_space, lemma_first_index_joined,
    lemma_lines_first, lemma_trim_is_trimmed, lemma_trim_padded, lines, same_chars, slice_chars,
    split_lines, string_of, texts, trim, trim_chars,
};
use vstd::prelude::*;

verus! {

/// What a local commit is published as: the name of its remote branch and
/// the commit last known as the tip of that branch.
#[derive(Debug, Eq, PartialEq, Clone)]
pub struct CommitMetadata {
    pub remote_branch_name: String,
    pub remote_commit: Oid,
}

/// The contents of a `CommitMetadata`.
pub struct MetadataView {
    pub branch: Seq<char>,
    pub commit: Seq<u8>,
}

impl View for CommitMetadata {
    type V = MetadataView;

    open spec fn view(&self) -> MetadataView {
        MetadataView { branch: self.remote_branch_name@, commit: self.remote_commit@ }
    }
}

/// A note holds no tracking metadata.
#[derive(Debug, Clone, Copy, PartialEq, Eq)]
pub struct MetaDataError;

/// The key of the line that names the remote branch.
pub open spec fn branch_key() -> Seq<char> {
    "remote-branch"@
}

/// The key of the line that names the remote commit.
pub open spec fn commit_key() -> Seq<char> {
    "remote-commit"@
}

/// The value that `line` gives to `key`: what stands before the first colon
/// of the line must be the key, and the value is what follows that colon,
/// trimmed.
pub open spec fn field_of(line: Seq<char>, key: Seq<char>) -> Option<Seq<char>> {
    let n = first_index(line, ':');
    if n < line.len() && line.take(n) == key {
        Some(trim(line.skip(n + 1)))
    } else {
        None
    }
}

/// The value that the last line with `key` gives to it.
pub open spec fn last_field(ls: Seq<Seq<char>>, key: Seq<char>) -> Option<Seq<char>>
    decreases ls.len(),
{
    if ls.len() == 0 {
        None
    } else if field_of(ls.last(), key) is Some {
        field_of(ls.last(), key)
    } else {
        last_field(ls.drop_last(), key)
    }
}

/// The id that the last line with the commit key spells, if it spells one.
pub open spec fn last_commit(ls: Seq<Seq<char>>) -> Option<Seq<u8>> {
    match last_field(ls, commit_key()) {
        Some(v) => parse_hex(v),
        None => None,
    }
}

/// The two keys differ.
pub proof fn lemma_keys_differ()
    ensures
        branch_key() != commit_key(),
{
    reveal_strlit("remote-branch");
    reveal_strlit("remote-commit");
    assert(branch_key()[7] == 'b');
    assert(commit_key()[7] == 'c');
}

/// The metadata that a note holds. Both fields are required; of several
/// lines with one key the last counts; other lines are passed over.
pub open spec fn parse_note(text: Seq<char>) -> Option<MetadataView> {
    match (last_field(lines(text), branch_key()), last_commit(lines(text))) {
        (Some(branch), Some(commit)) => Some(MetadataView { branch, commit }),
        _ => None,
    }
}

/// The metadata that a commit has, given the note that it has or lacks.
pub open spec fn note_meta(note: Option<Seq<char>>) -> Option<MetadataView> {
    match note {
        Some(text) => parse_note(text),
        None => None,
    }
}

/// The contents of metadata that may be missing.
pub open spec fn meta_view_of(meta_data: Option<CommitMetadata>) -> Option<MetadataView> {
    match meta_data {
        Some(m) => Some(m@),
        None => None,
    }
}

/// The text of a note that may be missing.
pub open spec fn note_text(note: Option<String>) -> Option<Seq<char>> {
    match note {
        Some(text) => Some(text@),
        None => None,
    }
}

/// The note written for the metadata `m`.
pub open spec fn format_note(m: MetadataView) -> Seq<char> {
    "remote-branch: "@ + m.branch + "\n"@ + "remote-commit: "@ + encode_hex(m.commit) + "\n"@
}

impl CommitMetadata {
    /// The same branch with `oid` as its known tip.
    pub fn update_commit(self, oid: Oid) -> (r: Self)
        ensures
            r@ == (MetadataView { branch: self@.branch, commit: oid@ }),
    {
        CommitMetadata { remote_branch_name: self.remote_branch_name, remote_commit: oid }
    }

    /// The same metadata, field by field.
    pub fn duplicate(&self) -> (r: Self)
        ensures
            r@ == self@,
    {
        CommitMetadata {
            remote_branch_name: self.remote_branch_name.clone(),
            remote_commit: self.remote_commit,
        }
    }

    /// The text of the note that holds this metadata.
    pub fn to_note(&self) -> (s: String)
        ensures
            s@ == format_note(self@),
    {
        let mut out: Vec<char> = chars_of("remote-branch: ");
        let name = chars_of(self.remote_branch_name.as_str());
        append_chars(&mut out, &name);
        let newline = chars_of("\n");
        append_chars(&mut out, &newline);
        let key = chars_of("remote-commit: ");
        append_chars(&mut out, &key);
        let hex = self.remote_commit.to_hex();
        let digits = chars_of(hex.as_str());
        append_chars(&mut out, &digits);
        append_chars(&mut out, &newline);
        string_of(&out)
    }

    /// The metadata of a commit with the note `note`: what the note holds,
    /// and none where there is no note or the note holds none.
    pub fn of_note(note: &Option<String>) -> (r: Option<CommitMetadata>)
        ensures
            meta_view_of(r) == note_meta(note_text(*note)),
    {
        match note {
            Some(text) => match CommitMetadata::parse(text.as_str()) {
                Ok(m) => Some(m),
                Err(_) => None,
            },
            None => None,
        }
    }

    /// Reads the metadata out of the text of a note.
    pub fn parse(value: &str) -> (r: Result<CommitMetadata, MetaDataError>)
        ensures
            match r {
                Ok(m) => parse_note(value@) == Some(m@),
                Err(_) => parse_note(value@) is None,
            },
    {
        let text = chars_of(value);
        let ls = split_lines(&text);
        let branch_name = chars_of("remote-branch");
        let commit_name = chars_of("remote-commit");
        let mut branch: Option<Vec<char>> = None;
        let mut commit: Option<Oid> = None;
        let mut i: usize = 0;
        assert(texts(ls@).take(0) =~= Seq::<Seq<char>>::empty());
        proof {
            lemma_keys_differ();
        }
        while i < ls.len()
            invariant
                i <= ls.len(),
                branch_name@ == branch_key(),
                commit_name@ == commit_key(),
                branch_key() != commit_key(),
                match branch {
                    Some(b) => last_field(texts(ls@).take(i as int), branch_key()) == Some(b@),
                    None => last_field(texts(ls@).take(i as int), branch_key()) is None,
                },
                match commit {
                    Some(c) => last_commit(texts(ls@).take(i as int)) == Some(c@),
                    None => last_commit(texts(ls@).take(i as int)) is None,
                },
            decreases ls.len() - i,
        {
            let line = &ls[i];
            let ghost prefix = texts(ls@).take(i as int);
            let ghost upto = texts(ls@).take(i + 1);
            proof {
                assert(upto.last() == line@);
                assert(upto.drop_last() =~= prefix);
            }
            let n = find_char(line, 0, ':');
            assert(line@.skip(0) =~= line@);
            if n < line.len() {
                let key = slice_chars(line, 0, n);
                let rest = slice_chars(line, n + 1, line.len());
                let value = trim_chars(&rest);
                assert(key@ =~= line@.take(n as int));
                assert(rest@ =~= line@.skip(n + 1));
                if same_chars(&key, &branch_name) {
                    branch = Some(value);
                } else if same_chars(&key, &commit_name) {
                    let digits = string_of(&value);
                    commit = Oid::parse(digits.as_str());
                }
            }
            i += 1;
        }
        assert(texts(ls@).take(ls@.len() as int) =~= texts(ls@));
        match (branch, commit) {
            (Some(b), Some(c)) => Ok(
                CommitMetadata { remote_branch_name: string_of(&b), remote_commit: c },
            ),
            _ => Err(MetaDataError),
        }
    }
}

impl std::str::FromStr for CommitMetadata {
    type Err = MetaDataError;

    /// Reads the metadata out of the text of a note, as `parse` does.
    fn from_str(value: &str) -> (r: Result<CommitMetadata, MetaDataError>)
        ensures
            match r {
                Ok(m) => parse_note(value@) == Some(m@),
                Err(_) => parse_note(value@) is None,
            },
    {
        CommitMetadata::parse(value)
    }
}

/// A branch name that a note can hold: it has no line feed, and no white
/// space at either end.
pub open spec fn is_plain_name(name: Seq<char>) -> bool {
    &&& trim(name) == name
    &&& forall|j: int| 0 <= j < name.len() ==> #[trigger] name[j] != '\n'
}

/// The line that gives `value` to `key`: the key, a colon, a space and the
/// value.
pub open spec fn field_line(key: Seq<char>, value: Seq<char>) -> Seq<char> {
    key + seq![':'] + (seq![' '] + value)
}

/// Whether `value` can stand in a line of its own and be read back: it has
/// no line feed, and no white space at either end.
pub open spec fn is_plain_value(value: Seq<char>) -> bool {
    &&& value.len() > 0 ==> !is_white_space(value[0]) && !is_white_space(value.last())
    &&& forall|j: int| 0 <= j < value.len() ==> #[trigger] value[j] != '\n'
}

/// Whether `key` can be a key: it has neither a colon nor a line feed.
pub open spec fn is_key(key: Seq<char>) -> bool {
    forall|j: int| 0 <= j < key.len() ==> #[trigger] key[j] != ':' && key[j] != '\n'
}

/// The two keys are keys.
proof fn lemma_keys_are_keys()
    ensures
        is_key(branch_key()),
        is_key(commit_key()),
{
    reveal_strlit("remote-branch");
    reveal_strlit("remote-commit");
}

/// A note is the line of the branch and the line of the commit, each ended
/// by a line feed.
proof fn lemma_note_text(m: MetadataView)
    ensures
        format_note(m) == field_line(branch_key(), m.branch) + seq!['\n'] + (field_line(
            commit_key(),
            encode_hex(m.commit),
        ) + seq!['\n'] + Seq::<char>::empty()),
{
    reveal_strlit("remote-branch");
    reveal_strlit("remote-commit");
    reveal_strlit("remote-branch: ");
    reveal_strlit("remote-commit: ");
    reveal_strlit("\n");
    let hex = encode_hex(m.commit);
    assert("\n"@ =~= seq!['\n']);
    assert("remote-branch: "@ =~= branch_key() + seq![':'] + seq![' ']);
    assert("remote-commit: "@ =~= commit_key() + seq![':'] + seq![' ']);
    assert(branch_key() + seq![':'] + seq![' '] + m.branch =~= field_line(branch_key(), m.branch));
    assert(commit_key() + seq![':'] + seq![' '] + hex =~= field_line(commit_key(), hex));
    assert(format_note(m) =~= field_line(branch_key(), m.branch) + seq!['\n'] + (field_line(
        commit_key(),
        hex,
    ) + seq!['\n'] + Seq::<char>::empty()));
}

/// The line that gives `value` to `key` gives `value` to `key` and nothing
/// to any other key.
proof fn lemma_field_line(key: Seq<char>, value: Seq<char>, other: Seq<char>)
    requires
        is_key(key),
        is_plain_value(value),
        other != key,
    ensures
        field_of(field_line(key, value), key) == Some(value),
        field_of(field_line(key, value), other) is None,
{
    let tail = seq![' '] + value;
    let line = key + seq![':'] + tail;
    lemma_first_index_joined(key, ':', tail);
    assert(line.take(key.len() as int) =~= key);
    assert(line.skip(key.len() as int + 1) =~= tail);
    lemma_trim_padded(seq![' '], value);
}

/// The line that gives `value` to `key` holds no line feed and does not end
/// in a carriage return.
proof fn lemma_field_line_is_a_line(key: Seq<char>, value: Seq<char>)
    requires
        is_key(key),
        is_plain_value(value),
    ensures
        forall|j: int|
            0 <= j < field_line(key, value).len() ==> #[trigger] field_line(key, value)[j] != '\n',
        field_line(key, value).len() > 0,
        field_line(key, value).last() != '\r',
{
    let line = field_line(key, value);
    assert forall|j: int| 0 <= j < line.len() implies #[trigger] line[j] != '\n' by {
        if j < key.len() {
            assert(line[j] == key[j]);
        } else if j >= key.len() + 2 {
            assert(line[j] == value[j - key.len() - 2]);
        }
    }
    if value.len() > 0 {
        assert(line.last() == value.last());
    } else {
        assert(line.last() == ' ');
    }
}

/// Two lines, each ended by a line feed, are the lines of their text.
proof fn lemma_two_lines(first: Seq<char>, second: Seq<char>)
    requires
        forall|j: int| 0 <= j < first.len() ==> #[trigger] first[j] != '\n',
        forall|j: int| 0 <= j < second.len() ==> #[trigger] second[j] != '\n',
        first.len() > 0 ==> first.last() != '\r',
        second.len() > 0 ==> second.last() != '\r',
    ensures
        lines(first + seq!['\n'] + (second + seq!['\n'] + Seq::<char>::empty())) == seq![
            first,
            second,
        ],
{
    lemma_lines_first(second, Seq::<char>::empty());
    lemma_lines_first(first, second + seq!['\n'] + Seq::<char>::empty());
    assert(lines(Seq::<char>::empty()) =~= Seq::<Seq<char>>::empty());
    assert(seq![first] + (seq![second] + Seq::<Seq<char>>::empty()) =~= seq![first, second]);
}

/// Of two lines, the second gives a key its value if it gives one, and the
/// first does otherwise.
proof fn lemma_last_field_of_two(first: Seq<char>, second: Seq<char>, key: Seq<char>)
    ensures
        last_field(seq![first, second], key) == if field_of(second, key) is Some {
            field_of(second, key)
        } else {
            field_of(first, key)
        },
{
    let ls = seq![first, second];
    assert(ls.last() == second);
    assert(ls.drop_last() =~= seq![first]);
    assert(seq![first].last() == first);
    assert(seq![first].drop_last() =~= Seq::<Seq<char>>::empty());
    assert(last_field(Seq::<Seq<char>>::empty(), key) is None);
    assert(last_field(seq![first], key) == field_of(first, key));
}

/// The digits written for an id can stand in a line of their own.
proof fn lemma_hex_is_plain(commit: Seq<u8>)
    requires
        commit.len() == 20,
    ensures
        is_plain_value(encode_hex(commit)),
{
    let hex = encode_hex(commit);
    assert forall|j: int| 0 <= j < hex.len() implies !is_white_space(#[trigger] hex[j]) && hex[j]
        != '\n' by {
        lemma_encode_hex_digits(commit, j);
        lemma_hex_digit_plain(hex[j]);
    }
    assert(!is_white_space(hex[0]) && !is_white_space(hex.last()));
}

/// Tracking metadata survives being written to a note and read back,
/// provided the branch name is one that a note can hold.
pub proof fn lemma_note_round_trip(m: MetadataView)
    requires
        m.commit.len() == 20,
        is_plain_name(m.branch),
    ensures
        parse_note(format_note(m)) == Some(m),
{
    let hex = encode_hex(m.commit);
    let first = field_line(branch_key(), m.branch);
    let second = field_line(commit_key(), hex);
    lemma_keys_differ();
    lemma_keys_are_keys();
    lemma_trim_is_trimmed(m.branch);
    assert(is_plain_value(m.branch));
    lemma_hex_is_plain(m.commit);
    lemma_note_text(m);
    lemma_field_line_is_a_line(branch_key(), m.branch);
    lemma_field_line_is_a_line(commit_key(), hex);
    lemma_two_lines(first, second);
    lemma_field_line(branch_key(), m.branch, commit_key());
    lemma_field_line(commit_key(), hex, branch_key());
    lemma_last_field_of_two(first, second, branch_key());
    lemma_last_field_of_two(first, second, commit_key());
    lemma_hex_round_trip(m.commit);
}

/// The metadata `m` survives being written to a note and read back,
/// provided its branch name is one that a note can hold.
pub proof fn lemma_metadata_round_trip(m: CommitMetadata)
    requires
        is_plain_name(m@.branch),
    ensures
        parse_note(format_note(m@)) == Some(m@),
{
    lemma_oid_len(m.remote_commit);
    lemma_note_round_trip(m@);
}

/// A note without a line that gives the branch, or without one that gives
/// the commit, holds no metadata.
pub proof fn lemma_note_lacking_field(text: Seq<char>)
    requires
        last_field(lines(text), branch_key()) is None || last_field(lines(text), commit_key())
            is None,
    ensures
        parse_note(text) is None,
{
}

/// `last_field` finds a value exactly where some line gives one to the key.
pub proof fn lemma_last_field_some(ls: Seq<Seq<char>>, key: Seq<char>)
    ensures
        last_field(ls, key) is Some <==> exists|i: int|
            0 <= i < ls.len() && field_of(#[trigger] ls[i], key) is Some,
    decreases ls.len(),
{
    if ls.len() > 0 {
        let front = ls.drop_last();
        lemma_last_field_some(front, key);
        if field_of(ls.last(), key) is Some {
            assert(field_of(ls[ls.len() - 1], key) is Some);
        } else if last_field(front, key) is Some {
            let i = choose|i: int| 0 <= i < front.len() && field_of(#[trigger] front[i], key) is Some;
            assert(ls[i] == front[i]);
        } else {
            assert forall|i: int| 0 <= i < ls.len() implies !(field_of(#[trigger] ls[i], key)
                is Some) by {
                if i < front.len() {
                    assert(ls[i] == front[i]);
                }
            }
        }
    }
}

} // verus!
