//! Commit ids: twenty bytes, written as forty hexadecimal digits.

use vstd::prelude::*;
use vstd::std_specs::cmp::PartialEqSpecImpl;
use vstd::string::*;

verus! {

/// The id of an object in the repository.
#[derive(Clone, Copy, Debug, Eq, Hash)]
pub struct Oid {
    bytes: [u8; 20],
}

impl View for Oid {
    type V = Seq<u8>;

    open spec fn view(&self) -> Seq<u8> {
        self.as_bytes()@
    }
}

impl PartialEq for Oid {
    fn eq(&self, other: &Oid) -> (r: bool) {
        let mut i: usize = 0;
        while i < 20
            invariant
                i <= 20,
                forall|j: int| 0 <= j < i ==> self.bytes@[j] == other.bytes@[j],
            decreases 20 - i,
        {
            if self.bytes[i] != other.bytes[i] {
                return false;
            }
            i += 1;
        }
        assert(self.bytes@ =~= other.bytes@);
        true
    }
}

impl PartialEqSpecImpl for Oid {
    open spec fn obeys_eq_spec() -> bool {
        true
    }

    open spec fn eq_spec(&self, other: &Oid) -> bool {
        self@ == other@
    }
}

/// The value of a hexadecimal digit of either case; -1 for any other
/// character.
pub open spec fn hex_value(c: char) -> int {
    let n = c as u32;
    if 0x30 <= n <= 0x39 {
        n - 0x30
    } else if 0x61 <= n <= 0x66 {
        n - 0x61 + 10
    } else if 0x41 <= n <= 0x46 {
        n - 0x41 + 10
    } else {
        -1
    }
}

/// The lower-case hexadecimal digit of the value `n`, for `n` below 16.
pub open spec fn hex_char(n: int) -> char {
    if 0 <= n < 10 {
        (0x30 + n) as u8 as char
    } else {
        (0x61 + n - 10) as u8 as char
    }
}

/// Whether `s` can be read as an id: one to forty hexadecimal digits.
pub open spec fn is_hex_text(s: Seq<char>) -> bool {
    &&& 1 <= s.len() <= 40
    &&& forall|i: int| 0 <= i < s.len() ==> hex_value(#[trigger] s[i]) >= 0
}

/// The value of the digit at position `p` of `s`; 0 past its end.
pub open spec fn nibble(s: Seq<char>, p: int) -> int {
    if 0 <= p < s.len() {
        hex_value(s[p])
    } else {
        0
    }
}

/// The twenty bytes that the digits of `s` spell, two digits to a byte, high
/// digit first; digits that `s` lacks count as zero.
pub open spec fn decode_hex(s: Seq<char>) -> Seq<u8> {
    Seq::new(20, |i: int| (16 * nibble(s, 2 * i) + nibble(s, 2 * i + 1)) as u8)
}

/// The bytes of the id that `s` spells, if it spells one.
pub open spec fn parse_hex(s: Seq<char>) -> Option<Seq<u8>> {
    if is_hex_text(s) {
        Some(decode_hex(s))
    } else {
        None
    }
}

/// The lower-case hexadecimal digits of `bytes`, two to a byte, high digit
/// first.
pub open spec fn encode_hex(bytes: Seq<u8>) -> Seq<char> {
    Seq::new(
        2 * bytes.len(),
        |p: int|
            hex_char(
                if p % 2 == 0 {
                    bytes[p / 2] as int / 16
                } else {
                    bytes[p / 2] as int % 16
                },
            ),
    )
}

/// Reading back the digits written for an id gives that id.
pub proof fn lemma_hex_round_trip(bytes: Seq<u8>)
    requires
        bytes.len() == 20,
    ensures
        parse_hex(encode_hex(bytes)) == Some(bytes),
        encode_hex(bytes).len() == 40,
{
    let text = encode_hex(bytes);
    assert forall|i: int| 0 <= i < text.len() implies hex_value(#[trigger] text[i]) >= 0 by {
        lemma_hex_char_value(
            if i % 2 == 0 {
                bytes[i / 2] as int / 16
            } else {
                bytes[i / 2] as int % 16
            },
        );
    }
    assert forall|i: int| 0 <= i < 20 implies decode_hex(text)[i] == bytes[i] by {
        lemma_hex_char_value(bytes[i] as int / 16);
        lemma_hex_char_value(bytes[i] as int % 16);
        assert(text[2 * i] == hex_char(bytes[i] as int / 16));
        assert(text[2 * i + 1] == hex_char(bytes[i] as int % 16));
    }
    assert(decode_hex(text) =~= bytes);
}

/// A digit written for a value below 16 reads back as that value.
pub proof fn lemma_hex_char_value(n: int)
    requires
        0 <= n < 16,
    ensures
        hex_value(hex_char(n)) == n,
{
}

/// A hexadecimal digit is neither white space nor a line feed.
pub proof fn lemma_hex_digit_plain(c: char)
    requires
        hex_value(c) >= 0,
    ensures
        !crate::text::is_white_space(c),
        c != '\n',
{
}

/// Every character written for an id is a hexadecimal digit.
pub proof fn lemma_encode_hex_digits(bytes: Seq<u8>, p: int)
    requires
        0 <= p < 2 * bytes.len(),
    ensures
        hex_value(encode_hex(bytes)[p]) >= 0,
{
    lemma_hex_char_value(
        if p % 2 == 0 {
            bytes[p / 2] as int / 16
        } else {
            bytes[p / 2] as int % 16
        },
    );
}

/// Calls `git2::Oid::from_str` and copies out the bytes of its result with
/// `git2::Oid::as_bytes`. The call accepts one to forty hexadecimal digits of
/// either case; it fills the id from the left, two digits to a byte, and
/// leaves zero what the text does not reach. Any other text is refused.
#[verifier::external_body]
fn oid_from_str(s: &str) -> (r: Option<Oid>)
    ensures
        match r {
            Some(id) => parse_hex(s@) == Some(id@),
            None => parse_hex(s@) is None,
        },
{
    let raw = git2::Oid::from_str(s).ok()?;
    let bytes: [u8; 20] = raw.as_bytes().try_into().ok()?;
    Some(Oid { bytes })
}

/// Formats a `git2::Oid` made of the same bytes with its `Display` impl,
/// which writes all forty hexadecimal digits in lower case.
#[verifier::external_body]
fn oid_to_string(id: &Oid) -> (s: String)
    ensures
        s@ == encode_hex(id@),
{
    git2::Oid::from_bytes(&id.bytes).map(|raw| raw.to_string()).unwrap_or_default()
}

impl Oid {
    /// The id made of `bytes`.
    pub fn from_bytes(bytes: [u8; 20]) -> (id: Oid)
        ensures
            id@ == bytes@,
    {
        Oid { bytes }
    }

    /// The twenty bytes of the id.
    #[verifier::when_used_as_spec(spec_as_bytes)]
    pub fn as_bytes(&self) -> (bytes: [u8; 20])
        ensures
            bytes == self.spec_as_bytes(),
    {
        self.bytes
    }

    /// The twenty bytes of the id.
    pub closed spec fn spec_as_bytes(&self) -> [u8; 20] {
        self.bytes
    }

    /// Reads an id from one to forty hexadecimal digits; `None` for any other
    /// text.
    pub fn parse(s: &str) -> (r: Option<Oid>)
        ensures
            match r {
                Some(id) => parse_hex(s@) == Some(id@),
                None => parse_hex(s@) is None,
            },
    {
        oid_from_str(s)
    }

    /// The id as forty lower-case hexadecimal digits.
    pub fn to_hex(&self) -> (s: String)
        ensures
            s@ == encode_hex(self@),
    {
        oid_to_string(self)
    }
}

/// Every id has twenty bytes.
pub proof fn lemma_oid_len(id: Oid)
    ensures
        id@.len() == 20,
{
}

/// Reads ids out of the text of a serialised record.
pub struct OidVisitor;

/// The message for a text that spells no id.
pub open spec fn invalid_oid_message(v: Seq<char>) -> Seq<char> {
    "Invalid OID: '"@ + v + "'"@
}

impl OidVisitor {
    /// The id that `v` spells; for a text that spells none, the error
    /// message, which quotes the text.
    pub fn visit_str(self, v: &str) -> (r: Result<Oid, String>)
        ensures
            match r {
                Ok(id) => parse_hex(v@) == Some(id@),
                Err(msg) => parse_hex(v@) is None && msg@ == invalid_oid_message(v@),
            },
    {
        match Oid::parse(v) {
            Some(id) => Ok(id),
            None => {
                let mut msg = String::from_str("Invalid OID: '");
                msg.append(v);
                msg.append("'");
                Err(msg)
            },
        }
    }

    /// What this visitor expects to read.
    pub fn expecting(&self) -> (s: String)
        ensures
            s@ == "Expecting an Oid as a String\n"@,
    {
        String::from_str("Expecting an Oid as a String\n")
    }
}

} // verus!
