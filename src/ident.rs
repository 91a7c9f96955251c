//! Record identifiers: 128-bit values written as canonical hyphenated
//! hexadecimal text, parsed and formatted by the `uuid` crate.
use vstd::prelude::*;

verus! {

/// The lower-case hexadecimal digit of a value below sixteen.
pub open spec fn hex_char(d: nat) -> char {
    if d < 10 {
        ((d + 48) as u8) as char
    } else {
        ((d + 87) as u8) as char
    }
}

/// The `n` lowest hexadecimal digits of `v`, most significant first.
pub open spec fn hex_digits(v: nat, n: nat) -> Seq<char>
    decreases n,
{
    if n == 0 {
        Seq::empty()
    } else {
        hex_digits(v / 16, (n - 1) as nat).push(hex_char(v % 16))
    }
}

/// The canonical hyphenated form of an identifier: 32 lower-case hexadecimal
/// digits in groups of 8, 4, 4, 4 and 12, joined by hyphens.
pub open spec fn hyphenated_of(v: u128) -> Seq<char> {
    let d = hex_digits(v as nat, 32);
    d.subrange(0, 8) + seq!['-'] + d.subrange(8, 12) + seq!['-'] + d.subrange(12, 16) + seq!['-']
        + d.subrange(16, 20) + seq!['-'] + d.subrange(20, 32)
}

/// The lengths of the texts that the UUID parser may accept: the simple,
/// hyphenated, braced and URN forms.
pub open spec fn uuid_length_ok(s: Seq<char>) -> bool {
    s.len() == 32 || s.len() == 36 || s.len() == 38 || s.len() == 45
}

/// What `uuid::Uuid::parse_str` makes of a text, as a 128-bit value in
/// big-endian order, or `None` where it refuses the text.
pub uninterp spec fn uuid_parse_of(s: Seq<char>) -> Option<u128>;

/// Relies on `uuid::Uuid::parse_str` and `uuid::Uuid::as_u128`. The parser
/// accepts only inputs of 32, 36, 38 or 45 bytes and only ASCII ones, so a
/// text of any other number of characters is refused; the lower-case
/// hyphenated form that `Uuid`'s `Display` writes is accepted and gives back
/// its value.
#[verifier::external_body]
fn parse_uuid(s: &str) -> (r: Option<u128>)
    ensures
        r == uuid_parse_of(s@),
        !uuid_length_ok(s@) ==> r is None,
        forall|v: u128| s@ == #[trigger] hyphenated_of(v) ==> r == Some(v),
{
    uuid::Uuid::parse_str(s).ok().map(|u| u.as_u128())
}

/// Relies on `uuid::Uuid::from_u128` and the `Display` of `uuid::Uuid`, which
/// writes the lower-case hyphenated form.
#[verifier::external_body]
fn format_uuid(v: u128) -> (r: String)
    ensures
        r@ == hyphenated_of(v),
{
    uuid::Uuid::from_u128(v).to_string()
}

/// The identifier of a record, as its 128-bit value.
#[derive(Clone, Copy, Debug, PartialEq, Eq, Hash, Structural)]
pub struct RecordId {
    pub value: u128,
}

impl RecordId {
    /// Parses an identifier from its text; `None` where the text is no UUID.
    pub fn parse(s: &str) -> (r: Option<RecordId>)
        ensures
            r == (match uuid_parse_of(s@) {
                Some(v) => Some(RecordId { value: v }),
                None => None,
            }),
            !uuid_length_ok(s@) ==> r is None,
            forall|v: u128| s@ == #[trigger] hyphenated_of(v) ==> r == Some(RecordId { value: v }),
    {
        match parse_uuid(s) {
            Some(v) => Some(RecordId { value: v }),
            None => None,
        }
    }

    /// The canonical hyphenated text of the identifier.
    pub fn to_text(&self) -> (r: String)
        ensures
            r@ == hyphenated_of(self.value),
    {
        format_uuid(self.value)
    }
}

} // verus!
