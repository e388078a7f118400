use vstd::prelude::*;

verus! {

/// The lowercase hexadecimal digit for a nibble value `n` (0..16).
pub open spec fn hex_digit(n: int) -> char {
    if n < 10 {
        (n + 48) as char
    } else {
        (n + 87) as char
    }
}

/// Nibble `k` (0 = most significant) of a 128-bit identifier.
pub open spec fn nibble(v: u128, k: int) -> int {
    ((v >> ((31 - k) * 4) as u128) & 0xf) as int
}

/// The 32 hexadecimal digits of `v`, most significant first.
pub open spec fn simple_hex(v: u128) -> Seq<char> {
    Seq::new(32, |k: int| hex_digit(nibble(v, k)))
}

/// The canonical 8-4-4-4-12 hyphenated lowercase rendering of `v`.
pub open spec fn hyphenated_text(v: u128) -> Seq<char> {
    let s = simple_hex(v);
    s.subrange(0, 8) + seq!['-'] + s.subrange(8, 12) + seq!['-'] + s.subrange(12, 16)
        + seq!['-'] + s.subrange(16, 20) + seq!['-'] + s.subrange(20, 32)
}

/// What `uuid::Uuid::parse_str` yields for a text, as the 128-bit value.
pub uninterp spec fn uuid_parse(text: Seq<char>) -> Option<u128>;

/// Version-4 / RFC 4122 variant bits of a randomly generated identifier.
pub open spec fn is_random_v4(v: u128) -> bool {
    v & 0x0000_0000_0000_F000_C000_0000_0000_0000u128 == 0x0000_0000_0000_4000_8000_0000_0000_0000u128
}

/// Calls `uuid::Uuid::parse_str` and hands back the parsed value as a `u128`.
/// Claimed: the result is `uuid_parse` of the text; the canonical hyphenated
/// rendering of any value parses back to that value (the parser accepts
/// 36-character hyphenated input); a text shorter than 8 or longer than 45
/// characters is rejected (the parser only accepts 32, 36, 38 or 45 bytes).
#[verifier::external_body]
fn parse_uuid_text(text: &str) -> (r: Option<u128>)
    ensures
        r == uuid_parse(text@),
        forall|v: u128| text@ == hyphenated_text(v) ==> r == Some(v),
        text@.len() < 8 || text@.len() > 45 ==> r is None,
{
    ::uuid::Uuid::parse_str(text).ok().map(|u| u.as_u128())
}

/// Calls `uuid::Uuid::new_v4`, which draws 128 random bits and forces the
/// version nibble to 4 and the variant bits to `10`.
/// Claimed: only those fixed bits; the rest is chance.
#[verifier::external_body]
fn random_uuid_value() -> (r: u128)
    ensures
        is_random_v4(r),
{
    ::uuid::Uuid::new_v4().as_u128()
}

/// Calls `uuid::Uuid::hyphenated` and renders it to a `String`.
/// Claimed: the text is the lowercase 8-4-4-4-12 hexadecimal rendering of
/// the big-endian bytes of the value, as `format_hyphenated` in the crate writes it.
#[verifier::external_body]
fn hyphenated_string(v: u128) -> (s: String)
    ensures
        s@ == hyphenated_text(v),
{
    ::uuid::Uuid::from_u128(v).hyphenated().to_string()
}

/// The text given to `Uuid::parse_str` is not an identifier.
#[derive(Debug, Clone, Copy, PartialEq, Eq, Structural)]
pub struct UuidParseError;

/// A 128-bit universally unique identifier used for books, libraries,
/// users and API tokens.
#[derive(Debug, Clone, Copy, PartialEq, Eq, Structural, Hash)]
pub struct Uuid {
    pub value: u128,
}

impl Uuid {
    /// Parses an identifier from its textual form.
    pub fn parse_str(input: &str) -> (r: Result<Self, UuidParseError>)
        ensures
            match uuid_parse(input@) {
                Some(v) => r == Ok::<Uuid, UuidParseError>(Uuid { value: v }),
                None => r == Err::<Uuid, UuidParseError>(UuidParseError),
            },
            forall|v: u128| input@ == hyphenated_text(v) ==> r == Ok::<Uuid, UuidParseError>(Uuid { value: v }),
            input@.len() < 8 || input@.len() > 45 ==> r is Err,
    {
        match parse_uuid_text(input) {
            Some(v) => Ok(Uuid { value: v }),
            None => Err(UuidParseError),
        }
    }

    /// A fresh random (version 4) identifier.
    pub fn new_v4() -> (r: Self)
        ensures
            is_random_v4(r.value),
    {
        Uuid { value: random_uuid_value() }
    }

    /// The canonical hyphenated lowercase text of this identifier.
    pub fn hyphenated(&self) -> (s: String)
        ensures
            s@ == hyphenated_text(self.value),
            s@.len() == 36,
    {
        hyphenated_string(self.value)
    }
}

} // verus!
