use vstd::prelude::*;

verus! {

/// The lower-case hexadecimal digit of a value below 16.
pub open spec fn hex_char(d: u128) -> char {
    if d == 0 { '0' } else if d == 1 { '1' } else if d == 2 { '2' } else if d == 3 { '3' }
    else if d == 4 { '4' } else if d == 5 { '5' } else if d == 6 { '6' } else if d == 7 { '7' }
    else if d == 8 { '8' } else if d == 9 { '9' } else if d == 10 { 'a' } else if d == 11 { 'b' }
    else if d == 12 { 'c' } else if d == 13 { 'd' } else if d == 14 { 'e' } else { 'f' }
}

/// The `k`-th of the 32 hexadecimal digits of a 128-bit value, the most
/// significant first.
pub open spec fn nibble(value: u128, k: int) -> u128 {
    (value >> ((124 - 4 * k) as u128)) & 0xf
}

/// Which hexadecimal digit the `i`-th character of the text shows, past
/// the hyphens before it.
pub open spec fn digit_position(i: int) -> int {
    if i < 8 { i } else if i < 13 { i - 1 } else if i < 18 { i - 2 } else if i < 23 { i - 3 } else { i - 4 }
}

/// The hyphenated lower-case text of the UUID with the given 128-bit value,
/// as the `uuid` crate writes it: 32 hexadecimal digits, the most
/// significant first, in groups of 8, 4, 4, 4 and 12 joined by hyphens.
pub open spec fn uuid_text(value: u128) -> Seq<char> {
    Seq::new(36, |i: int|
        if i == 8 || i == 13 || i == 18 || i == 23 { '-' } else { hex_char(nibble(value, digit_position(i))) })
}

/// The 128-bit value of the UUID that the `uuid` crate reads from a text,
/// if it reads one.
pub uninterp spec fn uuid_parse(text: Seq<char>) -> Option<u128>;

/// Calls `uuid::Uuid::from_u128` and the `Display` of `uuid::Uuid`.
/// Claims that the text is the hyphenated lower-case text above and that
/// `uuid::Uuid::parse_str` reads that text back as the same value (the
/// crate documents that its parser accepts every format that it writes).
#[verifier::external_body]
fn uuid_to_string(value: u128) -> (r: String)
    ensures
        r@ == uuid_text(value),
        uuid_parse(r@) == Some(value),
{
    uuid::Uuid::from_u128(value).to_string()
}

/// Calls `uuid::Uuid::parse_str` and `uuid::Uuid::as_u128`. Claims that the
/// result is the named reading of the text.
#[verifier::external_body]
fn uuid_from_str(text: &str) -> (r: Option<u128>)
    ensures
        r == uuid_parse(text@),
{
    match uuid::Uuid::parse_str(text) {
        Ok(u) => Some(u.as_u128()),
        Err(_) => None,
    }
}

/// The identifier of an entity of the back office: a UUID, held by its
/// 128-bit value.
#[derive(Clone, Copy, PartialEq, Eq, Structural, Debug)]
pub struct Id {
    pub value: u128,
}

impl Id {
    /// The identifier with the given 128-bit value.
    pub fn from_u128(value: u128) -> (r: Id)
        ensures
            r.value == value,
    {
        Id { value }
    }

    /// The text of the identifier.
    pub fn text(&self) -> (r: String)
        ensures
            r@ == uuid_text(self.value),
            uuid_parse(r@) == Some(self.value),
    {
        uuid_to_string(self.value)
    }

    /// The identifier that a text spells, if it spells one.
    pub fn parse(text: &str) -> (r: Option<Id>)
        ensures
            match r {
                Some(id) => uuid_parse(text@) == Some(id.value),
                None => uuid_parse(text@) is None,
            },
    {
        match uuid_from_str(text) {
            Some(v) => Some(Id { value: v }),
            None => None,
        }
    }
}

} // verus!
