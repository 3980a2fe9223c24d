//! Identifiers and the text forms they travel in: UUIDs and decimal numbers.
use vstd::prelude::*;
use vstd::arithmetic::power2::pow2;

verus! {

/// The lowercase hexadecimal digit of a value below sixteen.
pub open spec fn hex_digit(n: int) -> char {
    if n < 10 {
        (n + 48) as char
    } else {
        (n + 87) as char
    }
}

/// The `k`-th hexadecimal digit of a UUID, counted from the most significant.
pub open spec fn uuid_nibble(v: u128, k: int) -> int {
    (v as int / pow2((4 * (31 - k)) as nat) as int) % 16
}

/// Which digit of the 32 stands at position `pos` of the hyphenated form.
pub open spec fn uuid_digit_at(pos: int) -> int {
    if pos < 8 {
        pos
    } else if pos < 13 {
        pos - 1
    } else if pos < 18 {
        pos - 2
    } else if pos < 23 {
        pos - 3
    } else {
        pos - 4
    }
}

/// The hyphenated lowercase text of a UUID, `xxxxxxxx-xxxx-xxxx-xxxx-xxxxxxxxxxxx`,
/// most significant digit first.
pub open spec fn uuid_text(v: u128) -> Seq<char> {
    Seq::new(
        36,
        |pos: int|
            if pos == 8 || pos == 13 || pos == 18 || pos == 23 {
                '-'
            } else {
                hex_digit(uuid_nibble(v, uuid_digit_at(pos)))
            },
    )
}

/// The version field of a UUID (bits 76 to 79).
pub open spec fn uuid_version(v: u128) -> int {
    (v as int / 0x1000_0000_0000_0000_0000int) % 16
}

/// What `uuid::Uuid::parse_str` makes of a text: the UUID, or nothing when the
/// text is in none of the accepted forms.
pub uninterp spec fn uuid_parse(text: Seq<char>) -> Option<u128>;

/// Calls `uuid::Uuid::from_u128(..).hyphenated()` and formats it: the
/// crate prints the sixteen bytes of the value, most significant first, as
/// lowercase hexadecimal in groups of 8, 4, 4, 4 and 12 digits.
#[verifier::external_body]
pub(crate) fn format_uuid(v: u128) -> (text: String)
    ensures
        text@ == uuid_text(v),
{
    uuid::Uuid::from_u128(v).hyphenated().to_string()
}

/// Calls `uuid::Uuid::parse_str`. The result is named by `uuid_parse`; the
/// crate accepts the hyphenated form it prints, and reads it back as the
/// same value.
#[verifier::external_body]
pub(crate) fn parse_uuid(text: &str) -> (v: Option<u128>)
    ensures
        v == uuid_parse(text@),
        forall|u: u128| text@ == uuid_text(u) ==> v == Some(u),
{
    match uuid::Uuid::parse_str(text) {
        Ok(u) => Some(u.as_u128()),
        Err(_) => None,
    }
}

/// Calls `uuid::Uuid::now_v7`: a fresh version-7 UUID made from the current
/// time and random bits. Which value comes back depends on the clock and on
/// chance; it always carries version 7.
#[verifier::external_body]
pub(crate) fn new_user_id() -> (v: u128)
    ensures
        uuid_version(v) == 7,
{
    uuid::Uuid::now_v7().as_u128()
}

/// The decimal digit of a value below ten.
pub open spec fn decimal_digit(n: int) -> char {
    (n + 48) as char
}

/// The decimal text of a number, without sign or leading zeros.
pub open spec fn decimal_text(n: nat) -> Seq<char>
    decreases n,
{
    if n < 10 {
        seq![decimal_digit(n as int)]
    } else {
        decimal_text(n / 10) + seq![decimal_digit((n % 10) as int)]
    }
}

/// Appends one character to a string (`String::push`).
#[verifier::external_body]
pub(crate) fn push_char(s: &mut String, c: char)
    ensures
        final(s)@ == old(s)@.push(c),
{
    s.push(c);
}

/// Appends a text to a string (`String::push_str`).
#[verifier::external_body]
pub(crate) fn append_str(s: &mut String, tail: &str)
    ensures
        final(s)@ == old(s)@ + tail@,
{
    s.push_str(tail);
}

/// Appends the decimal text of `n` to `out`.
pub fn append_decimal(out: &mut String, n: u64)
    ensures
        final(out)@ == old(out)@ + decimal_text(n as nat),
    decreases n,
{
    if n >= 10 {
        append_decimal(out, n / 10);
    }
    let d: u64 = n % 10;
    let c: char = if d == 0 { '0' } else if d == 1 { '1' } else if d == 2 { '2' } else if d == 3 {
        '3'
    } else if d == 4 { '4' } else if d == 5 { '5' } else if d == 6 { '6' } else if d == 7 {
        '7'
    } else if d == 8 { '8' } else { '9' };
    assert(c == decimal_digit(d as int));
    push_char(out, c);
}

} // verus!
