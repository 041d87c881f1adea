//! User identifiers: 128-bit UUIDs, their accepted text forms, and fresh
//! random identifiers.
use vstd::prelude::*;

verus! {

/// A hexadecimal digit, in either case.
pub open spec fn is_hex_digit(c: char) -> bool {
    ('0' <= c && c <= '9') || ('a' <= c && c <= 'f') || ('A' <= c && c <= 'F')
}

/// The value of a hexadecimal digit.
pub open spec fn hex_digit_value(c: char) -> nat {
    if '0' <= c && c <= '9' {
        (c as nat - '0' as nat) as nat
    } else if 'a' <= c && c <= 'f' {
        (c as nat - 'a' as nat + 10) as nat
    } else {
        (c as nat - 'A' as nat + 10) as nat
    }
}

pub open spec fn all_hex(d: Seq<char>) -> bool {
    forall|i: int| 0 <= i < d.len() ==> #[trigger] is_hex_digit(d[i])
}

/// The number that a run of hexadecimal digits spells, most significant first.
pub open spec fn hex_value(d: Seq<char>) -> nat
    decreases d.len(),
{
    if d.len() == 0 {
        0
    } else {
        hex_value(d.drop_last()) * 16 + hex_digit_value(d.last())
    }
}

/// The 32 digits of the hyphenated form `8-4-4-4-12`.
pub open spec fn hyphenated_digits(s: Seq<char>) -> Seq<char> {
    s.subrange(0, 8) + s.subrange(9, 13) + s.subrange(14, 18) + s.subrange(19, 23) + s.subrange(
        24,
        36,
    )
}

pub open spec fn is_hyphenated(s: Seq<char>) -> bool {
    &&& s.len() == 36
    &&& s[8] == '-' && s[13] == '-' && s[18] == '-' && s[23] == '-'
    &&& all_hex(hyphenated_digits(s))
}

/// `c` is the lower-case ASCII letter or sign `l`, in either case.
pub open spec fn eq_ignore_case(c: char, l: char) -> bool {
    c == l || ('a' <= l && l <= 'z' && c as u32 + 32 == l as u32)
}

/// The prefix `urn:uuid:`, in any mix of cases.
pub open spec fn is_urn_prefix(p: Seq<char>) -> bool {
    &&& p.len() == 9
    &&& eq_ignore_case(p[0], 'u') && eq_ignore_case(p[1], 'r') && eq_ignore_case(p[2], 'n')
    &&& p[3] == ':'
    &&& eq_ignore_case(p[4], 'u') && eq_ignore_case(p[5], 'u') && eq_ignore_case(p[6], 'i')
    &&& eq_ignore_case(p[7], 'd')
    &&& p[8] == ':'
}

/// The 32 digits of an identifier written in one of the accepted forms:
/// simple (32 digits), hyphenated, braced (`{...}` around the hyphenated
/// form) or URN (`urn:uuid:` before it); `None` for any other text.
pub open spec fn uuid_digits(s: Seq<char>) -> Option<Seq<char>> {
    if s.len() == 32 && all_hex(s) {
        Some(s)
    } else if is_hyphenated(s) {
        Some(hyphenated_digits(s))
    } else if s.len() == 38 && s[0] == '{' && s[37] == '}' && is_hyphenated(s.subrange(1, 37)) {
        Some(hyphenated_digits(s.subrange(1, 37)))
    } else if s.len() == 45 && is_urn_prefix(s.subrange(0, 9)) && is_hyphenated(s.subrange(9, 45)) {
        Some(hyphenated_digits(s.subrange(9, 45)))
    } else {
        None
    }
}

/// The identifier that a text denotes, if it is one.
pub open spec fn uuid_value(s: Seq<char>) -> Option<u128> {
    match uuid_digits(s) {
        Some(d) => Some(hex_value(d) as u128),
        None => None,
    }
}

/// A random (version 4, RFC 4122 variant) identifier: the version nibble
/// holds 4 and the two variant bits hold `10`.
pub open spec fn is_random_uuid(v: u128) -> bool {
    &&& (v >> 76u128) & 0xfu128 == 4
    &&& (v >> 62u128) & 0x3u128 == 2
}

/// Relies on `uuid::Uuid::parse_str`, which accepts exactly the simple,
/// hyphenated, braced and URN forms, and `Uuid::as_u128`, which reads the 16
/// bytes big-endian.
#[verifier::external_body]
pub(crate) fn parse_uuid(text: &str) -> (r: Option<u128>)
    ensures
        r == uuid_value(text@),
{
    uuid::Uuid::parse_str(text).ok().map(|u| u.as_u128())
}

/// Relies on `uuid::Uuid::new_v4`, which draws 128 random bits and then sets
/// the version and variant bits.
#[verifier::external_body]
pub(crate) fn random_uuid() -> (r: u128)
    ensures
        is_random_uuid(r),
{
    uuid::Uuid::new_v4().as_u128()
}

} // verus!
