//! Percent-encoding of the redirect URI, as the `urlencoding` crate performs
//! it: every byte is escaped except ASCII alphanumerics and `-`, `.`, `_`,
//! `~`, with uppercase hexadecimal digits.

use vstd::prelude::*;
use vstd::string::is_ascii;

verus! {

/// What `urlencoding::encode` returns for the given characters.  The result
/// depends on the characters alone; for ASCII input it is pinned down exactly
/// by [`percent_encoded_ascii`].
pub uninterp spec fn percent_encoded(s: Seq<char>) -> Seq<char>;

/// A character that percent-encoding passes through unchanged.
pub open spec fn is_url_unreserved(c: char) -> bool {
    ||| 0x30 <= (c as u32) && (c as u32) <= 0x39
    ||| 0x41 <= (c as u32) && (c as u32) <= 0x5A
    ||| 0x61 <= (c as u32) && (c as u32) <= 0x7A
    ||| c == '-'
    ||| c == '.'
    ||| c == '_'
    ||| c == '~'
}

/// The uppercase hexadecimal digit for a value below sixteen.
pub open spec fn upper_hex_digit(n: int) -> char {
    if n == 0 {
        '0'
    } else if n == 1 {
        '1'
    } else if n == 2 {
        '2'
    } else if n == 3 {
        '3'
    } else if n == 4 {
        '4'
    } else if n == 5 {
        '5'
    } else if n == 6 {
        '6'
    } else if n == 7 {
        '7'
    } else if n == 8 {
        '8'
    } else if n == 9 {
        '9'
    } else if n == 10 {
        'A'
    } else if n == 11 {
        'B'
    } else if n == 12 {
        'C'
    } else if n == 13 {
        'D'
    } else if n == 14 {
        'E'
    } else {
        'F'
    }
}

/// How one ASCII character appears in the percent-encoded form: unreserved
/// characters stand as they are, every other one as `%` and two uppercase
/// hexadecimal digits of its code.
pub open spec fn percent_encoded_char(c: char) -> Seq<char> {
    if is_url_unreserved(c) {
        seq![c]
    } else {
        seq!['%', upper_hex_digit(((c as u32) / 16) as int), upper_hex_digit(((c as u32) % 16) as int)]
    }
}

/// The percent-encoded form of an ASCII string.
pub open spec fn percent_encoded_ascii(s: Seq<char>) -> Seq<char>
    decreases s.len(),
{
    if s.len() == 0 {
        Seq::empty()
    } else {
        percent_encoded_char(s[0]) + percent_encoded_ascii(s.drop_first())
    }
}

/// Relies on `urlencoding::encode`: it percent-encodes every byte of the
/// UTF-8 form except ASCII alphanumerics and `-`, `.`, `_`, `~`, writing two
/// uppercase hexadecimal digits after each `%`.
#[verifier::external_body]
pub(crate) fn percent_encode(s: &str) -> (r: String)
    ensures
        r@ == percent_encoded(s@),
        is_ascii(s) ==> r@ == percent_encoded_ascii(s@),
{
    urlencoding::encode(s).into_owned()
}

} // verus!
