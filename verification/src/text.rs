//! Small verified text utilities: whitespace trimming and hexadecimal digits.

use vstd::prelude::*;
use vstd::string::StrSliceExecFns;

verus! {

/// Appends one character.  Relies on `String::push`, which the standard
/// library documents as appending the given `char` to the end of the string.
pub assume_specification[ String::push ](s: &mut String, c: char)
    ensures
        final(s)@ == old(s)@.push(c),
;

/// A character that `str::trim` would remove: one with the Unicode
/// `White_Space` property.
pub open spec fn is_whitespace(c: char) -> bool {
    ||| c == ' '
    ||| (0x09 <= (c as u32) && (c as u32) <= 0x0D)
    ||| c == '\u{85}'
    ||| c == '\u{A0}'
    ||| c == '\u{1680}'
    ||| (0x2000 <= (c as u32) && (c as u32) <= 0x200A)
    ||| c == '\u{2028}'
    ||| c == '\u{2029}'
    ||| c == '\u{202F}'
    ||| c == '\u{205F}'
    ||| c == '\u{3000}'
}

/// Runtime test for [`is_whitespace`].
pub fn is_whitespace_char(c: char) -> (b: bool)
    ensures
        b == is_whitespace(c),
{
    let u = c as u32;
    c == ' ' || (0x09 <= u && u <= 0x0D) || c == '\u{85}' || c == '\u{A0}' || c == '\u{1680}'
        || (0x2000 <= u && u <= 0x200A) || c == '\u{2028}' || c == '\u{2029}' || c == '\u{202F}'
        || c == '\u{205F}' || c == '\u{3000}'
}

/// Index of the first character that is not whitespace; the length when every
/// character is whitespace.
pub open spec fn first_non_ws(s: Seq<char>) -> int
    decreases s.len(),
{
    if s.len() == 0 {
        0
    } else if !is_whitespace(s[0]) {
        0
    } else {
        1 + first_non_ws(s.drop_first())
    }
}

/// One past the index of the last character that is not whitespace; zero when
/// every character is whitespace.
pub open spec fn last_non_ws_end(s: Seq<char>) -> int
    decreases s.len(),
{
    if s.len() == 0 {
        0
    } else if !is_whitespace(s.last()) {
        s.len() as int
    } else {
        last_non_ws_end(s.drop_last())
    }
}

/// The string with surrounding whitespace removed, as `str::trim` leaves it.
pub open spec fn trimmed(s: Seq<char>) -> Seq<char> {
    if first_non_ws(s) < last_non_ws_end(s) {
        s.subrange(first_non_ws(s), last_non_ws_end(s))
    } else {
        Seq::empty()
    }
}

proof fn lemma_first_non_ws_is(s: Seq<char>, i: int)
    requires
        0 <= i <= s.len(),
        forall|k: int| 0 <= k < i ==> is_whitespace(s[k]),
        i < s.len() ==> !is_whitespace(s[i]),
    ensures
        first_non_ws(s) == i,
    decreases s.len(),
{
    if s.len() > 0 && is_whitespace(s[0]) {
        assert(i > 0) by {
            if i == 0 {
                assert(!is_whitespace(s[0]));
            }
        }
        assert forall|k: int| 0 <= k < i - 1 implies is_whitespace(s.drop_first()[k]) by {
            assert(s.drop_first()[k] == s[k + 1]);
        }
        if i - 1 < s.drop_first().len() {
            assert(s.drop_first()[i - 1] == s[i]);
        }
        lemma_first_non_ws_is(s.drop_first(), i - 1);
    }
}

proof fn lemma_last_non_ws_end_is(s: Seq<char>, j: int)
    requires
        0 <= j <= s.len(),
        forall|k: int| j <= k < s.len() ==> is_whitespace(s[k]),
        j > 0 ==> !is_whitespace(s[j - 1]),
    ensures
        last_non_ws_end(s) == j,
    decreases s.len(),
{
    if s.len() > 0 && is_whitespace(s.last()) {
        assert(j < s.len()) by {
            if j == s.len() {
                assert(!is_whitespace(s[s.len() - 1]));
            }
        }
        assert forall|k: int| j <= k < s.drop_last().len() implies is_whitespace(
            s.drop_last()[k],
        ) by {
            assert(s.drop_last()[k] == s[k]);
        }
        if j > 0 {
            assert(s.drop_last()[j - 1] == s[j - 1]);
        }
        lemma_last_non_ws_end_is(s.drop_last(), j);
    }
}

/// Removes leading and trailing whitespace, exactly as `str::trim` does.
pub fn trim_whitespace(s: &str) -> (r: String)
    ensures
        r@ == trimmed(s@),
{
    let n = s.unicode_len();
    let mut i: usize = 0;
    while i < n && is_whitespace_char(s.get_char(i))
        invariant
            0 <= i <= n,
            n == s@.len(),
            forall|k: int| 0 <= k < i ==> is_whitespace(s@[k]),
        decreases n - i,
    {
        i = i + 1;
    }
    if i == n {
        proof {
            lemma_first_non_ws_is(s@, n as int);
            lemma_last_non_ws_end_is(s@, 0);
        }
        return String::new();
    }
    proof {
        lemma_first_non_ws_is(s@, i as int);
    }
    let mut j: usize = n;
    while j > i && is_whitespace_char(s.get_char(j - 1))
        invariant
            i <= j <= n,
            n == s@.len(),
            i < n,
            !is_whitespace(s@[i as int]),
            forall|k: int| j <= k < n ==> is_whitespace(s@[k]),
        decreases j,
    {
        j = j - 1;
    }
    assert(j > i) by {
        if j == i {
            assert(is_whitespace(s@[i as int]));
        }
    }
    proof {
        lemma_last_non_ws_end_is(s@, j as int);
    }
    let piece = s.substring_char(i, j);
    piece.to_owned()
}

/// The lowercase hexadecimal digit for a value below sixteen.
pub open spec fn lower_hex_digit(n: int) -> char {
    if n == 0 {
        '0'
    } else if n == 1 {
        '1'
    } else if n == 2 {
        '2'
    } else if n == 3 {
        '3'
    } else if n == 4 {
        '4'
    } else if n == 5 {
        '5'
    } else if n == 6 {
        '6'
    } else if n == 7 {
        '7'
    } else if n == 8 {
        '8'
    } else if n == 9 {
        '9'
    } else if n == 10 {
        'a'
    } else if n == 11 {
        'b'
    } else if n == 12 {
        'c'
    } else if n == 13 {
        'd'
    } else if n == 14 {
        'e'
    } else {
        'f'
    }
}

/// Runtime form of [`lower_hex_digit`].
pub fn lower_hex_char(n: u32) -> (c: char)
    requires
        n < 16,
    ensures
        c == lower_hex_digit(n as int),
{
    if n == 0 {
        '0'
    } else if n == 1 {
        '1'
    } else if n == 2 {
        '2'
    } else if n == 3 {
        '3'
    } else if n == 4 {
        '4'
    } else if n == 5 {
        '5'
    } else if n == 6 {
        '6'
    } else if n == 7 {
        '7'
    } else if n == 8 {
        '8'
    } else if n == 9 {
        '9'
    } else if n == 10 {
        'a'
    } else if n == 11 {
        'b'
    } else if n == 12 {
        'c'
    } else if n == 13 {
        'd'
    } else if n == 14 {
        'e'
    } else {
        'f'
    }
}

} // verus!
