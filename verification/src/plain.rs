//! The texts of interfaces that are handed to the loader.
//!
//! The loader comes from outside the library. It takes every string that
//! stands in the place of a parameter type apart as it meets it, whatever
//! follows in the text. A string that ends in a closing parenthesis or
//! bracket it cuts at positions counted in characters, and from a closing
//! bracket it steps back over the digits before it to the bracket that opens
//! it, once for every level of the type. Any other string it takes as a
//! whole. The predicate of this module names the texts in which every string
//! of the first sort is one on which none of that leaves the string, and its
//! function tests it.
//!
//! Strings are told apart as a reader of JSON does: a string runs from a
//! double quote to the next double quote that no backslash escapes. An
//! escape by number may stand for any character, so a string that holds one
//! is not taken for plain, and one that ends in one is taken for a string
//! that may end in a bracket. Every other escape stands for one character
//! that the loader's reader takes like a letter.

use crate::text::to_chars;
use vstd::prelude::*;

verus! {

/// A string that ends in a closing parenthesis or bracket holds no more
/// characters than this.
pub const MAX_LITERAL_LEN: usize = 256;

/// Where a reader of JSON stands in a text: whether inside a string, whether
/// directly after a backslash that escapes the next character, and where the
/// string began that it is in or was in last.
pub struct LexState {
    pub inside: bool,
    pub escaped: bool,
    pub start: int,
}

/// Where a reader of JSON stands before position `i` of `s`.
pub open spec fn lex(s: Seq<char>, i: int) -> LexState
    decreases i,
{
    if i <= 0 {
        LexState { inside: false, escaped: false, start: 0 }
    } else {
        let before = lex(s, i - 1);
        let c = s[i - 1];
        if !before.inside {
            if c == '"' {
                LexState { inside: true, escaped: false, start: i }
            } else {
                before
            }
        } else if before.escaped {
            LexState { escaped: false, ..before }
        } else if c == '\\' {
            LexState { escaped: true, ..before }
        } else if c == '"' {
            LexState { inside: false, ..before }
        } else {
            before
        }
    }
}

/// Whether position `b` of `s` holds the double quote that ends a string.
pub open spec fn ends_literal(s: Seq<char>, b: int) -> bool {
    0 <= b < s.len() && lex(s, b).inside && !lex(s, b).escaped && s[b] == '"'
}

/// Whether the string `s[a..b]`, as it is written, may stand for one that
/// ends in a closing parenthesis or bracket: it ends in one, or its last six
/// characters begin an escape by number.
pub open spec fn may_end_in_bracket(s: Seq<char>, a: int, b: int) -> bool {
    a < b && (s[b - 1] == ')' || s[b - 1] == ']' || (a + 6 <= b && s[b - 6] == '\\' && s[b - 5]
        == 'u'))
}

/// Whether `c` is a decimal digit.
pub open spec fn is_digit(c: char) -> bool {
    '0' <= c <= '9'
}

/// Whether `s[from..to]` holds only digits.
pub open spec fn all_digits(s: Seq<char>, from: int, to: int) -> bool {
    forall|k: int| from <= k < to ==> is_digit(#[trigger] s[k])
}

/// Whether `c` is ASCII, so that it takes up one byte.
pub open spec fn is_ascii_char(c: char) -> bool {
    (c as u32) < 0x80
}

/// Whether `d` directly after `c` begins an escape by number, which may
/// stand for any character. Every other escape stands for one character that
/// is ASCII and neither a digit, a bracket, a parenthesis nor a comma.
pub open spec fn is_numbered_escape(c: char, d: char) -> bool {
    c == '\\' && d == 'u'
}

/// Whether position `j` of the string `s[a..b]` holds a closing bracket.
pub open spec fn closing_at(s: Seq<char>, a: int, b: int, j: int) -> bool {
    a <= j < b && s[j] == ']'
}

/// Whether position `i` of the string that begins at `a` holds an opening
/// bracket and only digits stand between it and position `j`.
pub open spec fn closes(s: Seq<char>, a: int, i: int, j: int) -> bool {
    a <= i < j && s[i] == '[' && all_digits(s, i + 1, j)
}

/// Whether the string `s[a..b]` is one that the loader's reader of types
/// stays inside: no longer than `MAX_LITERAL_LEN`, of ASCII characters,
/// without an escape by number, and with an opening bracket before every
/// closing one and only digits between the two.
pub open spec fn is_plain_literal(s: Seq<char>, a: int, b: int) -> bool {
    &&& b - a <= MAX_LITERAL_LEN
    &&& forall|k: int| a <= k < b ==> is_ascii_char(#[trigger] s[k])
    &&& forall|k: int| a <= k && k + 1 < b ==> !is_numbered_escape(#[trigger] s[k], s[k + 1])
    &&& forall|j: int| #[trigger] closing_at(s, a, b, j) ==> exists|i: int| closes(s, a, i, j)
}

/// Whether the string `s[a..b]` may be handed on: it is plain, or it cannot
/// stand for a string that ends in a closing parenthesis or bracket.
pub open spec fn literal_ok(s: Seq<char>, a: int, b: int) -> bool {
    may_end_in_bracket(s, a, b) ==> is_plain_literal(s, a, b)
}

/// The texts of interfaces that are handed on: those in which every string
/// may be handed on. What stands outside the strings is not looked at.
pub open spec fn is_plain_interface_text(s: Seq<char>) -> bool {
    forall|b: int| #[trigger] ends_literal(s, b) ==> literal_ok(s, lex(s, b).start, b)
}

/// Tests whether the string `chars[a..b]` may be handed on.
fn check_literal(chars: &Vec<char>, a: usize, b: usize) -> (r: bool)
    requires
        a <= b <= chars.len(),
    ensures
        r == literal_ok(chars@, a as int, b as int),
{
    if a == b {
        return true;
    }
    let last = chars[b - 1];
    let by_number = b - a >= 6 && chars[b - 6] == '\\' && chars[b - 5] == 'u';
    if !(last == ')' || last == ']' || by_number) {
        return true;
    }
    if b - a > MAX_LITERAL_LEN {
        return false;
    }
    let mut opened = false;
    let ghost mut at: int = 0;
    let mut j: usize = a;
    while j < b
        invariant
            a <= j <= b <= chars.len(),
            may_end_in_bracket(chars@, a as int, b as int),
            b - a <= MAX_LITERAL_LEN,
            forall|k: int| a <= k < j ==> is_ascii_char(#[trigger] chars@[k]),
            forall|k: int|
                a <= k && k + 1 < j ==> !is_numbered_escape(#[trigger] chars@[k], chars@[k + 1]),
            opened ==> closes(chars@, a as int, at, j as int),
            !opened ==> forall|q: int| !closes(chars@, a as int, q, j as int),
            forall|k: int|
                k < j && #[trigger] closing_at(chars@, a as int, b as int, k) ==> exists|q: int|
                    closes(chars@, a as int, q, k),
        decreases b - j,
    {
        let c = chars[j];
        if (c as u32) >= 0x80 {
            return false;
        }
        if j > a && chars[j - 1] == '\\' && c == 'u' {
            assert(is_numbered_escape(chars@[j - 1], chars@[j - 1 + 1]));
            return false;
        }
        if c == ']' && !opened {
            assert(closing_at(chars@, a as int, b as int, j as int));
            return false;
        }
        proof {
            assert forall|k: int|
                k < j + 1 && #[trigger] closing_at(chars@, a as int, b as int, k) implies exists|
                q: int,
            |
                closes(chars@, a as int, q, k) by {
                if k == j {
                    assert(closes(chars@, a as int, at, k));
                }
            }
        }
        let ghost next: int = j + 1;
        if c == '[' {
            opened = true;
            proof {
                at = j as int;
            }
        } else if !('0' <= c && c <= '9') {
            opened = false;
            assert forall|q: int| !closes(chars@, a as int, q, next) by {
                if a <= q < j {
                    assert(!is_digit(chars@[j as int]));
                }
            }
        } else {
            assert forall|q: int| !opened implies !closes(chars@, a as int, q, next) by {
                if a <= q < j && !opened {
                    assert(!closes(chars@, a as int, q, j as int));
                }
            }
        }
        j += 1;
    }
    true
}

/// Tests the text of an interface.
pub fn check_plain_interface_text(text: &str) -> (r: bool)
    ensures
        r == is_plain_interface_text(text@),
{
    let chars = to_chars(text);
    let n = chars.len();
    let mut inside = false;
    let mut escaped = false;
    let mut start: usize = 0;
    let mut i: usize = 0;
    while i < n
        invariant
            i <= n,
            n == chars.len(),
            chars@ == text@,
            start <= i,
            lex(chars@, i as int) == (LexState { inside, escaped, start: start as int }),
            forall|b: int|
                b < i && #[trigger] ends_literal(chars@, b) ==> literal_ok(
                    chars@,
                    lex(chars@, b).start,
                    b,
                ),
        decreases n - i,
    {
        let c = chars[i];
        if !inside {
            if c == '"' {
                inside = true;
                escaped = false;
                start = i + 1;
            }
        } else if escaped {
            escaped = false;
        } else if c == '\\' {
            escaped = true;
        } else if c == '"' {
            if !check_literal(&chars, start, i) {
                assert(ends_literal(chars@, i as int));
                return false;
            }
            inside = false;
        }
        i += 1;
    }
    true
}

} // verus!
