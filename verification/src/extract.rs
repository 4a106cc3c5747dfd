//! Reads a risk level and an explanation out of free text.
//!
//! The text comes from a language model and follows no grammar. Two markers
//! say where the fields are; a field whose marker is missing is absent.
//!
//! The risk level is looked for line by line: the first line that begins with
//! its marker gives it, as all that follows that line's first colon, trimmed.
//! If that line holds no colon there is no risk level, whatever the lines
//! after it hold. A line ends before a line feed, or before a carriage return
//! that a line feed follows; what follows the last line feed is a line only
//! if it is not empty.
//!
//! The explanation is looked for anywhere in the text, not line by line: it
//! is all that follows the first occurrence of its marker, without one colon
//! directly after the marker, trimmed.

use crate::text::{
    find, first_occurrence, least_index, lemma_first_occurrence, lemma_least_index,
    lemma_least_index_skip, occurs_within, option_text, slice_to_string, starts_with, to_chars,
    trim_range, trimmed,
};
use crate::ResponseFormat;
use vstd::prelude::*;

verus! {

/// The fields read out of one reply.
#[derive(Debug, Clone, PartialEq, Eq)]
pub struct LlmResponseFields {
    pub risk_level: Option<String>,
    pub explanation: Option<String>,
}

/// Whether a line begins at position `i` of `s`.
pub open spec fn is_line_start(s: Seq<char>, i: int) -> bool {
    0 <= i < s.len() && (i == 0 || s[i - 1] == '\n')
}

/// The positions of `s` that hold the character `c`.
pub open spec fn char_in(s: Seq<char>, c: char) -> spec_fn(int) -> bool {
    |i: int| 0 <= i < s.len() && s[i] == c
}

/// The position of the first line feed at or after `start`, or the length
/// of `s` if there is none.
pub open spec fn line_stop(s: Seq<char>, start: int) -> int {
    least_index(char_in(s, '\n'), start, s.len() as int)
}

/// The content of the line that begins at `start`.
pub open spec fn line_at(s: Seq<char>, start: int) -> Seq<char> {
    let stop = line_stop(s, start);
    if stop < s.len() && start < stop && s[stop - 1] == '\r' {
        s.subrange(start, stop - 1)
    } else {
        s.subrange(start, stop)
    }
}

/// The positions of `s` at which a line begins whose content begins with `p`.
pub open spec fn marked_line_in(s: Seq<char>, p: Seq<char>) -> spec_fn(int) -> bool {
    |i: int| is_line_start(s, i) && starts_with(line_at(s, i), p)
}

/// The content of the first line of `s` that begins with `p`.
pub open spec fn marked_line(s: Seq<char>, p: Seq<char>) -> Option<Seq<char>> {
    let i = least_index(marked_line_in(s, p), 0, s.len() as int);
    if i < s.len() {
        Some(line_at(s, i))
    } else {
        None
    }
}

/// What follows the first colon of `line`, trimmed.
pub open spec fn after_colon(line: Seq<char>) -> Option<Seq<char>> {
    let k = least_index(char_in(line, ':'), 0, line.len() as int);
    if k < line.len() {
        Some(trimmed(line.skip(k + 1)))
    } else {
        None
    }
}

/// The risk level that `s` gives under the marker `p`.
pub open spec fn risk_level_of(s: Seq<char>, p: Seq<char>) -> Option<Seq<char>> {
    match marked_line(s, p) {
        Some(line) => after_colon(line),
        None => None,
    }
}

/// The explanation that `s` gives under the marker `p`.
pub open spec fn explanation_of(s: Seq<char>, p: Seq<char>) -> Option<Seq<char>> {
    match first_occurrence(s, p) {
        Some(i) => {
            let after = i + p.len();
            if after < s.len() && s[after] == ':' {
                Some(trimmed(s.skip(after + 1)))
            } else {
                Some(trimmed(s.skip(after)))
            }
        },
        None => None,
    }
}

/// The first position in `from..to` that holds `c`, or `to`.
fn position_of(chars: &Vec<char>, c: char, from: usize, to: usize) -> (r: usize)
    requires
        from <= to <= chars.len(),
    ensures
        from <= r <= to,
        r == least_index(char_in(chars@, c), from as int, to as int),
{
    let ghost f = char_in(chars@, c);
    let mut k = from;
    while k < to && chars[k] != c
        invariant
            from <= k <= to <= chars.len(),
            f == char_in(chars@, c),
            forall|j: int| from <= j < k ==> !#[trigger] f(j),
        decreases to - k,
    {
        k += 1;
    }
    proof {
        lemma_least_index_skip(f, from as int, k as int, to as int);
    }
    k
}

/// Reads the risk level out of `text`: from the first line that begins with
/// `prefix`, what follows its first colon, trimmed.
pub fn extract_risk_level(text: &str, prefix: &str) -> (r: Option<String>)
    ensures
        option_text(r) == risk_level_of(text@, prefix@),
{
    let chars = to_chars(text);
    let marker = to_chars(prefix);
    let n = chars.len();
    let ghost marked = marked_line_in(chars@, marker@);
    let mut start: usize = 0;
    while start < n
        invariant
            start <= n,
            n == chars.len(),
            chars@ == text@,
            marker@ == prefix@,
            marked == marked_line_in(chars@, marker@),
            start < n ==> is_line_start(chars@, start as int),
            forall|j: int| 0 <= j < start ==> !#[trigger] marked(j),
        decreases n - start,
    {
        let stop = position_of(&chars, '\n', start, n);
        let end = if stop < n && start < stop && chars[stop - 1] == '\r' {
            stop - 1
        } else {
            stop
        };
        let ghost line = chars@.subrange(start as int, end as int);
        let found = occurs_within(&chars, &marker, start, end);
        proof {
            if start + marker@.len() <= end {
                assert(chars@.subrange(0, end as int).subrange(
                    start as int,
                    start + marker@.len(),
                ) =~= line.subrange(0, marker@.len() as int));
            }
        }
        if found {
            proof {
                lemma_least_index_skip(marked, 0, start as int, n as int);
            }
            let colon = position_of(&chars, ':', start, end);
            proof {
                let here = char_in(chars@, ':');
                let there = char_in(line, ':');
                lemma_least_index(here, start as int, end as int);
                assert forall|j: int| 0 <= j < colon - start implies !#[trigger] there(j) by {
                    assert(!here(start + j));
                }
                lemma_least_index_skip(there, 0, colon - start, line.len() as int);
            }
            if colon < end {
                let (a, b) = trim_range(&chars, colon + 1, end);
                assert(line.skip(colon - start + 1) =~= chars@.subrange(colon + 1, end as int));
                return Some(slice_to_string(text, a, b));
            } else {
                return None;
            }
        }
        proof {
            let feed = char_in(chars@, '\n');
            lemma_least_index(feed, start as int, n as int);
            assert forall|j: int| start < j <= stop implies !#[trigger] marked(j) by {
                assert(!feed(j - 1));
            }
        }
        if stop < n {
            start = stop + 1;
        } else {
            start = n;
        }
    }
    proof {
        lemma_least_index_skip(marked, 0, n as int, n as int);
    }
    None
}

/// Reads the explanation out of `text`: all that follows the first occurrence
/// of `prefix`, without one colon directly after it, trimmed.
pub fn extract_explanation(text: &str, prefix: &str) -> (r: Option<String>)
    ensures
        option_text(r) == explanation_of(text@, prefix@),
{
    let chars = to_chars(text);
    let marker = to_chars(prefix);
    let n = chars.len();
    match find(&chars, &marker) {
        Some(i) => {
            proof {
                lemma_first_occurrence(chars@, marker@);
            }
            let after = i + marker.len();
            let from = if after < n && chars[after] == ':' {
                after + 1
            } else {
                after
            };
            let (a, b) = trim_range(&chars, from, n);
            Some(slice_to_string(text, a, b))
        },
        None => None,
    }
}

/// Reads both fields out of `text`. Never fails: a field whose marker does
/// not occur is absent.
pub fn extract(text: &str, markers: &ResponseFormat) -> (r: LlmResponseFields)
    ensures
        option_text(r.risk_level) == risk_level_of(text@, markers.risk_level_prefix@),
        option_text(r.explanation) == explanation_of(text@, markers.explanation_prefix@),
{
    LlmResponseFields {
        risk_level: extract_risk_level(text, markers.risk_level_prefix.as_str()),
        explanation: extract_explanation(text, markers.explanation_prefix.as_str()),
    }
}

} // verus!
