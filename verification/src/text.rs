//! Character-level operations on text: searching, prefixes and trimming.
//!
//! Text is modelled as `Seq<char>`. The executable functions work on a
//! `Vec<char>` obtained once from the string, so that every position is a
//! character position.

use vstd::prelude::*;

verus! {

/// Whether `c` has the Unicode `White_Space` property.
pub open spec fn is_whitespace(c: char) -> bool {
    let n = c as u32;
    ||| 0x09 <= n <= 0x0d
    ||| n == 0x20
    ||| n == 0x85
    ||| n == 0xa0
    ||| n == 0x1680
    ||| 0x2000 <= n <= 0x200a
    ||| n == 0x2028
    ||| n == 0x2029
    ||| n == 0x202f
    ||| n == 0x205f
    ||| n == 0x3000
}

/// Tests a character for the `White_Space` property.
pub fn char_is_whitespace(c: char) -> (r: bool)
    ensures
        r == is_whitespace(c),
{
    let n: u32 = c as u32;
    (0x09 <= n && n <= 0x0d) || n == 0x20 || n == 0x85 || n == 0xa0 || n == 0x1680 || (0x2000 <= n
        && n <= 0x200a) || n == 0x2028 || n == 0x2029 || n == 0x202f || n == 0x205f || n == 0x3000
}

/// The characters of `s`, in order.
pub fn to_chars(s: &str) -> (v: Vec<char>)
    ensures
        v@ == s@,
{
    let mut v: Vec<char> = Vec::new();
    for c in it: s.chars()
        invariant
            v@ == it.seq().take(it.index()),
            it.seq() == s@,
    {
        v.push(c);
    }
    v
}

/// The characters of `s` from position `from` up to, not including, `to`,
/// as a string of their own.
pub fn slice_to_string(s: &str, from: usize, to: usize) -> (r: String)
    requires
        from <= to <= s@.len(),
    ensures
        r@ == s@.subrange(from as int, to as int),
{
    s.substring_char(from, to).to_owned()
}

/// The view of an optional string.
pub open spec fn option_text(o: Option<String>) -> Option<Seq<char>> {
    match o {
        Some(s) => Some(s@),
        None => None,
    }
}

/// The least index in `from..to` at which `f` holds, or `to` if there is none.
pub open spec fn least_index(f: spec_fn(int) -> bool, from: int, to: int) -> int
    decreases to - from,
{
    if from >= to {
        to
    } else if f(from) {
        from
    } else {
        least_index(f, from + 1, to)
    }
}

/// `least_index` lies in the range, nothing before it satisfies `f`, and it
/// satisfies `f` unless it is the end of the range.
pub proof fn lemma_least_index(f: spec_fn(int) -> bool, from: int, to: int)
    requires
        from <= to,
    ensures
        from <= least_index(f, from, to) <= to,
        forall|k: int| from <= k < least_index(f, from, to) ==> !#[trigger] f(k),
        least_index(f, from, to) < to ==> f(least_index(f, from, to)),
    decreases to - from,
{
    if from < to && !f(from) {
        lemma_least_index(f, from + 1, to);
    }
}

/// A stretch in which `f` never holds may be skipped.
pub proof fn lemma_least_index_skip(f: spec_fn(int) -> bool, from: int, mid: int, to: int)
    requires
        from <= mid <= to,
        forall|k: int| from <= k < mid ==> !#[trigger] f(k),
    ensures
        least_index(f, from, to) == least_index(f, mid, to),
    decreases mid - from,
{
    if from < mid {
        lemma_least_index_skip(f, from + 1, mid, to);
    }
}

/// Whether `p` stands in `s` at position `i`.
pub open spec fn occurs_at(s: Seq<char>, p: Seq<char>, i: int) -> bool {
    0 <= i && i + p.len() <= s.len() && s.subrange(i, i + p.len()) == p
}

/// Whether `s` begins with `p`.
pub open spec fn starts_with(s: Seq<char>, p: Seq<char>) -> bool {
    occurs_at(s, p, 0)
}

/// `occurs_at` as a predicate on positions.
pub open spec fn occurrence_in(s: Seq<char>, p: Seq<char>) -> spec_fn(int) -> bool {
    |i: int| occurs_at(s, p, i)
}

/// The position of the first occurrence of `p` in `s`, if it occurs at all.
/// The empty text occurs at position 0.
pub open spec fn first_occurrence(s: Seq<char>, p: Seq<char>) -> Option<int> {
    let i = least_index(occurrence_in(s, p), 0, s.len() as int + 1);
    if i <= s.len() {
        Some(i)
    } else {
        None
    }
}

/// What `first_occurrence` finds is an occurrence with none before it, and
/// it finds one whenever there is one.
pub proof fn lemma_first_occurrence(s: Seq<char>, p: Seq<char>)
    ensures
        first_occurrence(s, p) matches Some(i) ==> occurs_at(s, p, i) && forall|k: int|
            0 <= k < i ==> !occurs_at(s, p, k),
        first_occurrence(s, p) is None ==> forall|k: int| !occurs_at(s, p, k),
{
    let f = occurrence_in(s, p);
    let i = least_index(f, 0, s.len() as int + 1);
    lemma_least_index(f, 0, s.len() as int + 1);
    assert forall|k: int| 0 <= k < i implies !occurs_at(s, p, k) by {
        assert(!f(k));
    }
    assert forall|k: int| i > s.len() implies !occurs_at(s, p, k) by {
        assert(k < 0 || k > s.len() || !f(k));
    }
}

/// Whether `needle` stands in `hay[..to]` at position `at`.
pub fn occurs_within(hay: &Vec<char>, needle: &Vec<char>, at: usize, to: usize) -> (r: bool)
    requires
        at <= to <= hay.len(),
    ensures
        r == occurs_at(hay@.subrange(0, to as int), needle@, at as int),
{
    if needle.len() > to - at {
        return false;
    }
    let n = needle.len();
    let mut k: usize = 0;
    while k < n
        invariant
            k <= n,
            n == needle.len(),
            at + n <= to <= hay.len(),
            forall|j: int| 0 <= j < k ==> hay@[at + j] == needle@[j],
        decreases n - k,
    {
        if hay[at + k] != needle[k] {
            return false;
        }
        k += 1;
    }
    assert(hay@.subrange(0, to as int).subrange(at as int, at + n) =~= needle@);
    true
}

/// Finds the first occurrence of `needle` in `hay`.
pub fn find(hay: &Vec<char>, needle: &Vec<char>) -> (r: Option<usize>)
    ensures
        match r {
            Some(i) => first_occurrence(hay@, needle@) == Some(i as int),
            None => first_occurrence(hay@, needle@) is None,
        },
{
    let ghost f = occurrence_in(hay@, needle@);
    let n = hay.len();
    let mut i: usize = 0;
    while i <= n
        invariant
            i <= n + 1,
            n == hay.len(),
            f == occurrence_in(hay@, needle@),
            hay@.subrange(0, n as int) == hay@,
            forall|k: int| 0 <= k < i ==> !#[trigger] f(k),
        decreases n + 1 - i,
    {
        if occurs_within(hay, needle, i, n) {
            proof {
                lemma_least_index_skip(f, 0, i as int, n + 1);
            }
            return Some(i);
        }
        if i == n {
            proof {
                lemma_least_index_skip(f, 0, n + 1, n + 1);
            }
            return None;
        }
        i += 1;
    }
    proof {
        lemma_least_index_skip(f, 0, n + 1, n + 1);
    }
    None
}

/// `s` without the white space at its start.
pub open spec fn trim_start(s: Seq<char>) -> Seq<char>
    decreases s.len(),
{
    if s.len() > 0 && is_whitespace(s[0]) {
        trim_start(s.skip(1))
    } else {
        s
    }
}

/// `s` without the white space at its end.
pub open spec fn trim_end(s: Seq<char>) -> Seq<char>
    decreases s.len(),
{
    if s.len() > 0 && is_whitespace(s.last()) {
        trim_end(s.drop_last())
    } else {
        s
    }
}

/// `s` without the white space at either end.
pub open spec fn trimmed(s: Seq<char>) -> Seq<char> {
    trim_end(trim_start(s))
}

/// The bounds of what is left of `chars[from..to]` after trimming.
pub fn trim_range(chars: &Vec<char>, from: usize, to: usize) -> (r: (usize, usize))
    requires
        from <= to <= chars.len(),
    ensures
        from <= r.0 <= r.1 <= to,
        chars@.subrange(r.0 as int, r.1 as int) == trimmed(chars@.subrange(from as int, to as int)),
{
    let mut a = from;
    while a < to && char_is_whitespace(chars[a])
        invariant
            from <= a <= to <= chars.len(),
            trim_start(chars@.subrange(from as int, to as int)) == trim_start(
                chars@.subrange(a as int, to as int),
            ),
        decreases to - a,
    {
        assert(chars@.subrange(a as int, to as int).skip(1) =~= chars@.subrange(
            a + 1,
            to as int,
        ));
        a += 1;
    }
    let mut b = to;
    while b > a && char_is_whitespace(chars[b - 1])
        invariant
            a <= b <= to <= chars.len(),
            trim_end(chars@.subrange(a as int, to as int)) == trim_end(
                chars@.subrange(a as int, b as int),
            ),
        decreases b - a,
    {
        assert(chars@.subrange(a as int, b as int).drop_last() =~= chars@.subrange(
            a as int,
            b - 1,
        ));
        b -= 1;
    }
    (a, b)
}

} // verus!
