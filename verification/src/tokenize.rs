//! Splitting a raw command line into its verb and optional argument:
//! at most two whitespace-delimited tokens; anything after the second
//! token is ignored.

use vstd::prelude::*;

verus! {

/// The delimiter set: ASCII whitespace.
pub open spec fn is_space_char(c: char) -> bool {
    c == ' ' || c == '\t' || c == '\n' || c == '\r' || c == '\u{000B}' || c == '\u{000C}'
}

/// Executable test for `is_space_char`.
pub fn is_space(c: char) -> (r: bool)
    ensures
        r == is_space_char(c),
{
    c == ' ' || c == '\t' || c == '\n' || c == '\r' || c == '\u{000B}' || c == '\u{000C}'
}

/// The first position at or after `i` holding a non-space character,
/// or the length of `s` if there is none.
pub open spec fn next_non_space(s: Seq<char>, i: int) -> int
    decreases s.len() - i
        when 0 <= i <= s.len()
{
    if i >= s.len() {
        s.len() as int
    } else if is_space_char(s[i]) {
        next_non_space(s, i + 1)
    } else {
        i
    }
}

/// The first position at or after `i` holding a space character, or
/// the length of `s` if there is none.
pub open spec fn next_space(s: Seq<char>, i: int) -> int
    decreases s.len() - i
        when 0 <= i <= s.len()
{
    if i >= s.len() {
        s.len() as int
    } else if !is_space_char(s[i]) {
        next_space(s, i + 1)
    } else {
        i
    }
}

/// Both scans stay between their start and the end of the string.
pub proof fn lemma_scan_bounds(s: Seq<char>, i: int)
    requires
        0 <= i <= s.len(),
    ensures
        i <= next_non_space(s, i) <= s.len(),
        i <= next_space(s, i) <= s.len(),
    decreases s.len() - i,
{
    if i < s.len() {
        lemma_scan_bounds(s, i + 1);
    }
}

/// Everything skipped by the non-space scan is space, and the scan
/// stops at a non-space character when it stops inside the string.
pub proof fn lemma_next_non_space_chars(s: Seq<char>, i: int)
    requires
        0 <= i <= s.len(),
    ensures
        forall|j: int| i <= j < next_non_space(s, i) ==> is_space_char(s[j]),
        next_non_space(s, i) < s.len() ==> !is_space_char(s[next_non_space(s, i)]),
    decreases s.len() - i,
{
    lemma_scan_bounds(s, i);
    if i < s.len() && is_space_char(s[i]) {
        lemma_next_non_space_chars(s, i + 1);
    }
}

/// Everything skipped by the space scan is non-space.
pub proof fn lemma_next_space_chars(s: Seq<char>, i: int)
    requires
        0 <= i <= s.len(),
    ensures
        forall|j: int| i <= j < next_space(s, i) ==> !is_space_char(s[j]),
    decreases s.len() - i,
{
    if i < s.len() && !is_space_char(s[i]) {
        lemma_next_space_chars(s, i + 1);
    }
}

/// The first token of `s`: the maximal run of non-space characters
/// starting at the first non-space position, if any.
pub open spec fn spec_token1(s: Seq<char>) -> Option<Seq<char>> {
    let a = next_non_space(s, 0);
    if a == s.len() {
        None
    } else {
        Some(s.subrange(a, next_space(s, a)))
    }
}

/// The second token of `s`, if any.
pub open spec fn spec_token2(s: Seq<char>) -> Option<Seq<char>> {
    let a = next_non_space(s, 0);
    let b = next_space(s, a);
    let c = next_non_space(s, b);
    if c == s.len() {
        None
    } else {
        Some(s.subrange(c, next_space(s, c)))
    }
}

/// Each extracted token is a non-empty run of non-space characters:
/// the splitter never hands out delimiters or empty tokens.
pub proof fn lemma_tokens_are_nonspace_runs(s: Seq<char>)
    ensures
        spec_token1(s) matches Some(t) ==> t.len() > 0 && (forall|j: int|
            0 <= j < t.len() ==> !is_space_char(t[j])),
        spec_token2(s) matches Some(t) ==> t.len() > 0 && (forall|j: int|
            0 <= j < t.len() ==> !is_space_char(t[j])),
{
    lemma_scan_bounds(s, 0);
    lemma_next_non_space_chars(s, 0);
    let a = next_non_space(s, 0);
    lemma_scan_bounds(s, a);
    lemma_next_space_chars(s, a);
    if a < s.len() {
        lemma_scan_bounds(s, a + 1);
    }
    let b = next_space(s, a);
    lemma_scan_bounds(s, b);
    lemma_next_non_space_chars(s, b);
    let c = next_non_space(s, b);
    lemma_scan_bounds(s, c);
    lemma_next_space_chars(s, c);
    if c < s.len() {
        lemma_scan_bounds(s, c + 1);
    }
}

/// The view of an optional owned token.
pub open spec fn opt_string_view(o: Option<String>) -> Option<Seq<char>> {
    match o {
        Some(s) => Some(s@),
        None => None,
    }
}

/// The view of an optional borrowed token.
pub open spec fn opt_str_view(o: Option<&str>) -> Option<Seq<char>> {
    match o {
        Some(s) => Some(s@),
        None => None,
    }
}

/// Scan forward from `from` to the first non-space character.
fn scan_non_space(s: &str, from: usize) -> (r: usize)
    requires
        from <= s@.len(),
    ensures
        r == next_non_space(s@, from as int),
        from <= r <= s@.len(),
{
    let n = s.unicode_len();
    let mut i = from;
    while i < n && is_space(s.get_char(i))
        invariant
            from <= i <= n,
            n == s@.len(),
            next_non_space(s@, from as int) == next_non_space(s@, i as int),
        decreases n - i,
    {
        i = i + 1;
    }
    proof {
        lemma_scan_bounds(s@, from as int);
    }
    i
}

/// Scan forward from `from` to the first space character.
fn scan_space(s: &str, from: usize) -> (r: usize)
    requires
        from <= s@.len(),
    ensures
        r == next_space(s@, from as int),
        from <= r <= s@.len(),
{
    let n = s.unicode_len();
    let mut i = from;
    while i < n && !is_space(s.get_char(i))
        invariant
            from <= i <= n,
            n == s@.len(),
            next_space(s@, from as int) == next_space(s@, i as int),
        decreases n - i,
    {
        i = i + 1;
    }
    proof {
        lemma_scan_bounds(s@, from as int);
    }
    i
}

/// Split a command line into its first two whitespace-delimited tokens.
pub fn first_two_tokens(line: &str) -> (r: (Option<String>, Option<String>))
    ensures
        opt_string_view(r.0) == spec_token1(line@),
        opt_string_view(r.1) == spec_token2(line@),
{
    let n = line.unicode_len();
    let a = scan_non_space(line, 0);
    if a == n {
        return (None, None);
    }
    let b = scan_space(line, a);
    let t1 = line.substring_char(a, b).to_owned();
    let c = scan_non_space(line, b);
    if c == n {
        return (Some(t1), None);
    }
    let d = scan_space(line, c);
    let t2 = line.substring_char(c, d).to_owned();
    (Some(t1), Some(t2))
}

} // verus!
