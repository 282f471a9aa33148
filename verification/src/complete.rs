//! The pure parts of the completion provider: matching the fixed verb
//! vocabulary against the current line, and splicing a filesystem
//! suggestion onto the line at the right boundary. The filesystem
//! walk itself is the line editor's business, not this crate's.

use vstd::prelude::*;
use crate::text::{has_prefix, starts_with_prefix};

verus! {

/// The fixed command vocabulary, in the order completions are offered.
pub open spec fn spec_verbs() -> Seq<Seq<char>> {
    seq![
        "help"@,
        "load"@,
        "connect"@,
        "fn_list"@,
        "analyze"@,
        "dot"@,
        "ir"@,
        "decompile"@,
        "quit"@,
    ]
}

/// The members of `vs` that start with `line`, in order.
pub open spec fn spec_prefix_filter(vs: Seq<Seq<char>>, line: Seq<char>) -> Seq<Seq<char>>
    decreases vs.len(),
{
    if vs.len() == 0 {
        Seq::empty()
    } else {
        let init = spec_prefix_filter(vs.drop_last(), line);
        if has_prefix(vs.last(), line) {
            init.push(vs.last())
        } else {
            init
        }
    }
}

/// Every verb of the vocabulary that starts with the current line, in
/// vocabulary order.
pub fn verb_completions(line: &str) -> (r: Vec<String>)
    ensures
        r@.map_values(|s: String| s@) == spec_prefix_filter(spec_verbs(), line@),
{
    let verbs: Vec<&str> = vec![
        "help",
        "load",
        "connect",
        "fn_list",
        "analyze",
        "dot",
        "ir",
        "decompile",
        "quit",
    ];
    proof {
        assert(verbs@.map_values(|s: &str| s@) =~= spec_verbs());
    }
    let mut out: Vec<String> = Vec::new();
    let mut i: usize = 0;
    while i < verbs.len()
        invariant
            i <= verbs.len(),
            verbs@.map_values(|s: &str| s@) == spec_verbs(),
            spec_verbs().len() == verbs.len(),
            out@.map_values(|s: String| s@) == spec_prefix_filter(
                spec_verbs().take(i as int),
                line@,
            ),
        decreases verbs.len() - i,
    {
        let ghost prev = out@.map_values(|s: String| s@);
        if starts_with_prefix(verbs[i], line) {
            out.push(verbs[i].to_owned());
        }
        proof {
            let t = spec_verbs().take(i + 1 as int);
            assert(t.drop_last() =~= spec_verbs().take(i as int));
            assert(t.last() == spec_verbs()[i as int]);
            assert(spec_verbs()[i as int] == verbs@[i as int]@);
            if has_prefix(verbs@[i as int]@, line@) {
                assert(out@.map_values(|s: String| s@) =~= prev.push(verbs@[i as int]@));
            }
            assert(out@.map_values(|s: String| s@) =~= spec_prefix_filter(t, line@));
        }
        i = i + 1;
    }
    proof {
        assert(spec_verbs().take(verbs@.len() as int) =~= spec_verbs());
    }
    out
}

/// The position of the last path separator in `s`, if any.
pub open spec fn last_sep_index(s: Seq<char>) -> Option<int>
    decreases s.len(),
{
    if s.len() == 0 {
        None
    } else if s.last() == '/' {
        Some(s.len() - 1)
    } else {
        last_sep_index(s.drop_last())
    }
}

/// A found separator position lies inside the string.
pub proof fn lemma_last_sep_in_range(s: Seq<char>)
    ensures
        last_sep_index(s) matches Some(i) ==> 0 <= i < s.len(),
    decreases s.len(),
{
    if s.len() > 0 && s.last() != '/' {
        lemma_last_sep_in_range(s.drop_last());
    }
}

/// Find the last path separator of the line.
pub fn find_last_sep(line: &str) -> (r: Option<usize>)
    ensures
        r matches Some(i) ==> last_sep_index(line@) == Some(i as int),
        r matches None ==> last_sep_index(line@) matches None,
{
    let n = line.unicode_len();
    proof {
        assert(line@.take(n as int) =~= line@);
    }
    let mut i = n;
    while i > 0
        invariant
            i <= n,
            n == line@.len(),
            last_sep_index(line@) == last_sep_index(line@.take(i as int)),
        decreases i,
    {
        let c = line.get_char(i - 1);
        proof {
            assert(line@.take(i as int).last() == line@[i - 1]);
            assert(line@.take(i as int).drop_last() =~= line@.take(i - 1));
        }
        if c == '/' {
            return Some(i - 1);
        }
        i = i - 1;
    }
    None
}

/// How a filesystem suggestion is spliced onto the line: everything up
/// to and including the last path separator is kept and the suggestion
/// follows it; a line without a separator keeps its first `boundary`
/// characters instead, the replacement start the filesystem completer
/// reported.
pub open spec fn spec_path_candidate(line: Seq<char>, boundary: int, suggestion: Seq<char>) -> Seq<
    char,
> {
    match last_sep_index(line) {
        Some(i) => line.take(i + 1) + suggestion,
        None => line.take(boundary) + suggestion,
    }
}

/// Splice one filesystem suggestion onto the current line.
pub fn path_candidate(line: &str, boundary: usize, suggestion: &str) -> (r: String)
    requires
        boundary <= line@.len(),
    ensures
        r@ == spec_path_candidate(line@, boundary as int, suggestion@),
{
    proof {
        lemma_last_sep_in_range(line@);
    }
    let n = line.unicode_len();
    let sep = find_last_sep(line);
    match sep {
        Some(i) => {
            let mut out = line.substring_char(0, i + 1).to_owned();
            out.append(suggestion);
            out
        },
        None => {
            let mut out = line.substring_char(0, boundary).to_owned();
            out.append(suggestion);
            out
        },
    }
}

} // verus!
