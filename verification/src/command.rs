//! The command vocabulary and the parser that turns the first two
//! tokens of an input line into a closed set of command variants.
//! Verb matching is case-sensitive exact matching; a verb/argument
//! shape outside the vocabulary becomes `Invalid`, carrying verb and
//! argument rendered as empty strings where absent.

use vstd::prelude::*;
use crate::text::str_eq;
use crate::tokenize::{first_two_tokens, opt_str_view, spec_token1, spec_token2};

verus! {

/// What the user asked for, decoupled from how it was typed.
pub enum Command {
    Help,
    Load { path: String },
    Connect { url: String },
    Quit,
    FnList,
    AnalyzeAll,
    Analyze { name: String },
    Dot { name: String },
    Ir { name: String },
    DecompileAll,
    Decompile { name: String },
    Invalid { verb: String, arg: String },
}

/// The text of an optional token, with absence rendered as the empty
/// string, as the invalid-command message requires.
pub open spec fn token_text(t: Option<Seq<char>>) -> Seq<char> {
    match t {
        Some(s) => s,
        None => Seq::empty(),
    }
}

/// `c` is the invalid-command variant carrying exactly `v` and `a`.
pub open spec fn is_invalid(c: Command, v: Seq<char>, a: Seq<char>) -> bool {
    c matches Command::Invalid { verb, arg } && verb@ == v && arg@ == a
}

/// The parser's contract, one case per verb of the fixed vocabulary,
/// in the order the dispatch examines them. The wildcard argument `*`
/// is matched before the named-function forms of `analyze` and
/// `decompile`, so `*` is never taken for a function name.
pub open spec fn parses_to(verb: Option<Seq<char>>, arg: Option<Seq<char>>, c: Command) -> bool {
    match verb {
        None => is_invalid(c, Seq::empty(), token_text(arg)),
        Some(v) => if v == "help"@ {
            c matches Command::Help
        } else if v == "load"@ {
            match arg {
                Some(a) => c matches Command::Load { path } && path@ == a,
                None => is_invalid(c, v, Seq::empty()),
            }
        } else if v == "connect"@ {
            match arg {
                Some(a) => c matches Command::Connect { url } && url@ == a,
                None => is_invalid(c, v, Seq::empty()),
            }
        } else if v == "quit"@ {
            c matches Command::Quit
        } else if v == "fn_list"@ {
            c matches Command::FnList
        } else if v == "analyze"@ {
            match arg {
                Some(a) => if a == "*"@ {
                    c matches Command::AnalyzeAll
                } else {
                    c matches Command::Analyze { name } && name@ == a
                },
                None => is_invalid(c, v, Seq::empty()),
            }
        } else if v == "dot"@ {
            match arg {
                Some(a) => c matches Command::Dot { name } && name@ == a,
                None => is_invalid(c, v, Seq::empty()),
            }
        } else if v == "ir"@ {
            match arg {
                Some(a) => c matches Command::Ir { name } && name@ == a,
                None => is_invalid(c, v, Seq::empty()),
            }
        } else if v == "decompile"@ {
            match arg {
                Some(a) => if a == "*"@ {
                    c matches Command::DecompileAll
                } else {
                    c matches Command::Decompile { name } && name@ == a
                },
                None => is_invalid(c, v, Seq::empty()),
            }
        } else {
            is_invalid(c, v, token_text(arg))
        },
    }
}

/// The text of an optional token as an owned string.
fn owned_token_text(t: Option<&str>) -> (r: String)
    ensures
        r@ == token_text(opt_str_view(t)),
{
    match t {
        Some(s) => s.to_owned(),
        None => String::new(),
    }
}

/// Parse a verb token and an optional argument token into a command.
pub fn parse(verb: Option<&str>, arg: Option<&str>) -> (c: Command)
    ensures
        parses_to(opt_str_view(verb), opt_str_view(arg), c),
{
    match verb {
        None => Command::Invalid { verb: String::new(), arg: owned_token_text(arg) },
        Some(v) => {
            if str_eq(v, "help") {
                Command::Help
            } else if str_eq(v, "load") {
                match arg {
                    Some(a) => Command::Load { path: a.to_owned() },
                    None => Command::Invalid { verb: v.to_owned(), arg: String::new() },
                }
            } else if str_eq(v, "connect") {
                match arg {
                    Some(a) => Command::Connect { url: a.to_owned() },
                    None => Command::Invalid { verb: v.to_owned(), arg: String::new() },
                }
            } else if str_eq(v, "quit") {
                Command::Quit
            } else if str_eq(v, "fn_list") {
                Command::FnList
            } else if str_eq(v, "analyze") {
                match arg {
                    Some(a) => if str_eq(a, "*") {
                        Command::AnalyzeAll
                    } else {
                        Command::Analyze { name: a.to_owned() }
                    },
                    None => Command::Invalid { verb: v.to_owned(), arg: String::new() },
                }
            } else if str_eq(v, "dot") {
                match arg {
                    Some(a) => Command::Dot { name: a.to_owned() },
                    None => Command::Invalid { verb: v.to_owned(), arg: String::new() },
                }
            } else if str_eq(v, "ir") {
                match arg {
                    Some(a) => Command::Ir { name: a.to_owned() },
                    None => Command::Invalid { verb: v.to_owned(), arg: String::new() },
                }
            } else if str_eq(v, "decompile") {
                match arg {
                    Some(a) => if str_eq(a, "*") {
                        Command::DecompileAll
                    } else {
                        Command::Decompile { name: a.to_owned() }
                    },
                    None => Command::Invalid { verb: v.to_owned(), arg: String::new() },
                }
            } else {
                Command::Invalid { verb: v.to_owned(), arg: owned_token_text(arg) }
            }
        },
    }
}

/// Parse a whole input line: split off the first two tokens, then
/// parse them.
pub fn parse_line(line: &str) -> (c: Command)
    ensures
        parses_to(spec_token1(line@), spec_token2(line@), c),
{
    let (t1, t2) = first_two_tokens(line);
    let o1: Option<&str> = match &t1 {
        Some(s) => Some(s.as_str()),
        None => None,
    };
    let o2: Option<&str> = match &t2 {
        Some(s) => Some(s.as_str()),
        None => None,
    };
    parse(o1, o2)
}

/// The wildcard `*` is routed to whole-project analysis, never taken
/// for a function name.
pub proof fn lemma_wildcard_analyze_is_whole_project(verb: Seq<char>, arg: Seq<char>, c: Command)
    requires
        verb == "analyze"@,
        arg == "*"@,
        parses_to(Some(verb), Some(arg), c),
    ensures
        c matches Command::AnalyzeAll,
        !(c is Analyze),
{
    reveal_strlit("help");
    reveal_strlit("load");
    reveal_strlit("connect");
    reveal_strlit("quit");
    reveal_strlit("fn_list");
    reveal_strlit("analyze");
    assert("help"@.len() == 4);
    assert("load"@.len() == 4);
    assert("quit"@.len() == 4);
    assert("connect"@.len() == 7);
    assert("fn_list"@.len() == 7);
    assert("analyze"@.len() == 7);
    assert("analyze"@[0] == 'a' && "connect"@[0] == 'c' && "fn_list"@[0] == 'f');
}

/// The wildcard `*` is routed to whole-project decompilation, never
/// taken for a function name.
pub proof fn lemma_wildcard_decompile_is_whole_project(verb: Seq<char>, arg: Seq<char>, c: Command)
    requires
        verb == "decompile"@,
        arg == "*"@,
        parses_to(Some(verb), Some(arg), c),
    ensures
        c matches Command::DecompileAll,
        !(c is Decompile),
{
    reveal_strlit("help");
    reveal_strlit("load");
    reveal_strlit("connect");
    reveal_strlit("quit");
    reveal_strlit("fn_list");
    reveal_strlit("analyze");
    reveal_strlit("dot");
    reveal_strlit("ir");
    reveal_strlit("decompile");
    assert("help"@.len() == 4);
    assert("load"@.len() == 4);
    assert("quit"@.len() == 4);
    assert("connect"@.len() == 7);
    assert("fn_list"@.len() == 7);
    assert("analyze"@.len() == 7);
    assert("dot"@.len() == 3);
    assert("ir"@.len() == 2);
    assert("decompile"@.len() == 9);
}

} // verus!
