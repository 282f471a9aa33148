//! The command router: decides, from a parsed command and the state of
//! the project store, which operation runs next. The decision is a
//! closed set of directives; the caller performs the I/O and the
//! collaborator calls a directive names, and nothing else. `help`,
//! `load`, `connect` and `quit` are dispatched before the loaded-
//! project precondition; every other command requires a project.

use vstd::prelude::*;
use crate::command::Command;
use crate::message::ShellError;
use crate::source::{http_prefix, is_http, is_tcp, tcp_prefix};
use crate::text::{has_prefix, tail_from};

verus! {

/// What the shell must do next for one command.
pub enum Directive {
    /// Print the fixed usage text.
    ShowHelp,
    /// Check `path` on disk; load it into the store if it is a file.
    TryLoad { path: String },
    /// Ask the remote HTTP loader for a project at `addr`.
    ConnectHttp { addr: String },
    /// Ask the remote TCP loader for a project at `addr`.
    ConnectTcp { addr: String },
    /// Exit the process with code 0.
    Quit,
    /// List the functions of the current project.
    ListFunctions,
    /// Run whole-project analysis.
    AnalyzeAll,
    /// Analyze one function.
    AnalyzeOne { name: String },
    /// Render one function's SSA form as a dot graph.
    EmitDot { name: String },
    /// Render one function's intermediate representation.
    EmitIr { name: String },
    /// Decompile every function.
    DecompileAll,
    /// Decompile one function.
    DecompileOne { name: String },
    /// Print an error message and do nothing else.
    Report { error: ShellError },
}

/// The router's contract, one case per command variant.
pub open spec fn routes_to(c: Command, loaded: bool, d: Directive) -> bool {
    match c {
        Command::Help => d matches Directive::ShowHelp,
        Command::Load { path } => d matches Directive::TryLoad { path: p } && p@ == path@,
        Command::Connect { url } => if has_prefix(url@, http_prefix()) {
            d matches Directive::ConnectHttp { addr } && addr@ == url@.skip(
                http_prefix().len() as int,
            )
        } else if has_prefix(url@, tcp_prefix()) {
            d matches Directive::ConnectTcp { addr } && addr@ == url@.skip(
                tcp_prefix().len() as int,
            )
        } else {
            d matches Directive::Report { error } && error matches ShellError::InvalidUrl
        },
        Command::Quit => d matches Directive::Quit,
        Command::FnList => if loaded {
            d matches Directive::ListFunctions
        } else {
            needs_project(d)
        },
        Command::AnalyzeAll => if loaded {
            d matches Directive::AnalyzeAll
        } else {
            needs_project(d)
        },
        Command::Analyze { name } => if loaded {
            d matches Directive::AnalyzeOne { name: n } && n@ == name@
        } else {
            needs_project(d)
        },
        Command::Dot { name } => if loaded {
            d matches Directive::EmitDot { name: n } && n@ == name@
        } else {
            needs_project(d)
        },
        Command::Ir { name } => if loaded {
            d matches Directive::EmitIr { name: n } && n@ == name@
        } else {
            needs_project(d)
        },
        Command::DecompileAll => if loaded {
            d matches Directive::DecompileAll
        } else {
            needs_project(d)
        },
        Command::Decompile { name } => if loaded {
            d matches Directive::DecompileOne { name: n } && n@ == name@
        } else {
            needs_project(d)
        },
        Command::Invalid { verb, arg } => if loaded {
            d matches Directive::Report { error } && error matches ShellError::InvalidCommand {
                verb: v,
                arg: a,
            } && v@ == verb@ && a@ == arg@
        } else {
            needs_project(d)
        },
    }
}

/// `d` only reports that a project must be loaded first.
pub open spec fn needs_project(d: Directive) -> bool {
    d matches Directive::Report { error } && error matches ShellError::NoProjectLoaded
}

/// Route one command against the current store state.
pub fn route(c: Command, loaded: bool) -> (d: Directive)
    ensures
        routes_to(c, loaded, d),
{
    match c {
        Command::Help => Directive::ShowHelp,
        Command::Load { path } => Directive::TryLoad { path },
        Command::Connect { url } => {
            if is_http(url.as_str()) {
                let plen = "http://".unicode_len();
                Directive::ConnectHttp { addr: tail_from(url.as_str(), plen) }
            } else if is_tcp(url.as_str()) {
                let plen = "tcp://".unicode_len();
                Directive::ConnectTcp { addr: tail_from(url.as_str(), plen) }
            } else {
                Directive::Report { error: ShellError::InvalidUrl }
            }
        },
        Command::Quit => Directive::Quit,
        Command::FnList => {
            if loaded {
                Directive::ListFunctions
            } else {
                Directive::Report { error: ShellError::NoProjectLoaded }
            }
        },
        Command::AnalyzeAll => {
            if loaded {
                Directive::AnalyzeAll
            } else {
                Directive::Report { error: ShellError::NoProjectLoaded }
            }
        },
        Command::Analyze { name } => {
            if loaded {
                Directive::AnalyzeOne { name }
            } else {
                Directive::Report { error: ShellError::NoProjectLoaded }
            }
        },
        Command::Dot { name } => {
            if loaded {
                Directive::EmitDot { name }
            } else {
                Directive::Report { error: ShellError::NoProjectLoaded }
            }
        },
        Command::Ir { name } => {
            if loaded {
                Directive::EmitIr { name }
            } else {
                Directive::Report { error: ShellError::NoProjectLoaded }
            }
        },
        Command::DecompileAll => {
            if loaded {
                Directive::DecompileAll
            } else {
                Directive::Report { error: ShellError::NoProjectLoaded }
            }
        },
        Command::Decompile { name } => {
            if loaded {
                Directive::DecompileOne { name }
            } else {
                Directive::Report { error: ShellError::NoProjectLoaded }
            }
        },
        Command::Invalid { verb, arg } => {
            if loaded {
                Directive::Report { error: ShellError::InvalidCommand { verb, arg } }
            } else {
                Directive::Report { error: ShellError::NoProjectLoaded }
            }
        },
    }
}

/// Guards a local load: an existing file passes, any other path is
/// rejected with its not-found message and nothing is loaded for it.
pub fn check_local_path(path: &str, file_exists: bool) -> (r: Option<ShellError>)
    ensures
        file_exists ==> r matches None,
        !file_exists ==> (r matches Some(e) && e matches ShellError::PathNotFound { path: p }
            && p@ == path@),
{
    if file_exists {
        None
    } else {
        Some(ShellError::PathNotFound { path: path.to_owned() })
    }
}

/// Guards a per-function operation: `found` states whether the current
/// project knows the function; an unknown name is rejected with its
/// not-found message.
pub fn check_function_lookup(name: &str, found: bool) -> (r: Option<ShellError>)
    ensures
        found ==> r matches None,
        !found ==> (r matches Some(e) && e matches ShellError::FunctionNotFound { name: n }
            && n@ == name@),
{
    if found {
        None
    } else {
        Some(ShellError::FunctionNotFound { name: name.to_owned() })
    }
}

/// An unrecognized verb/argument pair, issued with a project loaded,
/// always reports the invalid-command message, with verb and argument
/// rendered as empty strings where they were absent.
pub proof fn lemma_invalid_command_message(c: Command, d: Directive, v: Seq<char>, a: Seq<char>)
    requires
        crate::command::is_invalid(c, v, a),
        routes_to(c, true, d),
    ensures
        d matches Directive::Report { error } && crate::message::spec_error_text(error)
            == "Invalid command "@ + v + " "@ + a,
{
}

/// A connect target with the HTTP prefix is handed to the HTTP loader
/// with exactly that prefix stripped, whatever follows it and whatever
/// the store holds.
pub proof fn lemma_connect_strips_http(u: Seq<char>, c: Command, loaded: bool, d: Directive)
    requires
        c matches Command::Connect { url } && url@ == u,
        has_prefix(u, http_prefix()),
        routes_to(c, loaded, d),
    ensures
        d matches Directive::ConnectHttp { addr } && addr@ == u.skip(http_prefix().len() as int),
{
}

/// A connect target with the TCP prefix (and not the HTTP prefix) is
/// handed to the TCP loader with exactly the TCP prefix stripped.
pub proof fn lemma_connect_strips_tcp(u: Seq<char>, c: Command, loaded: bool, d: Directive)
    requires
        c matches Command::Connect { url } && url@ == u,
        !has_prefix(u, http_prefix()),
        has_prefix(u, tcp_prefix()),
        routes_to(c, loaded, d),
    ensures
        d matches Directive::ConnectTcp { addr } && addr@ == u.skip(tcp_prefix().len() as int),
{
}

/// A connect target matching neither scheme only reports the
/// invalid-url message: no loader is named, so the store stays as it
/// was.
pub proof fn lemma_connect_unknown_scheme_rejected(u: Seq<char>, c: Command, loaded: bool, d: Directive)
    requires
        c matches Command::Connect { url } && url@ == u,
        !has_prefix(u, http_prefix()),
        !has_prefix(u, tcp_prefix()),
        routes_to(c, loaded, d),
    ensures
        d matches Directive::Report { error } && error matches ShellError::InvalidUrl,
{
}

/// Whether a command is dispatched before the loaded-project check.
pub open spec fn is_prechecked(c: Command) -> bool {
    c is Help || c is Load || c is Connect || c is Quit
}

/// Every command other than `help`, `load`, `connect` and `quit`,
/// issued while the store is empty, routes to exactly the
/// load-a-project-first report and names no collaborator operation.
pub proof fn lemma_empty_store_blocks_everything(c: Command, d: Directive)
    requires
        !is_prechecked(c),
        routes_to(c, false, d),
    ensures
        needs_project(d),
{
}

} // verus!
