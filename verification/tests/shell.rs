use radeco_shell::command::{parse, parse_line, Command};
use radeco_shell::complete::{path_candidate, verb_completions};
use radeco_shell::message::{render_error, ShellError};
use radeco_shell::modes::{batch_plan, dispatches_line, emits_separator, BatchPlan};
use radeco_shell::output::{help_text, join_lines, pad_to, separator_text};
use radeco_shell::router::{check_function_lookup, check_local_path, route, Directive};
use radeco_shell::source::{is_http, is_tcp, resolve_source, Resolution};
use radeco_shell::store::ProjectStore;
use radeco_shell::text::{starts_with_prefix, str_eq};
use radeco_shell::tokenize::first_two_tokens;

#[test]
fn str_primitives() {
    assert!(str_eq("analyze", "analyze"));
    assert!(!str_eq("analyze", "analyse"));
    assert!(!str_eq("dot", "dots"));
    assert!(starts_with_prefix("http://x", "http://"));
    assert!(!starts_with_prefix("htt", "http://"));
    assert!(starts_with_prefix("anything", ""));
}

#[test]
fn scheme_tests() {
    assert!(is_http("http://host:9090"));
    assert!(!is_http("tcp://host:9090"));
    assert!(is_tcp("tcp://host:9090"));
    assert!(!is_tcp("ftp://host"));
    assert!(!is_http("HTTP://host"));
}

#[test]
fn http_resolution_strips_exact_prefix() {
    match resolve_source("http://host:9090", false) {
        Resolution::Http { addr } => assert_eq!(addr, "host:9090"),
        _ => panic!("expected an HTTP resolution"),
    }
    match resolve_source("http://", false) {
        Resolution::Http { addr } => assert_eq!(addr, ""),
        _ => panic!("expected an HTTP resolution"),
    }
}

#[test]
fn tcp_resolution_strips_exact_prefix() {
    match resolve_source("tcp://localhost:9080", true) {
        Resolution::Tcp { addr } => assert_eq!(addr, "localhost:9080"),
        _ => panic!("expected a TCP resolution"),
    }
}

#[test]
fn unresolvable_source_is_invalid_argument() {
    match resolve_source("no-such-thing", false) {
        Resolution::Invalid { arg } => {
            let msg = render_error(&ShellError::InvalidArgument { arg });
            assert_eq!(msg, "Invalid argument no-such-thing");
        }
        _ => panic!("expected an invalid resolution"),
    }
}

#[test]
fn existing_file_resolves_locally() {
    match resolve_source("./bin/sample", true) {
        Resolution::LocalFile { path } => assert_eq!(path, "./bin/sample"),
        _ => panic!("expected a local-file resolution"),
    }
}

#[test]
fn second_load_wins() {
    let mut store: ProjectStore<u32> = ProjectStore::new();
    assert!(!store.is_loaded());
    store.set(7);
    store.set(8);
    assert!(store.is_loaded());
    assert_eq!(store.get(), Some(&8));
}

#[test]
fn failed_load_leaves_store_unchanged() {
    let mut store: ProjectStore<u32> = ProjectStore::new();
    store.set(7);
    let err = store.apply_load(Err("boom".to_string()));
    assert_eq!(err, Some("boom".to_string()));
    assert_eq!(store.get(), Some(&7));
    let err = store.apply_load(Ok(9));
    assert!(err.is_none());
    assert_eq!(store.get(), Some(&9));
}

#[test]
fn store_take_and_clear() {
    let mut store: ProjectStore<u32> = ProjectStore::new();
    store.set(5);
    assert_eq!(store.take(), Some(5));
    assert!(!store.is_loaded());
    store.set(6);
    store.clear();
    assert!(store.get().is_none());
}

#[test]
fn tokenizer_splits_two_tokens() {
    assert_eq!(first_two_tokens("load ./a.bin"), (Some("load".to_string()), Some("./a.bin".to_string())));
    assert_eq!(first_two_tokens("  analyze   *   extra junk"), (Some("analyze".to_string()), Some("*".to_string())));
    assert_eq!(first_two_tokens("quit"), (Some("quit".to_string()), None));
    assert_eq!(first_two_tokens(""), (None, None));
    assert_eq!(first_two_tokens(" \t "), (None, None));
}

#[test]
fn parse_recognizes_vocabulary() {
    assert!(matches!(parse(Some("help"), None), Command::Help));
    assert!(matches!(parse(Some("help"), Some("x")), Command::Help));
    assert!(matches!(parse(Some("quit"), Some("y")), Command::Quit));
    assert!(matches!(parse(Some("fn_list"), Some("z")), Command::FnList));
    match parse(Some("load"), Some("./a")) {
        Command::Load { path } => assert_eq!(path, "./a"),
        _ => panic!("expected a load command"),
    }
    match parse(Some("connect"), Some("tcp://h")) {
        Command::Connect { url } => assert_eq!(url, "tcp://h"),
        _ => panic!("expected a connect command"),
    }
    match parse(Some("dot"), Some("f")) {
        Command::Dot { name } => assert_eq!(name, "f"),
        _ => panic!("expected a dot command"),
    }
    match parse(Some("ir"), Some("f")) {
        Command::Ir { name } => assert_eq!(name, "f"),
        _ => panic!("expected an ir command"),
    }
}

#[test]
fn wildcard_is_never_a_function_name() {
    assert!(matches!(parse(Some("analyze"), Some("*")), Command::AnalyzeAll));
    assert!(matches!(parse(Some("decompile"), Some("*")), Command::DecompileAll));
    match parse(Some("analyze"), Some("main")) {
        Command::Analyze { name } => assert_eq!(name, "main"),
        _ => panic!("expected a single-function analyze"),
    }
    match parse(Some("decompile"), Some("main")) {
        Command::Decompile { name } => assert_eq!(name, "main"),
        _ => panic!("expected a single-function decompile"),
    }
}

#[test]
fn unmatched_shapes_become_invalid() {
    match parse(Some("frobnicate"), Some("x")) {
        Command::Invalid { verb, arg } => {
            assert_eq!(verb, "frobnicate");
            assert_eq!(arg, "x");
        }
        _ => panic!("expected an invalid command"),
    }
    match parse(Some("load"), None) {
        Command::Invalid { verb, arg } => {
            assert_eq!(verb, "load");
            assert_eq!(arg, "");
        }
        _ => panic!("expected an invalid command"),
    }
    match parse(None, None) {
        Command::Invalid { verb, arg } => {
            assert_eq!(verb, "");
            assert_eq!(arg, "");
        }
        _ => panic!("expected an invalid command"),
    }
}

#[test]
fn empty_store_blocks_everything_but_the_precheck() {
    let blocked = [
        (Some("fn_list"), None),
        (Some("analyze"), Some("*")),
        (Some("analyze"), Some("main")),
        (Some("dot"), Some("main")),
        (Some("ir"), Some("main")),
        (Some("decompile"), Some("*")),
        (Some("decompile"), Some("main")),
        (Some("bogus"), Some("x")),
        (Some("load"), None),
    ];
    for (v, a) in blocked {
        let d = route(parse(v, a), false);
        match d {
            Directive::Report { error } => {
                assert!(matches!(error, ShellError::NoProjectLoaded));
                assert_eq!(render_error(&error), "Load a project first");
            }
            _ => panic!("expected the load-a-project-first report"),
        }
    }
}

#[test]
fn precheck_commands_ignore_the_store() {
    assert!(matches!(route(parse(Some("help"), None), false), Directive::ShowHelp));
    assert!(matches!(route(parse(Some("quit"), None), false), Directive::Quit));
    match route(parse(Some("load"), Some("./a.bin")), false) {
        Directive::TryLoad { path } => assert_eq!(path, "./a.bin"),
        _ => panic!("expected a load directive"),
    }
    match route(parse(Some("connect"), Some("http://h:1")), false) {
        Directive::ConnectHttp { addr } => assert_eq!(addr, "h:1"),
        _ => panic!("expected an HTTP connect directive"),
    }
    match route(parse(Some("connect"), Some("tcp://h:2")), false) {
        Directive::ConnectTcp { addr } => assert_eq!(addr, "h:2"),
        _ => panic!("expected a TCP connect directive"),
    }
}

#[test]
fn loaded_store_routes_operations() {
    assert!(matches!(route(parse(Some("fn_list"), None), true), Directive::ListFunctions));
    assert!(matches!(route(parse(Some("analyze"), Some("*")), true), Directive::AnalyzeAll));
    assert!(matches!(route(parse(Some("decompile"), Some("*")), true), Directive::DecompileAll));
    match route(parse(Some("analyze"), Some("f")), true) {
        Directive::AnalyzeOne { name } => assert_eq!(name, "f"),
        _ => panic!("expected a single-function analyze directive"),
    }
    match route(parse(Some("dot"), Some("f")), true) {
        Directive::EmitDot { name } => assert_eq!(name, "f"),
        _ => panic!("expected a dot directive"),
    }
    match route(parse(Some("ir"), Some("f")), true) {
        Directive::EmitIr { name } => assert_eq!(name, "f"),
        _ => panic!("expected an ir directive"),
    }
    match route(parse(Some("decompile"), Some("f")), true) {
        Directive::DecompileOne { name } => assert_eq!(name, "f"),
        _ => panic!("expected a single-function decompile directive"),
    }
}

#[test]
fn invalid_command_message_renders_absent_parts_empty() {
    let cases = [
        (Some("frobnicate"), Some("x"), "Invalid command frobnicate x"),
        (Some("frobnicate"), None, "Invalid command frobnicate "),
        (None, None, "Invalid command  "),
    ];
    for (v, a, want) in cases {
        match route(parse(v, a), true) {
            Directive::Report { error } => {
                assert!(matches!(error, ShellError::InvalidCommand { .. }));
                assert_eq!(render_error(&error), want);
            }
            _ => panic!("expected an invalid-command report"),
        }
    }
}

#[test]
fn load_of_missing_file_reports_not_found() {
    match parse_line("load ./missing.bin") {
        Command::Load { path } => {
            assert_eq!(path, "./missing.bin");
            match check_local_path(&path, false) {
                Some(e) => assert_eq!(render_error(&e), "./missing.bin is not found."),
                None => panic!("a missing file must be rejected"),
            }
        }
        _ => panic!("expected a load command"),
    }
    assert!(check_local_path("./present.bin", true).is_none());
}

#[test]
fn connect_with_unknown_scheme_is_invalid_url() {
    match route(parse_line("connect ftp://host"), false) {
        Directive::Report { error } => {
            assert!(matches!(error, ShellError::InvalidUrl));
            assert_eq!(render_error(&error), "Invalid url");
        }
        _ => panic!("expected an invalid-url report"),
    }
}

#[test]
fn fn_list_output_and_append_separator() {
    let funcs = vec!["main".to_string(), "helper".to_string()];
    assert_eq!(join_lines(&funcs), "main\nhelper");
    assert_eq!(join_lines(&vec![]), "");
    assert_eq!(join_lines(&vec!["only".to_string()]), "only");
    assert_eq!(separator_text(), "END");
    assert!(emits_separator("fn_list", true));
    assert!(!emits_separator("fn_list", false));
    assert!(!emits_separator("", true));
    assert!(dispatches_line("fn_list"));
    assert!(!dispatches_line(""));
}

#[test]
fn unknown_function_reports_not_found() {
    match check_function_lookup("foo", false) {
        Some(e) => {
            assert!(matches!(e, ShellError::FunctionNotFound { .. }));
            assert_eq!(render_error(&e), "foo is not found");
        }
        None => panic!("an unknown function must be rejected"),
    }
    assert!(check_function_lookup("main", true).is_none());
}

#[test]
fn batch_mode_without_project_only_reports() {
    assert!(matches!(batch_plan(false), BatchPlan::MissingProject));
    assert!(matches!(batch_plan(true), BatchPlan::RunAnalysis));
    assert_eq!(render_error(&ShellError::NoProjectForBatch), "Project was not loaded!");
}

#[test]
fn collaborator_messages_render_verbatim() {
    let e = ShellError::RemoteLoadFailure { message: "connection refused".to_string() };
    assert_eq!(render_error(&e), "connection refused");
    let e = ShellError::DecompileFailure { message: "no decompiler".to_string() };
    assert_eq!(render_error(&e), "no decompiler");
}

#[test]
fn help_text_matches_the_fixed_usage() {
    let expected = format!(
        "{:width$}    Show this help\n\
         {:width$}    Load binary\n\
         {:width$}    Connect to radare2 server\n\
         {:width$}    Show function list\n\
         {:width$}    Analyze <func>\n\
         {:width$}    Emit IR of <func>\n\
         {:width$}    Emit graph of the IR in Graphviz dot\n\
         {:width$}    Decompile <func>\n\
         {:width$}    Quit interactive prompt",
        "help",
        "load path",
        "connect (http|tcp)://<url>",
        "fn_list",
        "analyze <func>",
        "ir <func>",
        "dot <func>",
        "decompile <func>",
        "quit",
        width = 30
    );
    assert_eq!(help_text(), expected);
}

#[test]
fn pad_to_fills_with_spaces() {
    assert_eq!(pad_to("ab", 5), "ab   ");
    assert_eq!(pad_to("abcdef", 5), "abcdef");
    assert_eq!(pad_to("", 3), "   ");
}

#[test]
fn verb_completions_filter_by_prefix() {
    let all = verb_completions("");
    assert_eq!(
        all,
        vec!["help", "load", "connect", "fn_list", "analyze", "dot", "ir", "decompile", "quit"]
    );
    assert_eq!(verb_completions("de"), vec!["decompile"]);
    assert_eq!(verb_completions("d"), vec!["dot", "decompile"]);
    assert_eq!(verb_completions("fn_"), vec!["fn_list"]);
    assert!(verb_completions("zzz").is_empty());
}

#[test]
fn path_candidates_splice_at_the_separator() {
    assert_eq!(path_candidate("load src/ma", 0, "main.rs"), "load src/main.rs");
    assert_eq!(path_candidate("load a/b/c", 0, "core.bin"), "load a/b/core.bin");
    assert_eq!(path_candidate("ma", 0, "main.rs"), "main.rs");
    assert_eq!(path_candidate("load ma", 5, "main.rs"), "load main.rs");
}
