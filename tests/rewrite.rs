use macro_gpt::locate::{declares_package, find_workspace, is_white_space};
use macro_gpt::names::{eq_ignoring_ascii_case, is_build_dir_name, is_manifest_name, is_source_file_name};
use macro_gpt::prompt::{
    direct_prompt, injection_prompt, mark_source, DIRECT_FRAMING, INJECT_HEAD, INJECT_MID, INJECT_TAIL,
    PLACEHOLDER,
};
use macro_gpt::resolve::{
    find_marker, is_candidate_path, marker_matches, resolve, Found, MacroCall, ResolveError, Scan, SourceFile,
};
use macro_gpt::sanitize::sanitize_response;
use macro_gpt::splice::{rewrite_source, splice, END_MARKER, PROVENANCE_CLOSE, PROVENANCE_OPEN};
use syn::spanned::Spanned;
use syn::visit::Visit;

struct Collector {
    calls: Vec<MacroCall>,
}

impl<'ast> Visit<'ast> for Collector {
    fn visit_macro(&mut self, mac: &'ast syn::Macro) {
        let range = mac.span().byte_range();
        self.calls.push(MacroCall {
            name: mac.path.segments.last().unwrap().ident.to_string(),
            tokens: mac.tokens.to_string(),
            start: range.start,
            end: range.end,
        });
    }
}

fn scan(text: &str) -> Scan {
    match syn::parse_file(text) {
        Ok(file) => {
            let mut c = Collector { calls: Vec::new() };
            c.visit_file(&file);
            Scan::Parsed(text.as_bytes().to_vec(), c.calls)
        }
        Err(e) => Scan::Malformed(e.to_string()),
    }
}

fn path(parts: &[&str]) -> Vec<Vec<u8>> {
    parts.iter().map(|p| p.as_bytes().to_vec()).collect()
}

fn file(parts: &[&str], text: &str) -> SourceFile {
    SourceFile { path: path(parts), scan: scan(text) }
}

fn call(name: &str, tokens: &str) -> MacroCall {
    MacroCall { name: name.to_string(), tokens: tokens.to_string(), start: 0, end: 0 }
}

fn text_of(f: &SourceFile) -> Vec<u8> {
    match &f.scan {
        Scan::Parsed(t, _) => t.clone(),
        _ => panic!("file did not parse"),
    }
}

fn span_of(f: &SourceFile, j: usize) -> (usize, usize) {
    match &f.scan {
        Scan::Parsed(_, calls) => (calls[j].start, calls[j].end),
        _ => panic!("file did not parse"),
    }
}

#[test]
fn sanitize_removes_tagged_and_bare_fences() {
    let out = sanitize_response(b"```rust\nfn a() {}\n```");
    assert_eq!(out, b"\nfn a() {}\n".to_vec());
}

#[test]
fn sanitize_removes_unpaired_fences_anywhere() {
    assert_eq!(sanitize_response(b"a```b"), b"ab".to_vec());
    assert_eq!(sanitize_response(b"x ```rust y ```rust"), b"x  y ".to_vec());
    assert_eq!(sanitize_response(b"no fences"), b"no fences".to_vec());
    assert_eq!(sanitize_response(b""), Vec::<u8>::new());
}

#[test]
fn sanitize_cuts_backtick_runs() {
    assert_eq!(sanitize_response(b"`````"), b"``".to_vec());
    assert_eq!(sanitize_response(b"``````"), Vec::<u8>::new());
    assert_eq!(sanitize_response(b"`` `"), b"`` `".to_vec());
}

#[test]
fn sanitize_twice_equals_once() {
    let inputs: [&[u8]; 4] = [b"``````rust x ```` y", b"`````rust`rust", b"```rust\n```", b"plain"];
    for s in inputs {
        let once = sanitize_response(s);
        let twice = sanitize_response(&once);
        assert_eq!(once, twice);
        assert!(!once.windows(3).any(|w| w == b"```"));
    }
}

#[test]
fn splice_builds_annotated_block_and_drops_delimiter() {
    let text = b"ab MAC; cd";
    let out = splice(text, 3, 6, "k", b"CODE");
    let expected = format!("ab {}k{}CODE{} cd", PROVENANCE_OPEN, PROVENANCE_CLOSE, END_MARKER);
    assert_eq!(out, expected.into_bytes());
}

#[test]
fn splice_at_end_of_text() {
    let out = splice(b"M;", 0, 1, "", b"");
    let expected = format!("{}{}{}", PROVENANCE_OPEN, PROVENANCE_CLOSE, END_MARKER);
    assert_eq!(out, expected.into_bytes());
}

#[test]
fn mark_source_replaces_span_with_placeholder() {
    let out = mark_source(b"abc MAC; def", 4, 7);
    assert_eq!(out, format!("abc {}; def", PLACEHOLDER).into_bytes());
    assert_eq!(PLACEHOLDER, " /* GPT PLEASE INJECT CODE HERE */ ");
}

#[test]
fn injection_prompt_embeds_file_and_request() {
    let out = injection_prompt(b"fn f() {} M", 10, 11, "make g");
    let expected = format!("{}fn f() {{}} {}{}make g{}", INJECT_HEAD, PLACEHOLDER, INJECT_MID, INJECT_TAIL);
    assert_eq!(out, expected.into_bytes());
    assert!(INJECT_HEAD.ends_with("Here is the source file:\n```rust\n"));
    assert_eq!(INJECT_MID, "\n```\n\nAnd here is the user-provided prompt:\n```\n");
    assert_eq!(INJECT_TAIL, "\n```");
}

#[test]
fn direct_prompt_appends_request_to_framing() {
    let out = direct_prompt("struct A;");
    assert_eq!(out, format!("{}struct A;", DIRECT_FRAMING).into_bytes());
    assert!(DIRECT_FRAMING.ends_with("Here is the prompt:\n\n"));
    assert_eq!(direct_prompt(""), DIRECT_FRAMING.as_bytes().to_vec());
}

#[test]
fn name_rules_ignore_ascii_case() {
    assert!(eq_ignoring_ascii_case(b"HeLLo", b"hello"));
    assert!(!eq_ignoring_ascii_case(b"hello", b"hell"));
    assert!(is_build_dir_name(b"target"));
    assert!(is_build_dir_name(b"TARGET"));
    assert!(!is_build_dir_name(b"targets"));
    assert!(is_manifest_name(b"cargo.TOML"));
    assert!(!is_manifest_name(b"Cargo.lock"));
}

#[test]
fn source_extension_rules() {
    assert!(is_source_file_name(b"lib.rs"));
    assert!(is_source_file_name(b"MAIN.RS"));
    assert!(is_source_file_name(b"a.b.rs"));
    assert!(!is_source_file_name(b".rs"));
    assert!(!is_source_file_name(b"rs"));
    assert!(!is_source_file_name(b"a.rs.bak"));
    assert!(!is_source_file_name(b"a.rsx"));
}

#[test]
fn candidate_paths_exclude_build_dirs() {
    assert!(is_candidate_path(&path(&["ws", "src", "lib.rs"])));
    assert!(!is_candidate_path(&path(&["ws", "target", "gen.rs"])));
    assert!(!is_candidate_path(&path(&["ws", "Target", "debug", "gen.rs"])));
    assert!(!is_candidate_path(&path(&["ws", "src", "notes.txt"])));
    assert!(!is_candidate_path(&path(&[])));
}

#[test]
fn manifest_declares_package_ignoring_white_space() {
    assert!(declares_package("[package]\nname = \"foo\"\n", "foo"));
    assert!(declares_package("name\u{3000}=\t\"foo\"", "foo"));
    assert!(!declares_package("name = \"foobar\"", "foo"));
    assert!(!declares_package("title = \"foo\"", "foo"));
    assert!(is_white_space('\u{a0}'));
    assert!(!is_white_space('x'));
}

#[test]
fn locator_without_match_keeps_start() {
    let manifests = vec!["name = \"other\"".to_string(), "[workspace]".to_string()];
    assert_eq!(find_workspace(&manifests, "mine"), None);
    assert_eq!(find_workspace(&Vec::new(), "mine"), None);
}

#[test]
fn locator_takes_first_matching_manifest() {
    let manifests = vec![
        "name = \"other\"".to_string(),
        "name = \"mine\"".to_string(),
        "name=\"mine\"".to_string(),
    ];
    assert_eq!(find_workspace(&manifests, "mine"), Some(1));
}

#[test]
fn marker_literal_is_unescaped() {
    let key = "a\nb".to_string();
    assert!(marker_matches(&call("gpt_inject", "\"a\\nb\""), &key));
    assert!(!marker_matches(&call("gpt_inject", "\"a\\\\nb\""), &key));
    assert!(!marker_matches(&call("gpt", "\"a\\nb\""), &key));
    assert!(marker_matches(&call("gpt_inject", "r\"x\""), &"x".to_string()));
}

#[test]
fn non_literal_arguments_are_skipped() {
    let calls = vec![call("gpt_inject", "x"), call("gpt_inject", "\"x\" , 1"), call("gpt_inject", "\"x\"")];
    assert_eq!(find_marker(&calls, &"x".to_string()), Some(2));
    assert_eq!(find_marker(&calls, &"y".to_string()), None);
}

#[test]
fn absent_key_is_not_found() {
    let files = vec![
        file(&["ws", "src", "lib.rs"], "fn a() { gpt_inject!(\"other\"); }"),
        file(&["ws", "src", "b.rs"], "struct B;"),
    ];
    assert_eq!(resolve(&files, &"x".to_string()), Err(ResolveError::NotFound));
}

#[test]
fn marker_in_build_dir_is_never_visited() {
    let files = vec![
        file(&["ws", "target", "debug", "gen.rs"], "gpt_inject!(\"x\");"),
        file(&["ws", "src", "lib.rs"], "struct A;"),
    ];
    assert_eq!(resolve(&files, &"x".to_string()), Err(ResolveError::NotFound));
}

#[test]
fn unparsable_candidate_stops_resolution() {
    let files = vec![
        SourceFile { path: path(&["ws", "notes.txt"]), scan: Scan::Malformed("x".to_string()) },
        SourceFile { path: path(&["ws", "a.rs"]), scan: Scan::Unreadable },
        file(&["ws", "b.rs"], "fn ("),
        file(&["ws", "c.rs"], "gpt_inject!(\"x\");"),
    ];
    assert!(matches!(files[2].scan, Scan::Malformed(_)));
    assert_eq!(resolve(&files, &"x".to_string()), Err(ResolveError::Unparsable(2)));
}

#[test]
fn first_file_and_first_call_win() {
    let files = vec![
        SourceFile { path: path(&["ws", "a.rs"]), scan: Scan::Unreadable },
        file(&["ws", "b.rs"], "fn f() { other!(\"x\"); gpt_inject!(\"y\"); }\nmod m { gpt_inject!(\"x\"); }\ngpt_inject!(\"x\");"),
        file(&["ws", "c.rs"], "gpt_inject!(\"x\");"),
    ];
    assert_eq!(resolve(&files, &"x".to_string()), Ok(Found { file: 1, call: 2 }));
}

#[test]
fn found_span_reparses_as_marker() {
    let src = "use std::fmt;\n\nfn f() {\n    let _ = 1;\n}\n\nfoo::gpt_inject!(\"make it so\");\n";
    let files = vec![file(&["ws", "src", "lib.rs"], src)];
    let key = "make it so".to_string();
    let found = resolve(&files, &key).unwrap();
    let (start, end) = span_of(&files[found.file], found.call);
    let mac: syn::Macro = syn::parse_str(&src[start..end]).unwrap();
    assert_eq!(mac.path.segments.last().unwrap().ident.to_string(), "gpt_inject");
    let lit: syn::LitStr = syn::parse2(mac.tokens).unwrap();
    assert_eq!(lit.value(), key);
    assert_eq!(&src[end..end + 1], ";");
}

#[test]
fn injection_rewrites_marker_in_place() {
    let src = "struct Something;\ngpt_inject!(\"x\");\n";
    let files = vec![file(&["ws", "src", "lib.rs"], src)];
    let key = "x".to_string();
    let found = resolve(&files, &key).unwrap();
    let text = text_of(&files[found.file]);
    let (start, end) = span_of(&files[found.file], found.call);
    assert_eq!((start, end), (18, 34));
    let out = rewrite_source(&text, start, end, &key, b"```rust\nimpl Something {}\n```");
    let out = String::from_utf8(out).unwrap();
    assert_eq!(
        out,
        "struct Something;\n\n// generated by: gpt_inject!(\"x\")\n\nimpl Something {}\n\n// end of generated code\n\n"
    );
    assert!(out.starts_with("struct Something;\n"));
}

#[test]
fn second_injection_with_same_key_is_not_found() {
    let src = "struct Something;\ngpt_inject!(\"x\");\n";
    let key = "x".to_string();
    let files = vec![file(&["ws", "src", "lib.rs"], src)];
    let found = resolve(&files, &key).unwrap();
    let (start, end) = span_of(&files[0], found.call);
    let out = rewrite_source(&text_of(&files[0]), start, end, &key, b"impl Something {}");
    let again = vec![file(&["ws", "src", "lib.rs"], &String::from_utf8(out).unwrap())];
    assert_eq!(resolve(&again, &key), Err(ResolveError::NotFound));
}
