use jsdump::cli::{
    assemble_all, exit_code, mode_of, parse_errors_block, source_header, usage_text, Mode,
    abort_on_parse_error,
};
use jsdump::dump::ast_dump;
use jsdump::line::Span;
use jsdump::scope::{references_partitioned, scope_text, BindingRec, RefRec, UnresolvedRec};
use jsdump::snippet::snippet;
use jsdump::text::escape_chars;
use jsdump::tokens::{token_dump, RawToken};
use jsdump::tree::{Binding, Declarator, Expr, ProgramNode, Stmt, VarDecl};

fn cs(s: &str) -> Vec<char> {
    s.chars().collect()
}

fn to_s(v: Vec<char>) -> String {
    v.into_iter().collect()
}

fn sp(start: u32, end: u32) -> Span {
    Span { start, end }
}

#[test]
fn escape_replaces_control_characters() {
    assert_eq!(to_s(escape_chars(&cs("a\nb"))), "a\\nb");
    assert_eq!(to_s(escape_chars(&cs("\r\t\0"))), "\\r\\t\\0");
    assert_eq!(to_s(escape_chars(&cs("a\\b"))), "a\\\\b");
    assert_eq!(to_s(escape_chars(&cs("\u{0001}"))), "\\u{0001}");
    assert_eq!(to_s(escape_chars(&cs("\u{009f}"))), "\\u{009f}");
}

#[test]
fn escape_passes_printable_text_through() {
    assert_eq!(to_s(escape_chars(&cs("héllo wörld"))), "héllo wörld");
    assert_eq!(to_s(escape_chars(&cs(""))), "");
}

#[test]
fn escape_output_has_no_raw_control_characters() {
    let out = escape_chars(&cs("a\nb\u{0002}c\u{0085}"));
    assert!(out.iter().all(|c| !c.is_control()));
}

#[test]
fn escape_is_idempotent_on_clean_text() {
    let once = escape_chars(&cs("plain text 123"));
    let twice = escape_chars(&once);
    assert_eq!(once, twice);
}

#[test]
fn escape_doubles_a_lone_backslash() {
    // why the idempotence law must exclude backslashes:
    let once = escape_chars(&cs("\\"));
    assert_eq!(to_s(once.clone()), "\\\\");
    assert_eq!(to_s(escape_chars(&once)), "\\\\\\\\");
}

#[test]
fn snippet_clamps_and_escapes() {
    let src = "let s = \"a\nb\";".as_bytes();
    assert_eq!(to_s(snippet(src, sp(8, 13), 50)), "\"a\\nb\"");
    // end past the source length is clamped
    assert_eq!(to_s(snippet(src, sp(8, 999), 50)), "\"a\\nb\";");
    // inverted or empty span gives nothing, as does one past the source
    assert_eq!(to_s(snippet(src, sp(5, 5), 50)), "");
    assert_eq!(to_s(snippet(src, sp(9, 5), 50)), "");
    assert_eq!(to_s(snippet(src, sp(99, 120), 50)), "");
}

#[test]
fn snippet_never_splits_a_multibyte_character() {
    // 49 ASCII bytes, then a 2-byte character straddling the 50-byte cap
    let mut text = "x".repeat(49);
    text.push('é');
    text.push_str("tail");
    let out = to_s(snippet(text.as_bytes(), sp(0, text.len() as u32), 50));
    assert_eq!(out, "x".repeat(49));
}

#[test]
fn ast_dump_of_simple_program() {
    // let x = 1 + 2;
    let src = "let x = 1 + 2;";
    let program = ProgramNode {
        span: sp(0, 14),
        hashbang: None,
        directives: vec![],
        body: vec![Stmt::VarDecl(VarDecl {
            span: sp(0, 14),
            kind: cs("let"),
            declarations: vec![Declarator {
                span: sp(4, 13),
                id: Binding::Ident { span: sp(4, 5), name: cs("x") },
                init: Some(Expr::Binary {
                    span: sp(8, 13),
                    op: cs("Addition"),
                    left: Box::new(Expr::NumLit { span: sp(8, 9) }),
                    right: Box::new(Expr::NumLit { span: sp(12, 13) }),
                }),
            }],
        })],
    };
    let (text, unsup) = ast_dump(&program, src.as_bytes());
    let expected = "=== AST ===\n\
                    Program 0:14\n\
                    \x20 VarDecl let 0:14\n\
                    \x20   Declarator 4:13\n\
                    \x20     Ident x 4:5\n\
                    \x20     Binary Addition 8:13\n\
                    \x20       NumLit 1 8:9\n\
                    \x20       NumLit 2 12:13\n";
    assert_eq!(to_s(text), expected);
    assert_eq!(unsup, 0);
    assert_eq!(exit_code(false, unsup), 0);
}

#[test]
fn ast_dump_counts_placeholders_exactly() {
    let program = ProgramNode {
        span: sp(0, 10),
        hashbang: None,
        directives: vec![],
        body: vec![
            Stmt::Empty { span: sp(0, 1) },
            Stmt::Unsupported { span: sp(1, 5) },
            Stmt::Unsupported { span: sp(5, 9) },
        ],
    };
    let (text, unsup) = ast_dump(&program, "0123456789".as_bytes());
    let text = to_s(text);
    assert_eq!(unsup, 2);
    let placeholder_lines = text.lines().filter(|l| l.trim_start().starts_with('?')).count();
    assert_eq!(placeholder_lines, unsup);
    assert_eq!(exit_code(false, unsup), 2);
}

#[test]
fn exit_code_policy() {
    assert_eq!(exit_code(false, 0), 0);
    assert_eq!(exit_code(true, 0), 1);
    assert_eq!(exit_code(false, 3), 2);
    // the unsupported-node condition overrides a parse failure
    assert_eq!(exit_code(true, 1), 2);
}

#[test]
fn mode_names() {
    assert_eq!(mode_of("lex"), Some(Mode::Lex));
    assert_eq!(mode_of("tokens"), Some(Mode::Lex));
    assert_eq!(mode_of("ast"), Some(Mode::Ast));
    assert_eq!(mode_of("parse"), Some(Mode::Ast));
    assert_eq!(mode_of("minify"), Some(Mode::Minify));
    assert_eq!(mode_of("mangle"), Some(Mode::Mangle));
    assert_eq!(mode_of("scope"), Some(Mode::Scope));
    assert_eq!(mode_of("all"), Some(Mode::All));
    assert_eq!(mode_of("lint"), None);
    assert!(to_s(usage_text()).starts_with("Usage:"));
}

#[test]
fn parse_failure_aborts_single_phase_modes_only() {
    assert!(abort_on_parse_error(Mode::Ast, true));
    assert!(abort_on_parse_error(Mode::Scope, true));
    assert!(!abort_on_parse_error(Mode::All, true));
    assert!(!abort_on_parse_error(Mode::Ast, false));
}

#[test]
fn parse_error_block_format() {
    let errors = vec!["first".to_string(), "second".to_string()];
    let block = to_s(parse_errors_block(&errors));
    assert_eq!(block, "=== PARSE ERRORS (2) ===\n  first\n  second\n");
}

#[test]
fn token_dump_filters_trivia_and_stops_at_eof() {
    let src = "a  b".as_bytes();
    let ts = vec![
        RawToken { start: 0, end: 1, kind: "Ident".to_string(), eof: false, trivia: false },
        RawToken { start: 1, end: 3, kind: "Skipped".to_string(), eof: false, trivia: true },
        RawToken { start: 3, end: 4, kind: "Ident".to_string(), eof: false, trivia: false },
        RawToken { start: 4, end: 4, kind: "EOF".to_string(), eof: true, trivia: false },
        RawToken { start: 9, end: 9, kind: "Ghostly".to_string(), eof: false, trivia: false },
    ];
    let out = to_s(token_dump(&ts, src));
    let expected = "=== TOKENS ===\n\
                    token_count: 3\n\
                    \x20 Ident 0:1 a\n\
                    \x20 Ident 3:4 b\n\
                    \x20 EOF 4:4 \n";
    assert_eq!(out, expected);
}

#[test]
fn scope_dump_orders_bindings_and_globals_deterministically() {
    let bindings = vec![
        BindingRec {
            id: 1,
            name: "y".to_string(),
            scope_id: 0,
            flags: "F".to_string(),
            refs: vec![],
        },
        BindingRec {
            id: 0,
            name: "x".to_string(),
            scope_id: 0,
            flags: "F".to_string(),
            refs: vec![RefRec { id: 2, start: 10, end: 11, flags: "Read".to_string() }],
        },
    ];
    let unresolved = vec![
        UnresolvedRec {
            name: "late".to_string(),
            refs: vec![RefRec { id: 5, start: 30, end: 34, flags: "Read".to_string() }],
        },
        UnresolvedRec {
            name: "early".to_string(),
            refs: vec![RefRec { id: 3, start: 20, end: 25, flags: "Read".to_string() }],
        },
    ];
    let out = to_s(scope_text(4, 2, bindings, unresolved));
    let expected = "=== SCOPE ANALYSIS ===\n\
                    scopes: 4\n\
                    bindings: 2\n\
                    \n\
                    \x20 0 \"x\" scope=0 flags=F refs=1\n\
                    \x20   ref 10:11 Read\n\
                    \x20 1 \"y\" scope=0 flags=F refs=0\n\
                    \n\
                    unresolved:\n\
                    \x20 \"early\" refs=1\n\
                    \x20   ref 20:25 Read\n\
                    \x20 \"late\" refs=1\n\
                    \x20   ref 30:34 Read\n";
    assert_eq!(out, expected);
}

fn one_binding(id: u32, refs: Vec<RefRec>) -> BindingRec {
    BindingRec { id, name: "n".to_string(), scope_id: 0, flags: "F".to_string(), refs }
}

fn one_ref(id: u32) -> RefRec {
    RefRec { id, start: 0, end: 1, flags: "Read".to_string() }
}

#[test]
fn reference_exclusivity_checker() {
    // ids 0 and 1 resolved, id 2 unresolved: a partition of 0..3
    let bs = vec![one_binding(0, vec![one_ref(0), one_ref(1)])];
    let us = vec![UnresolvedRec { name: "g".to_string(), refs: vec![one_ref(2)] }];
    assert!(references_partitioned(&bs, &us, 3));
    // an id in both a binding and the unresolved section
    let us_dup = vec![UnresolvedRec { name: "g".to_string(), refs: vec![one_ref(1)] }];
    assert!(!references_partitioned(&bs, &us_dup, 3));
    // an id that appears nowhere
    assert!(!references_partitioned(&bs, &vec![], 3));
    // an id out of range
    let us_big = vec![UnresolvedRec { name: "g".to_string(), refs: vec![one_ref(9)] }];
    assert!(!references_partitioned(&bs, &us_big, 3));
}

#[test]
fn source_header_counts_lines() {
    assert_eq!(
        to_s(source_header("f.js", "a\nb".as_bytes())),
        "=== SOURCE: f.js (3 bytes, 2 lines) ===\n"
    );
    assert_eq!(
        to_s(source_header("f.js", "a\n".as_bytes())),
        "=== SOURCE: f.js (2 bytes, 1 lines) ===\n"
    );
    assert_eq!(
        to_s(source_header("f.js", "".as_bytes())),
        "=== SOURCE: f.js (0 bytes, 0 lines) ===\n"
    );
}

#[test]
fn combined_mode_layout() {
    let out = to_s(assemble_all(
        &cs("H\n"),
        &cs("L\n"),
        &cs("A\n"),
        &"M".to_string(),
        &"G".to_string(),
        &cs("S\n"),
    ));
    assert_eq!(out, "H\n\nL\n\nA\n\n=== MINIFY ===\nM\n\n=== MANGLE ===\nG\n\nS\n");
}
