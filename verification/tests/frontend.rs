use oxc_allocator::Allocator;
use oxc_span::SourceType;

use jsdump::cli::exit_code;
use jsdump::provider::{
    analyze_program, check_reference_exclusivity, parse_program, render_program, scope_dump,
};
use jsdump::tokens::token_dump;

fn to_s(v: Vec<char>) -> String {
    v.into_iter().collect()
}

#[test]
fn lex_mode_is_deterministic_and_counts_tokens() {
    let alloc = Allocator::default();
    let src = "let x = 1 + 2;";
    let outcome = parse_program(&alloc, src, SourceType::default());
    assert!(outcome.ok);
    let once = to_s(token_dump(&outcome.tokens, src.as_bytes()));
    let twice = to_s(token_dump(&outcome.tokens, src.as_bytes()));
    assert_eq!(once, twice);
    assert!(once.starts_with("=== TOKENS ===\ntoken_count: 8\n"));
    // let, x, =, 1, +, 2, ; and the end-of-input token, printed once
    assert!(once.contains(" 0:3 let"));
    assert!(once.contains(" 4:5 x"));
    assert!(once.contains(" 14:14 "));
    assert!(once.trim_end().ends_with("14:14"));
}

#[test]
fn token_spans_lie_inside_the_source() {
    let alloc = Allocator::default();
    let src = "const n = \"héllo\";\n";
    let outcome = parse_program(&alloc, src, SourceType::default());
    for t in &outcome.tokens {
        assert!(t.start <= t.end);
        assert!((t.end as usize) <= src.len());
    }
}

#[test]
fn unresolved_global_listed_with_read_reference() {
    let alloc = Allocator::default();
    let src = "console.log(1)";
    let outcome = parse_program(&alloc, src, SourceType::default());
    assert!(outcome.ok);
    let (semantic, sem_errors) = analyze_program(&outcome.program);
    assert!(sem_errors.is_empty());
    let dump = scope_dump(&semantic);
    assert!(dump.starts_with("=== SCOPE ANALYSIS ===\n"));
    let unresolved_part = dump.split("unresolved:\n").nth(1).expect("unresolved section");
    assert!(unresolved_part.contains("\"console\" refs=1"));
    // its single reference is a read of bytes 0..7
    assert!(unresolved_part.contains("    ref 0:7"));
    assert!(unresolved_part.contains("Read"));
    assert_eq!(exit_code(false, 0), 0);
}

#[test]
fn scope_dump_is_deterministic() {
    let alloc = Allocator::default();
    let src = "let a = 1; function f(b) { return a + b + c; }";
    let outcome = parse_program(&alloc, src, SourceType::default());
    let (s1, _) = analyze_program(&outcome.program);
    let (s2, _) = analyze_program(&outcome.program);
    assert_eq!(scope_dump(&s1), scope_dump(&s2));
}

#[test]
fn every_reference_resolves_exactly_once() {
    let alloc = Allocator::default();
    let src = "let a = 1; function f(b) { return a + b + c; } f(a); d();";
    let outcome = parse_program(&alloc, src, SourceType::default());
    assert!(outcome.ok);
    let (semantic, _) = analyze_program(&outcome.program);
    assert!(check_reference_exclusivity(&semantic));
}

#[test]
fn syntax_error_reported_and_fatal_outside_combined_mode() {
    let alloc = Allocator::default();
    let src = "let s = \"unterminated";
    let outcome = parse_program(&alloc, src, SourceType::default());
    assert!(!outcome.ok);
    assert!(outcome.errors.len() >= 1);
    let block = to_s(jsdump::cli::parse_errors_block(&outcome.errors));
    assert!(block.starts_with("=== PARSE ERRORS ("));
    assert!(jsdump::cli::abort_on_parse_error(jsdump::cli::Mode::Ast, !outcome.ok));
    assert_eq!(exit_code(!outcome.ok, 0), 1);
}

#[test]
fn minify_strips_comments_and_whitespace() {
    let alloc = Allocator::default();
    let src = "/* legal */ // note\nlet  answer   =  40 + 2 ;";
    let outcome = parse_program(&alloc, src, SourceType::default());
    assert!(outcome.ok);
    let code = render_program(&outcome.program, false);
    assert!(!code.contains("legal"));
    assert!(!code.contains("note"));
    assert!(code.contains("answer"));
    assert!(!code.contains("  "));
}

#[test]
fn mangle_runs_are_byte_identical() {
    let alloc = Allocator::default();
    let src = "function add(alpha, beta) { return alpha + beta; } add(1, 2);";
    let outcome = parse_program(&alloc, src, SourceType::default());
    assert!(outcome.ok);
    let first = render_program(&outcome.program, true);
    let second = render_program(&outcome.program, true);
    assert_eq!(first, second);
    // mangling renamed the long parameter names away
    assert!(!first.contains("alpha"));
}

#[test]
fn mangle_of_reparsed_identical_file_is_identical() {
    let src = "function add(alpha, beta) { return alpha + beta; } add(1, 2);";
    let a1 = Allocator::default();
    let o1 = parse_program(&a1, src, SourceType::default());
    let first = render_program(&o1.program, true);
    let a2 = Allocator::default();
    let o2 = parse_program(&a2, src, SourceType::default());
    let second = render_program(&o2.program, true);
    assert_eq!(first, second);
}

#[test]
fn mangle_names_survive_an_added_empty_statement() {
    let base = "function add(alpha, beta) { return alpha + beta; } add(1, 2);";
    let padded = "function add(alpha, beta) { return alpha + beta; } add(1, 2);;";
    let a1 = Allocator::default();
    let o1 = parse_program(&a1, base, SourceType::default());
    let first = render_program(&o1.program, true);
    let a2 = Allocator::default();
    let o2 = parse_program(&a2, padded, SourceType::default());
    let second = render_program(&o2.program, true);
    // renaming is scope/usage-driven: the extra no-op statement may add a
    // semicolon but must not change any assigned short name
    let strip = |s: &str| s.chars().filter(|c| *c != ';').collect::<String>();
    assert_eq!(strip(&first), strip(&second));
}
