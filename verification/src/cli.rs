//! The mode orchestrator's decisions: which mode a name selects, when a
//! parse failure aborts a run, what the final exit code is, and the fixed
//! framing text of the diagnostic channel and the combined dump.
//!
//! The exit-code policy: a run that met one or more unsupported syntactic
//! categories exits 2, whatever else happened; a parse failure that the mode
//! tolerates exits 1; a clean run exits 0.

use vstd::prelude::*;
use crate::text::{
    dec_seq, push_decimal_usize, str_to_chars, chars_eq, push_str, push_lit,
};

verus! {

/// The dump modes an invocation can select.
#[derive(Clone, Copy, PartialEq, Eq, Structural, Debug)]
pub enum Mode {
    Lex,
    Ast,
    Minify,
    Mangle,
    Scope,
    All,
}

/// Which mode a command-line name selects.
pub open spec fn spec_mode_of(s: Seq<char>) -> Option<Mode> {
    if s == "lex"@ || s == "tokens"@ {
        Some(Mode::Lex)
    } else if s == "ast"@ || s == "parse"@ {
        Some(Mode::Ast)
    } else if s == "minify"@ {
        Some(Mode::Minify)
    } else if s == "mangle"@ {
        Some(Mode::Mangle)
    } else if s == "scope"@ {
        Some(Mode::Scope)
    } else if s == "all"@ {
        Some(Mode::All)
    } else {
        None
    }
}

pub fn mode_of(s: &str) -> (r: Option<Mode>)
    ensures r == spec_mode_of(s@),
{
    let cs = str_to_chars(s);
    if chars_eq(&cs, &str_to_chars("lex")) || chars_eq(&cs, &str_to_chars("tokens")) {
        Some(Mode::Lex)
    } else if chars_eq(&cs, &str_to_chars("ast")) || chars_eq(&cs, &str_to_chars("parse")) {
        Some(Mode::Ast)
    } else if chars_eq(&cs, &str_to_chars("minify")) {
        Some(Mode::Minify)
    } else if chars_eq(&cs, &str_to_chars("mangle")) {
        Some(Mode::Mangle)
    } else if chars_eq(&cs, &str_to_chars("scope")) {
        Some(Mode::Scope)
    } else if chars_eq(&cs, &str_to_chars("all")) {
        Some(Mode::All)
    } else {
        None
    }
}

/// Whether a parse failure aborts the run before any phase: it does in every
/// mode but the combined one, which proceeds best-effort.
pub fn abort_on_parse_error(mode: Mode, had_errors: bool) -> (r: bool)
    ensures r == (had_errors && mode != Mode::All),
{
    had_errors && !matches!(mode, Mode::All)
}

/// The final exit code of a run whose phases were executed: 2 when the dump
/// met unsupported syntactic categories, else 1 when the parse had errors,
/// else 0.
pub open spec fn spec_exit_code(had_errors: bool, unsup: nat) -> int {
    if unsup > 0 {
        2
    } else if had_errors {
        1
    } else {
        0
    }
}

/// The exit code is 2 exactly when the unsupported-node counter is nonzero,
/// and 0 exactly when the run was clean.
pub fn exit_code(had_errors: bool, unsup: usize) -> (r: i32)
    ensures
        r as int == spec_exit_code(had_errors, unsup as nat),
        (r == 2) <==> unsup > 0,
        (r == 0) <==> (!had_errors && unsup == 0),
{
    if unsup > 0 {
        2
    } else if had_errors {
        1
    } else {
        0
    }
}

pub open spec fn error_lines_from(es: Seq<String>, i: int) -> Seq<char>
    decreases es.len() - i,
{
    if i < 0 || i >= es.len() {
        Seq::empty()
    } else {
        "  "@ + es[i]@ + seq!['\n'] + error_lines_from(es, i + 1)
    }
}

/// The diagnostic block for parse errors: a header with the error count,
/// then each message, indented, one per line.
pub open spec fn parse_errors_text(es: Seq<String>) -> Seq<char> {
    "=== PARSE ERRORS ("@ + dec_seq(es.len() as int) + ") ===\n"@ + error_lines_from(es, 0)
}

fn push_error_lines(es: &Vec<String>, i: usize, out: &mut Vec<char>)
    ensures final(out)@ == old(out)@ + error_lines_from(es@, i as int),
    decreases es@.len() - i,
{
    if i < es.len() {
        push_lit("  ", out);
        push_str(&es[i], out);
        out.push('\n');
        push_error_lines(es, i + 1, out);
    }
    assert(out@ =~= old(out)@ + error_lines_from(es@, i as int));
}

/// The parse-error block of a failed or recovered parse.
pub fn parse_errors_block(es: &Vec<String>) -> (r: Vec<char>)
    ensures r@ == parse_errors_text(es@),
{
    let mut out = str_to_chars("=== PARSE ERRORS (");
    push_decimal_usize(es.len(), &mut out);
    push_lit(") ===\n", &mut out);
    push_error_lines(es, 0, &mut out);
    assert(out@ =~= parse_errors_text(es@));
    out
}

/// The count of lines in a source text, as a line-oriented reader sees it:
/// every newline ends a line, and a non-empty trailing fragment counts too.
pub open spec fn newline_count_from(src: Seq<u8>, i: int) -> nat
    decreases src.len() - i,
{
    if i < 0 || i >= src.len() {
        0
    } else {
        (if src[i] == 0x0au8 { 1nat } else { 0nat }) + newline_count_from(src, i + 1)
    }
}

pub open spec fn line_count(src: Seq<u8>) -> nat {
    if src.len() == 0 {
        0
    } else {
        newline_count_from(src, 0) + (if src[src.len() - 1] != 0x0au8 { 1nat } else { 0nat })
    }
}

proof fn lemma_newline_count_bound(src: Seq<u8>, i: int)
    requires 0 <= i <= src.len(),
    ensures newline_count_from(src, i) <= src.len() - i,
    decreases src.len() - i,
{
    if i < src.len() {
        lemma_newline_count_bound(src, i + 1);
    }
}

proof fn lemma_newline_count_last(src: Seq<u8>, i: int)
    requires
        0 <= i < src.len(),
        src[src.len() - 1] != 0x0au8,
    ensures newline_count_from(src, i) <= src.len() - i - 1,
    decreases src.len() - i,
{
    if i < src.len() - 1 {
        lemma_newline_count_last(src, i + 1);
    } else {
        assert(newline_count_from(src, src.len() as int) == 0);
    }
}

fn count_lines(src: &[u8]) -> (r: usize)
    ensures r == line_count(src@),
{
    if src.len() == 0 {
        return 0;
    }
    let mut i: usize = src.len();
    let mut n: usize = 0;
    while i > 0
        invariant
            i <= src@.len(),
            n == newline_count_from(src@, i as int),
            n <= src@.len() - i,
        decreases i,
    {
        i = i - 1;
        proof { lemma_newline_count_bound(src@, i as int + 1); }
        if src[i] == 0x0au8 {
            n = n + 1;
        }
    }
    if src[src.len() - 1] != 0x0au8 {
        proof { lemma_newline_count_last(src@, 0); }
        n + 1
    } else {
        n
    }
}

/// The source header of the combined mode: the path, the byte count, and the
/// line count.
pub open spec fn source_header_text(path: Seq<char>, src: Seq<u8>) -> Seq<char> {
    "=== SOURCE: "@ + path + " ("@ + dec_seq(src.len() as int) + " bytes, "@
        + dec_seq(line_count(src) as int) + " lines) ===\n"@
}

pub fn source_header(path: &str, src: &[u8]) -> (r: Vec<char>)
    ensures r@ == source_header_text(path@, src@),
{
    let mut out = str_to_chars("=== SOURCE: ");
    push_lit(path, &mut out);
    push_lit(" (", &mut out);
    push_decimal_usize(src.len(), &mut out);
    push_lit(" bytes, ", &mut out);
    let lines = count_lines(src);
    push_decimal_usize(lines, &mut out);
    push_lit(" lines) ===\n", &mut out);
    assert(out@ =~= source_header_text(path@, src@));
    out
}

/// The layout of the combined mode's output: every phase in the fixed order
/// tokens, tree, minify, mangle, scope, with the fixed separators between.
pub open spec fn all_mode_text(
    header: Seq<char>,
    lex: Seq<char>,
    ast: Seq<char>,
    minify: Seq<char>,
    mangle: Seq<char>,
    scope: Seq<char>,
) -> Seq<char> {
    header + seq!['\n'] + lex + seq!['\n'] + ast + "\n=== MINIFY ===\n"@ + minify
        + "\n\n=== MANGLE ===\n"@ + mangle + "\n\n"@ + scope
}

pub fn assemble_all(
    header: &Vec<char>,
    lex: &Vec<char>,
    ast: &Vec<char>,
    minify: &String,
    mangle: &String,
    scope: &Vec<char>,
) -> (r: Vec<char>)
    ensures r@ == all_mode_text(header@, lex@, ast@, minify@, mangle@, scope@),
{
    let mut out: Vec<char> = Vec::new();
    push_chars(header, &mut out);
    out.push('\n');
    push_chars(lex, &mut out);
    out.push('\n');
    push_chars(ast, &mut out);
    push_lit("\n=== MINIFY ===\n", &mut out);
    push_str(minify, &mut out);
    push_lit("\n\n=== MANGLE ===\n", &mut out);
    push_str(mangle, &mut out);
    push_lit("\n\n", &mut out);
    push_chars(scope, &mut out);
    assert(out@ =~= all_mode_text(header@, lex@, ast@, minify@, mangle@, scope@));
    out
}

fn push_chars(src: &Vec<char>, out: &mut Vec<char>)
    ensures final(out)@ == old(out)@ + src@,
{
    let mut i: usize = 0;
    while i < src.len()
        invariant
            i <= src@.len(),
            out@ == old(out)@ + src@.take(i as int),
        decreases src@.len() - i,
    {
        out.push(src[i]);
        i = i + 1;
        assert(out@ =~= old(out)@ + src@.take(i as int));
    }
    assert(out@ =~= old(out)@ + src@);
}

/// The usage text shown for a missing or unknown mode.
pub fn usage_text() -> (r: Vec<char>)
    ensures r@ == "Usage: jsdump <mode> <file.js>\n\nModes:\n  lex      Full token stream (all tokens including punctuation/operators)\n  ast      AST tree dump (one node per line, diffable)\n  minify   Minified output (no mangling)\n  mangle   Minified + mangled output\n  scope    Scope analysis (per-reference resolution)\n  all      All of the above\n"@,
{
    str_to_chars("Usage: jsdump <mode> <file.js>\n\nModes:\n  lex      Full token stream (all tokens including punctuation/operators)\n  ast      AST tree dump (one node per line, diffable)\n  minify   Minified output (no mangling)\n  mangle   Minified + mangled output\n  scope    Scope analysis (per-reference resolution)\n  all      All of the above\n")
}

} // verus!
