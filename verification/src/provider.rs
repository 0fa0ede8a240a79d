//! The front-end boundary: oxc supplies tokenizing, parsing, scope
//! resolution, and minified/mangled code generation. Each call into oxc
//! stands behind a small trusted wrapper; everything the library decides or
//! formats on the way in or out is verified.
//!
//! The front-end's outputs that depend on its arguments alone carry names
//! (`parse_errors_of`, `minified_of`, the `sem_*` contents of a semantic
//! model, ...); the wrappers' contracts speak of those names, and every
//! public function here ties its result to them, so that a body that
//! returned a constant or dropped its input would be rejected.

use vstd::prelude::*;
use vstd::string::StringSliceAdditionalSpecFns;
use oxc_allocator::Allocator;
use oxc_codegen::{Codegen, CodegenOptions, CommentOptions, LegalComment};
use oxc_mangler::{MangleOptions, Mangler};
use oxc_parser::{Kind, Parser};
use oxc_parser::config::TokensParserConfig;
use oxc_semantic::{Semantic, SemanticBuilder};
use oxc_span::SourceType;
use crate::tokens::RawToken;
use crate::scope::{
    BindingRec, RefRec, UnresolvedRec, scope_text, scope_dump_text, references_partitioned,
    references_partitioned_spec,
};
use crate::text::{chars_to_string, str_to_chars};

verus! {

#[verifier::external_type_specification]
#[verifier::external_body]
pub struct ExAllocator(Allocator);

#[verifier::external_type_specification]
#[verifier::external_body]
pub struct ExSourceType(SourceType);

#[verifier::external_type_specification]
#[verifier::external_body]
pub struct ExProgram<'a>(oxc_ast::ast::Program<'a>);

#[verifier::external_type_specification]
#[verifier::external_body]
pub struct ExSemantic<'a>(Semantic<'a>);

/// The syntax diagnostics the front-end reports for a source text: parsing
/// is deterministic, so they depend on the text and source type alone.
pub uninterp spec fn parse_errors_of(text: Seq<char>, ty: SourceType) -> Seq<String>;

/// The token records the front-end collects while parsing a source text
/// (its lexer is deterministic); the stream's trailing end-of-input token is
/// not among them — the parser discards it.
pub uninterp spec fn parse_tokens_of(text: Seq<char>, ty: SourceType) -> Seq<RawToken>;

/// The minified rendering of a tree: the code generator's output depends on
/// the tree and its fixed configuration alone.
pub uninterp spec fn minified_of(p: oxc_ast::ast::Program) -> Seq<char>;

/// The mangled-and-minified rendering of a tree: renaming is slot-based over
/// the tree's scopes, with no iteration-order-dependent naming.
pub uninterp spec fn mangled_of(p: oxc_ast::ast::Program) -> Seq<char>;

/// The semantic diagnostics the front-end reports while analyzing a tree.
pub uninterp spec fn semantic_errors_of(p: oxc_ast::ast::Program) -> Seq<String>;

/// How many scopes a semantic model holds.
pub uninterp spec fn sem_scopes(s: Semantic) -> int;

/// How many bindings (symbols) a semantic model holds.
pub uninterp spec fn sem_symbols(s: Semantic) -> int;

/// How many references a semantic model holds.
pub uninterp spec fn sem_references(s: Semantic) -> nat;

/// The binding records a semantic model holds: one per symbol, in table
/// order, each with its resolved references' ids, spans and flag text.
pub uninterp spec fn sem_bindings(s: Semantic) -> Seq<BindingRec>;

/// The unresolved (global) name records a semantic model holds, each with
/// its references' ids, spans and flag text; their order is the front-end's
/// map order and must not be relied on.
pub uninterp spec fn sem_unresolved(s: Semantic) -> Seq<UnresolvedRec>;

/// What one parse of a source file yields: the front-end's tree, the syntax
/// error messages, the collected raw tokens, and whether the parse is clean.
pub struct ParseOutcome<'a> {
    pub program: oxc_ast::ast::Program<'a>,
    pub errors: Vec<String>,
    pub tokens: Vec<RawToken>,
    pub ok: bool,
}

/// Relies on oxc_parser::Parser::parse with the token-collecting
/// configuration: hands back the parsed program, each syntax diagnostic's
/// message, and each collected token's span, kind name, and class — all
/// deterministic in the source text and source type. The parser discards the
/// stream's terminating end-of-input token (`finalize_tokens` pops it), so
/// the collected records hold no end-of-input entry; `parse_program` below
/// restores it. On a parse the front-end could not recover from it hands
/// back no tokens at all, so the token dump of such a source is not the full
/// tokenization.
#[verifier::external_body]
fn parse_with_oxc<'a>(alloc: &'a Allocator, text: &'a str, ty: SourceType)
    -> (r: (oxc_ast::ast::Program<'a>, Vec<String>, Vec<RawToken>))
    ensures
        r.1@ == parse_errors_of(text@, ty),
        r.2@ == parse_tokens_of(text@, ty),
{
    let ret = Parser::new(alloc, text, ty).with_config(TokensParserConfig).parse();
    let errors = ret.diagnostics.iter().map(|e| format!("{e}")).collect();
    let tokens = ret.tokens.iter().map(|t| RawToken {
        start: t.start(), end: t.end(), kind: format!("{:?}", t.kind()),
        eof: t.kind() == Kind::Eof,
        trivia: matches!(t.kind(), Kind::Skip | Kind::Undetermined),
    }).collect();
    (ret.program, errors, tokens)
}

/// Asks the front-end to parse the source. The parse is clean exactly when
/// no syntax diagnostic came back; the errors and token records are the
/// front-end's for this text; and the token stream ends with the
/// end-of-input record, at the end-of-source span, which this function
/// appends because the parser discards it.
pub fn parse_program<'a>(alloc: &'a Allocator, text: &'a str, ty: SourceType)
    -> (r: ParseOutcome<'a>)
    ensures
        r.ok <==> r.errors@.len() == 0,
        r.errors@ == parse_errors_of(text@, ty),
        r.tokens@.len() == parse_tokens_of(text@, ty).len() + 1,
        r.tokens@.drop_last() == parse_tokens_of(text@, ty),
        r.tokens@.last().eof,
        !r.tokens@.last().trivia,
        r.tokens@.last().kind@ == "Eof"@,
        r.tokens@.last().start == r.tokens@.last().end,
        text.spec_bytes().len() <= 0xffff_ffff
            ==> r.tokens@.last().start as int == text.spec_bytes().len() as int,
{
    let (program, errors, mut tokens) = parse_with_oxc(alloc, text, ty);
    let n = text.len();
    let end: u32 = if n <= 0xffff_ffffusize { n as u32 } else { 0xffff_ffffu32 };
    let kind_eof = chars_to_string(&str_to_chars("Eof"));
    tokens.push(RawToken { start: end, end, kind: kind_eof, eof: true, trivia: false });
    proof {
        assert(tokens@.drop_last() =~= parse_tokens_of(text@, ty));
    }
    let ok = errors.len() == 0;
    ParseOutcome { program, errors, tokens, ok }
}

/// Relies on oxc_codegen::Codegen: the minified rendering of the tree with
/// all comments (normal, jsdoc, annotation, legal) suppressed, a
/// deterministic function of the tree and these options.
#[verifier::external_body]
fn codegen_minified<'a>(p: &oxc_ast::ast::Program<'a>) -> (r: String)
    ensures r@ == minified_of(*p),
{
    let comments =
        CommentOptions { normal: false, jsdoc: false, annotation: false, legal: LegalComment::None };
    let options = CodegenOptions { minify: true, comments, ..CodegenOptions::default() };
    Codegen::new().with_options(options).build(p).code
}

/// Relies on oxc_mangler::Mangler (whole-program renaming with the top-level
/// scope included; slot-based, no iteration-order-dependent naming) and
/// oxc_codegen::Codegen with the mangler's scoping and private-member
/// mappings, comments suppressed — a deterministic function of the tree.
#[verifier::external_body]
fn codegen_mangled<'a>(p: &oxc_ast::ast::Program<'a>) -> (r: String)
    ensures r@ == mangled_of(*p),
{
    let mangle_options = MangleOptions { top_level: Some(true), ..MangleOptions::default() };
    let mr = Mangler::new().with_options(mangle_options).build(p);
    let comments =
        CommentOptions { normal: false, jsdoc: false, annotation: false, legal: LegalComment::None };
    let options = CodegenOptions { minify: true, comments, ..CodegenOptions::default() };
    Codegen::new().with_options(options)
        .with_scoping(Some(mr.scoping))
        .with_private_member_mappings(Some(mr.class_private_mappings))
        .build(p)
        .code
}

/// The render adapter: the front-end's minified rendering of the tree,
/// emitted verbatim; with `mangle`, whole-program identifier renaming first.
/// It selects the configuration and decides nothing else; either way the
/// result is a function of the tree and the flag.
pub fn render_program<'a>(p: &oxc_ast::ast::Program<'a>, mangle: bool) -> (r: String)
    ensures r@ == if mangle { mangled_of(*p) } else { minified_of(*p) },
{
    if mangle {
        codegen_mangled(p)
    } else {
        codegen_minified(p)
    }
}

/// Render determinism: both renderings are functions of the tree alone, so
/// rendering the same tree twice with the same flag yields byte-identical
/// output.
pub proof fn lemma_render_deterministic(
    p1: oxc_ast::ast::Program,
    p2: oxc_ast::ast::Program,
    mangle: bool,
)
    requires p1 == p2,
    ensures
        (if mangle { mangled_of(p1) } else { minified_of(p1) })
            == (if mangle { mangled_of(p2) } else { minified_of(p2) }),
{
}

/// Relies on oxc_semantic::SemanticBuilder::build with syntax-error checking
/// off and AST-node bookkeeping on (reference spans are read from the
/// nodes): the semantic model and each semantic diagnostic's message, the
/// latter a deterministic function of the tree.
#[verifier::external_body]
fn build_semantic_oxc<'a>(p: &'a oxc_ast::ast::Program<'a>) -> (r: (Semantic<'a>, Vec<String>))
    ensures r.1@ == semantic_errors_of(*p),
{
    let ret = SemanticBuilder::new()
        .with_build_nodes(true)
        .with_check_syntax_error(false)
        .build(p);
    let errors = ret.diagnostics.iter().map(|e| format!("{e}")).collect();
    (ret.semantic, errors)
}

/// Asks the front-end for scope/binding analysis; semantic errors are
/// reported, never fatal, and are the front-end's for this tree.
pub fn analyze_program<'a>(p: &'a oxc_ast::ast::Program<'a>) -> (r: (Semantic<'a>, Vec<String>))
    ensures r.1@ == semantic_errors_of(*p),
{
    build_semantic_oxc(p)
}

/// Relies on Scoping::scopes_len via Semantic::scoping: the model's scope
/// count.
#[verifier::external_body]
fn scopes_len(s: &Semantic) -> (r: usize)
    ensures r as int == sem_scopes(*s),
{
    s.scoping().scopes_len()
}

/// Relies on Scoping::symbols_len via Semantic::scoping: the model's binding
/// count.
#[verifier::external_body]
fn symbols_len(s: &Semantic) -> (r: usize)
    ensures r as int == sem_symbols(*s),
{
    s.scoping().symbols_len()
}

/// Relies on Scoping::references_len via Semantic::scoping: the model's
/// reference count.
#[verifier::external_body]
fn references_len(s: &Semantic) -> (r: usize)
    ensures r as nat == sem_references(*s),
{
    s.scoping().references_len()
}

/// Relies on Scoping::symbol_ids, symbol_name, symbol_scope_id and
/// symbol_flags, Scoping::get_resolved_reference_ids and get_reference, and
/// Semantic::reference_span: one record per binding of the model — the
/// symbol-id iterator covers the whole symbol table, so there are exactly as
/// many records as bindings — each with its resolved references' ids, spans
/// and flag text.
#[verifier::external_body]
fn extract_bindings(s: &Semantic) -> (r: Vec<BindingRec>)
    ensures
        r@ == sem_bindings(*s),
        r@.len() as int == sem_symbols(*s),
{
    s.scoping().symbol_ids().map(|id| BindingRec {
        id: id.index() as u32,
        name: s.scoping().symbol_name(id).to_string(),
        scope_id: s.scoping().symbol_scope_id(id).index() as u32,
        flags: format!("{:?}", s.scoping().symbol_flags(id)),
        refs: s.scoping().get_resolved_reference_ids(id).iter().map(|&rid| {
            let r = s.scoping().get_reference(rid);
            let sp = s.reference_span(r);
            RefRec { id: rid.index() as u32, start: sp.start, end: sp.end,
                     flags: format!("{:?}", r.flags()) }
        }).collect(),
    }).collect()
}

/// Relies on Scoping::root_unresolved_references, Scoping::get_reference and
/// Semantic::reference_span: one record per unresolved (global) name of the
/// model, in the front-end's map order — which the caller must not rely on —
/// each with its references' ids, spans and flag text.
#[verifier::external_body]
fn extract_unresolved(s: &Semantic) -> (r: Vec<UnresolvedRec>)
    ensures r@ == sem_unresolved(*s),
{
    s.scoping().root_unresolved_references().iter().map(|(name, ids)| UnresolvedRec {
        name: name.as_str().to_string(),
        refs: ids.iter().map(|&rid| {
            let r = s.scoping().get_reference(rid);
            let sp = s.reference_span(r);
            RefRec { id: rid.index() as u32, start: sp.start, end: sp.end,
                     flags: format!("{:?}", r.flags()) }
        }).collect(),
    }).collect()
}

/// The scope dump of an analyzed program: exactly the text
/// `crate::scope::scope_dump_text` gives for the model's counts, bindings
/// and unresolved names — header, bindings in id order with their
/// references, then the unresolved section in first-reference order.
pub fn scope_dump(sem: &Semantic) -> (r: String)
    ensures
        r@ == scope_dump_text(sem_scopes(*sem), sem_symbols(*sem), sem_bindings(*sem), sem_unresolved(*sem)),
{
    let scopes = scopes_len(sem);
    let symbols = symbols_len(sem);
    let bindings = extract_bindings(sem);
    let unresolved = extract_unresolved(sem);
    let text = scope_text(scopes, symbols, bindings, unresolved);
    chars_to_string(&text)
}

/// Whether every reference id of the analyzed program appears in exactly one
/// of a binding's reference list or the unresolved section, never both,
/// never neither.
pub fn check_reference_exclusivity(sem: &Semantic) -> (r: bool)
    ensures
        r == references_partitioned_spec(sem_bindings(*sem), sem_unresolved(*sem), sem_references(*sem)),
{
    let bindings = extract_bindings(sem);
    let unresolved = extract_unresolved(sem);
    let total = references_len(sem);
    references_partitioned(&bindings, &unresolved, total)
}

} // verus!
