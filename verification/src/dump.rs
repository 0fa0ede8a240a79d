//! The canonical tree dump: a deterministic pre-order depth-first walk that
//! prints exactly one line per visited node.
//!
//! Each syntactic category has a dedicated rendering rule; the contract of
//! every executable function here says that the lines it appends are exactly
//! the ones the corresponding specification function describes, so the whole
//! dump is a mathematical function of the tree and the source bytes.
//!
//! Unsupported categories are rendered as `?`-kind placeholder lines; they
//! are never dropped, and `crate::line::count_placeholders` counts them.

use vstd::prelude::*;
use crate::line::{Line, GLine, Span, lview, node_line, push_line};
use crate::text::{str_to_chars, chars_eq};
use crate::snippet::{snippet, snippet_text};
use crate::tree::{
    ProgramNode, Hashbang, Directive, Stmt, Expr, Binding, BindProp, PropKey, Func, FuncBody,
    Params, RestElem, Class, ClassElem, MethodKind, PropertyKind, ObjProp, ArrElem, Arg,
    ForInit, ForLeft, AssignTarget, ArrayAssignTarget, ObjectAssignTarget, TargetRest,
    ObjTargetProp, TargetMaybeDefault, SimpleTarget, Decl, VarDecl, Declarator, SwitchCase,
    BlockPart, CatchPart, WithClause, ImportAttr, ImportSpec, ExportSpec, ExportDefaultKind,
    ChainElem,
};

verus! {

/// Tree-node snippets are capped at this many source bytes.
pub const SNIP_CAP: usize = 50;

/// The next nesting depth; saturates at the machine integer limit.
pub open spec fn bump(d: nat) -> nat {
    if d + 1 <= usize::MAX as nat { d + 1 } else { d }
}

fn bumpx(d: usize) -> (r: usize)
    ensures r as nat == bump(d as nat),
{
    if d < usize::MAX { d + 1 } else { d }
}

/// Words joined by single spaces: how multi-flag details are assembled.
pub open spec fn join_from(ws: Seq<Seq<char>>, i: int) -> Seq<char>
    decreases ws.len() - i,
{
    if i < 0 || i >= ws.len() {
        Seq::empty()
    } else if i == ws.len() - 1 {
        ws[i]
    } else {
        ws[i] + seq![' '] + join_from(ws, i + 1)
    }
}

pub open spec fn join_words(ws: Seq<Seq<char>>) -> Seq<char> {
    join_from(ws, 0)
}

pub open spec fn wsview(ws: Seq<Vec<char>>) -> Seq<Seq<char>> {
    ws.map_values(|v: Vec<char>| v@)
}

fn join_onto(ws: &Vec<Vec<char>>, i: usize, out: &mut Vec<char>)
    ensures final(out)@ == old(out)@ + join_from(wsview(ws@), i as int),
    decreases ws.len() - i,
{
    if i >= ws.len() {
        assert(out@ =~= old(out)@ + join_from(wsview(ws@), i as int));
        return;
    }
    let mut j: usize = 0;
    let w = &ws[i];
    while j < w.len()
        invariant
            j <= w@.len(),
            w == &ws@[i as int],
            i < ws@.len(),
            out@ == old(out)@ + w@.take(j as int),
        decreases w@.len() - j,
    {
        out.push(w[j]);
        j = j + 1;
        assert(out@ =~= old(out)@ + w@.take(j as int));
    }
    assert(out@ =~= old(out)@ + wsview(ws@)[i as int]);
    if i + 1 < ws.len() {
        out.push(' ');
        join_onto(ws, i + 1, out);
    }
    assert(out@ =~= old(out)@ + join_from(wsview(ws@), i as int));
}

/// Joins flag words into one detail string.
fn join_words_exec(ws: &Vec<Vec<char>>) -> (r: Vec<char>)
    ensures r@ == join_words(wsview(ws@)),
{
    let mut out: Vec<char> = Vec::new();
    join_onto(ws, 0, &mut out);
    out
}

fn push_text(src: &Vec<char>, out: &mut Vec<char>)
    ensures final(out)@ == old(out)@ + src@,
{
    let mut i: usize = 0;
    while i < src.len()
        invariant
            i <= src@.len(),
            out@ == old(out)@ + src@.take(i as int),
        decreases src@.len() - i,
    {
        out.push(src[i]);
        i = i + 1;
        assert(out@ =~= old(out)@ + src@.take(i as int));
    }
    assert(out@ =~= old(out)@ + src@);
}

/// The aliasing rule of import/export specifiers: just the name when the
/// binding and alias agree, `from as to` otherwise.
pub open spec fn alias_detail(from: Seq<char>, to: Seq<char>) -> Seq<char> {
    if from == to { to } else { from + " as "@ + to }
}

fn alias_detail_exec(from: &Vec<char>, to: &Vec<char>) -> (r: Vec<char>)
    ensures r@ == alias_detail(from@, to@),
{
    if chars_eq(from, to) {
        let mut out: Vec<char> = Vec::new();
        push_text(to, &mut out);
        assert(out@ =~= to@);
        out
    } else {
        let mut out: Vec<char> = Vec::new();
        push_text(from, &mut out);
        push_text(&str_to_chars(" as "), &mut out);
        push_text(to, &mut out);
        assert(out@ =~= from@ + " as "@ + to@);
        out
    }
}

// ---------------------------------------------------------------------------
// Specification of the dump, one function per syntactic category.
// ---------------------------------------------------------------------------

pub open spec fn opt_text(present: bool, w: Seq<char>) -> Seq<Seq<char>> {
    if present { seq![w] } else { Seq::empty() }
}

pub open spec fn func_flags(f: Func) -> Seq<char> {
    join_words(
        opt_text(f.is_async, "async"@) + opt_text(f.generator, "*"@)
            + opt_text(f.name@.len() > 0, f.name@),
    )
}

pub open spec fn arrow_flags(is_async: bool, expr_body: bool) -> Seq<char> {
    join_words(
        opt_text(is_async, "async"@)
            + seq![if expr_body { "expr"@ } else { "block"@ }],
    )
}

pub open spec fn obj_prop_flags(shorthand: bool, computed: bool, method: bool, kind: PropertyKind) -> Seq<char> {
    join_words(
        opt_text(shorthand, "shorthand"@) + opt_text(computed, "computed"@)
            + opt_text(method, "method"@)
            + (match kind {
                PropertyKind::Getter => seq!["get"@],
                PropertyKind::Setter => seq!["set"@],
                PropertyKind::Init => Seq::empty(),
            }),
    )
}

pub open spec fn method_flags(is_static: bool, kind: MethodKind, computed: bool) -> Seq<char> {
    join_words(
        opt_text(is_static, "static"@)
            + (match kind {
                MethodKind::Constructor => seq!["constructor"@],
                MethodKind::Getter => seq!["get"@],
                MethodKind::Setter => seq!["set"@],
                MethodKind::Plain => Seq::empty(),
            })
            + opt_text(computed, "computed"@),
    )
}

pub open spec fn field_flags(is_static: bool, computed: bool) -> Seq<char> {
    join_words(opt_text(is_static, "static"@) + opt_text(computed, "computed"@))
}

pub open spec fn program_lines(p: ProgramNode, src: Seq<u8>) -> Seq<GLine> {
    node_line(0, "Program"@, ""@, p.span)
        + (match p.hashbang {
            Some(h) => node_line(1, "Hashbang"@, h.value@, h.span),
            None => Seq::empty(),
        })
        + directives_from(p.directives@, 0, 1)
        + stmts_from(p.body@, 0, 1, src)
}

pub open spec fn directives_from(ds: Seq<Directive>, i: int, d: nat) -> Seq<GLine>
    decreases ds.len() - i,
{
    if i < 0 || i >= ds.len() {
        Seq::empty()
    } else {
        node_line(d, "Directive"@, ds[i].text@, ds[i].span) + directives_from(ds, i + 1, d)
    }
}

pub open spec fn stmts_from(ss: Seq<Stmt>, i: int, d: nat, src: Seq<u8>) -> Seq<GLine>
    decreases ss, ss.len() - i, 0int,
{
    if i < 0 || i >= ss.len() {
        Seq::empty()
    } else {
        stmt_lines(ss[i], d, src) + stmts_from(ss, i + 1, d, src)
    }
}

pub open spec fn stmt_lines(s: Stmt, d: nat, src: Seq<u8>) -> Seq<GLine>
    decreases s, 0int, 0int,
{
    match s {
        Stmt::Block { span, body } => {
            node_line(d, "Block"@, ""@, span) + stmts_from(body@, 0, bump(d), src)
        },
        Stmt::If { span, test, consequent, alternate } => {
            node_line(d, "If"@, ""@, span) + expr_lines(test, bump(d), src)
                + stmt_lines(*consequent, bump(d), src)
                + (match alternate {
                    Some(alt) => stmt_lines(*alt, bump(d), src),
                    None => Seq::empty(),
                })
        },
        Stmt::While { span, test, body } => {
            node_line(d, "While"@, ""@, span) + expr_lines(test, bump(d), src)
                + stmt_lines(*body, bump(d), src)
        },
        Stmt::DoWhile { span, body, test } => {
            node_line(d, "DoWhile"@, ""@, span) + stmt_lines(*body, bump(d), src)
                + expr_lines(test, bump(d), src)
        },
        Stmt::For { span, init, test, update, body } => {
            node_line(d, "For"@, ""@, span)
                + (match init {
                    Some(fi) => for_init_lines(fi, bump(d), src),
                    None => Seq::empty(),
                })
                + (match test {
                    Some(t) => expr_lines(t, bump(d), src),
                    None => Seq::empty(),
                })
                + (match update {
                    Some(u) => expr_lines(u, bump(d), src),
                    None => Seq::empty(),
                })
                + stmt_lines(*body, bump(d), src)
        },
        Stmt::ForIn { span, left, right, body } => {
            node_line(d, "ForIn"@, ""@, span) + for_left_lines(left, bump(d), src)
                + expr_lines(right, bump(d), src) + stmt_lines(*body, bump(d), src)
        },
        Stmt::ForOf { span, awaited, left, right, body } => {
            node_line(d, "ForOf"@, if awaited { "await"@ } else { ""@ }, span)
                + for_left_lines(left, bump(d), src) + expr_lines(right, bump(d), src)
                + stmt_lines(*body, bump(d), src)
        },
        Stmt::Switch { span, discriminant, cases } => {
            node_line(d, "Switch"@, ""@, span) + expr_lines(discriminant, bump(d), src)
                + switch_cases_from(cases@, 0, bump(d), src)
        },
        Stmt::Try { span, block, handler, finalizer } => {
            node_line(d, "Try"@, ""@, span)
                + node_line(bump(d), "Block"@, ""@, block.span)
                + stmts_from(block.body@, 0, bump(bump(d)), src)
                + (match handler {
                    Some(h) => {
                        node_line(bump(d), "Catch"@, ""@, h.span)
                            + (match h.param {
                                Some(p) => binding_lines(p, bump(bump(d)), src),
                                None => Seq::empty(),
                            })
                            + node_line(bump(bump(d)), "Block"@, ""@, h.body.span)
                            + stmts_from(h.body.body@, 0, bump(bump(bump(d))), src)
                    },
                    None => Seq::empty(),
                })
                + (match finalizer {
                    Some(f) => {
                        node_line(bump(d), "Finally"@, ""@, f.span)
                            + stmts_from(f.body@, 0, bump(bump(d)), src)
                    },
                    None => Seq::empty(),
                })
        },
        Stmt::Return { span, argument } => {
            node_line(d, "Return"@, ""@, span)
                + (match argument {
                    Some(a) => expr_lines(a, bump(d), src),
                    None => Seq::empty(),
                })
        },
        Stmt::Throw { span, argument } => {
            node_line(d, "Throw"@, ""@, span) + expr_lines(argument, bump(d), src)
        },
        Stmt::Break { span, label } => node_line(d, "Break"@, label@, span),
        Stmt::Continue { span, label } => node_line(d, "Continue"@, label@, span),
        Stmt::ExprStmt { span, expression } => {
            node_line(d, "ExprStmt"@, ""@, span) + expr_lines(expression, bump(d), src)
        },
        Stmt::Empty { span } => node_line(d, "Empty"@, ""@, span),
        Stmt::Debugger { span } => node_line(d, "Debugger"@, ""@, span),
        Stmt::With { span, object, body } => {
            node_line(d, "With"@, ""@, span) + expr_lines(object, bump(d), src)
                + stmt_lines(*body, bump(d), src)
        },
        Stmt::Labeled { span, label, body } => {
            node_line(d, "Labeled"@, label@, span) + stmt_lines(*body, bump(d), src)
        },
        Stmt::VarDecl(v) => var_decl_lines(v, d, src),
        Stmt::FuncDecl(f) => func_lines(f, d, src, "FuncDecl"@),
        Stmt::ClassDecl(c) => class_lines(c, d, src, "Class"@),
        Stmt::Import { span, phase, source, specifiers, with_clause } => {
            node_line(
                d,
                "Import"@,
                join_words(opt_text(phase@.len() > 0, phase@) + seq![source@]),
                span,
            )
                + (match specifiers {
                    Some(specs) => import_specs_from(specs@, 0, bump(d)),
                    None => Seq::empty(),
                })
                + (match with_clause {
                    Some(wc) => with_clause_lines(wc, bump(d)),
                    None => Seq::empty(),
                })
        },
        Stmt::ExportNamed { span, source, declaration, specifiers, with_clause } => {
            node_line(d, "ExportNamed"@, source@, span)
                + (match declaration {
                    Some(dc) => decl_lines(dc, bump(d), src),
                    None => Seq::empty(),
                })
                + export_specs_from(specifiers@, 0, bump(d))
                + (match with_clause {
                    Some(wc) => with_clause_lines(wc, bump(d)),
                    None => Seq::empty(),
                })
        },
        Stmt::ExportDefault { span, declaration } => {
            node_line(d, "ExportDefault"@, ""@, span)
                + (match declaration {
                    ExportDefaultKind::Func(f) => func_lines(f, bump(d), src, "FuncDecl"@),
                    ExportDefaultKind::Class(c) => class_lines(c, bump(d), src, "Class"@),
                    ExportDefaultKind::Expr(e) => expr_lines(e, bump(d), src),
                    ExportDefaultKind::Unsupported { span: usp } => {
                        node_line(bump(d), "?ExportDefault"@, snippet_text(src, usp, SNIP_CAP as nat), usp)
                    },
                })
        },
        Stmt::ExportAll { span, source, exported, with_clause } => {
            node_line(
                d,
                "ExportAll"@,
                match exported {
                    Some(alias) => "* as "@ + alias@ + " from "@ + source@,
                    None => source@,
                },
                span,
            )
                + (match with_clause {
                    Some(wc) => with_clause_lines(wc, bump(d)),
                    None => Seq::empty(),
                })
        },
        Stmt::Unsupported { span } => {
            node_line(d, "?Stmt"@, snippet_text(src, span, SNIP_CAP as nat), span)
        },
    }
}

pub open spec fn switch_cases_from(cs: Seq<SwitchCase>, i: int, d: nat, src: Seq<u8>) -> Seq<GLine>
    decreases cs, cs.len() - i, 0int,
{
    if i < 0 || i >= cs.len() {
        Seq::empty()
    } else {
        (match cs[i].test {
            Some(t) => {
                node_line(d, "Case"@, ""@, cs[i].span) + expr_lines(t, bump(d), src)
            },
            None => node_line(d, "Default"@, ""@, cs[i].span),
        }) + stmts_from(cs[i].body@, 0, bump(d), src) + switch_cases_from(cs, i + 1, d, src)
    }
}

pub open spec fn var_decl_lines(v: VarDecl, d: nat, src: Seq<u8>) -> Seq<GLine>
    decreases v, 0int, 0int,
{
    node_line(d, "VarDecl"@, v.kind@, v.span) + declarators_from(v.declarations@, 0, bump(d), src)
}

pub open spec fn declarators_from(ds: Seq<Declarator>, i: int, d: nat, src: Seq<u8>) -> Seq<GLine>
    decreases ds, ds.len() - i, 0int,
{
    if i < 0 || i >= ds.len() {
        Seq::empty()
    } else {
        node_line(d, "Declarator"@, ""@, ds[i].span)
            + binding_lines(ds[i].id, bump(d), src)
            + (match ds[i].init {
                Some(e) => expr_lines(e, bump(d), src),
                None => Seq::empty(),
            })
            + declarators_from(ds, i + 1, d, src)
    }
}

pub open spec fn func_lines(f: Func, d: nat, src: Seq<u8>, label: Seq<char>) -> Seq<GLine>
    decreases f, 0int, 0int,
{
    node_line(d, label, func_flags(f), f.span) + params_lines(f.params, bump(d), src)
        + (match f.body {
            Some(b) => {
                directives_from(b.directives@, 0, bump(d))
                    + stmts_from(b.statements@, 0, bump(d), src)
            },
            None => Seq::empty(),
        })
}

pub open spec fn params_lines(p: Params, d: nat, src: Seq<u8>) -> Seq<GLine>
    decreases p, 0int, 0int,
{
    if p.items@.len() == 0 && p.rest is None {
        Seq::empty()
    } else {
        node_line(d, "Params"@, ""@, p.span) + bindings_from(p.items@, 0, bump(d), src)
            + (match p.rest {
                Some(r) => {
                    node_line(bump(d), "Rest"@, ""@, r.span)
                        + binding_lines(*r.argument, bump(bump(d)), src)
                },
                None => Seq::empty(),
            })
    }
}

pub open spec fn bindings_from(bs: Seq<Binding>, i: int, d: nat, src: Seq<u8>) -> Seq<GLine>
    decreases bs, bs.len() - i, 0int,
{
    if i < 0 || i >= bs.len() {
        Seq::empty()
    } else {
        binding_lines(bs[i], d, src) + bindings_from(bs, i + 1, d, src)
    }
}

pub open spec fn binding_lines(b: Binding, d: nat, src: Seq<u8>) -> Seq<GLine>
    decreases b, 0int, 0int,
{
    match b {
        Binding::Ident { span, name } => node_line(d, "Ident"@, name@, span),
        Binding::Object { span, props, rest } => {
            node_line(d, "ObjPattern"@, ""@, span) + bind_props_from(props@, 0, bump(d), src)
                + (match rest {
                    Some(r) => {
                        node_line(bump(d), "Rest"@, ""@, r.span)
                            + binding_lines(*r.argument, bump(bump(d)), src)
                    },
                    None => Seq::empty(),
                })
        },
        Binding::Array { span, elements, rest } => {
            node_line(d, "ArrPattern"@, ""@, span)
                + opt_bindings_from(elements@, 0, bump(d), src, span)
                + (match rest {
                    Some(r) => {
                        node_line(bump(d), "Rest"@, ""@, r.span)
                            + binding_lines(*r.argument, bump(bump(d)), src)
                    },
                    None => Seq::empty(),
                })
        },
        Binding::Assign { span, left, right } => {
            node_line(d, "AssignPattern"@, ""@, span) + binding_lines(*left, bump(d), src)
                + expr_lines(*right, bump(d), src)
        },
    }
}

pub open spec fn bind_props_from(ps: Seq<BindProp>, i: int, d: nat, src: Seq<u8>) -> Seq<GLine>
    decreases ps, ps.len() - i, 0int,
{
    if i < 0 || i >= ps.len() {
        Seq::empty()
    } else {
        node_line(d, "BindProp"@, if ps[i].shorthand { "shorthand"@ } else { ""@ }, ps[i].span)
            + prop_key_lines(ps[i].key, bump(d), src)
            + binding_lines(ps[i].value, bump(d), src)
            + bind_props_from(ps, i + 1, d, src)
    }
}

pub open spec fn opt_bindings_from(es: Seq<Option<Binding>>, i: int, d: nat, src: Seq<u8>, pspan: Span) -> Seq<GLine>
    decreases es, es.len() - i, 0int,
{
    if i < 0 || i >= es.len() {
        Seq::empty()
    } else {
        (match es[i] {
            Some(b) => binding_lines(b, d, src),
            None => node_line(d, "Elision"@, ""@, pspan),
        }) + opt_bindings_from(es, i + 1, d, src, pspan)
    }
}

pub open spec fn class_lines(c: Class, d: nat, src: Seq<u8>, label: Seq<char>) -> Seq<GLine>
    decreases c, 0int, 0int,
{
    node_line(d, label, c.name@, c.span)
        + (match c.super_class {
            Some(sc) => {
                node_line(bump(d), "Extends"@, ""@, sc.0)
                    + expr_lines(*sc.1, bump(bump(d)), src)
            },
            None => Seq::empty(),
        })
        + class_elems_from(c.body@, 0, bump(d), src)
}

pub open spec fn class_elems_from(es: Seq<ClassElem>, i: int, d: nat, src: Seq<u8>) -> Seq<GLine>
    decreases es, es.len() - i, 0int,
{
    if i < 0 || i >= es.len() {
        Seq::empty()
    } else {
        (match es[i] {
            ClassElem::Method { span, is_static, kind, computed, key, value } => {
                node_line(d, "Method"@, method_flags(is_static, kind, computed), span)
                    + prop_key_lines(key, bump(d), src)
                    + func_lines(value, bump(d), src, "Body"@)
            },
            ClassElem::Property { span, is_static, computed, key, value } => {
                node_line(d, "ClassProp"@, field_flags(is_static, computed), span)
                    + prop_key_lines(key, bump(d), src)
                    + (match value {
                        Some(e) => expr_lines(e, bump(d), src),
                        None => Seq::empty(),
                    })
            },
            ClassElem::Accessor { span, is_static, computed, key, value } => {
                node_line(d, "Accessor"@, field_flags(is_static, computed), span)
                    + prop_key_lines(key, bump(d), src)
                    + (match value {
                        Some(e) => expr_lines(e, bump(d), src),
                        None => Seq::empty(),
                    })
            },
            ClassElem::StaticBlock { span, body } => {
                node_line(d, "StaticBlock"@, ""@, span) + stmts_from(body@, 0, bump(d), src)
            },
            ClassElem::Unsupported { span } => node_line(d, "?ClassElem"@, ""@, span),
        }) + class_elems_from(es, i + 1, d, src)
    }
}

pub open spec fn prop_key_lines(k: PropKey, d: nat, src: Seq<u8>) -> Seq<GLine>
    decreases k, 0int, 0int,
{
    match k {
        PropKey::Ident { span, name } => node_line(d, "Ident"@, name@, span),
        PropKey::Private { span, name } => node_line(d, "PrivateIdent"@, name@, span),
        PropKey::Computed(e) => expr_lines(*e, d, src),
        PropKey::Unsupported { span } => node_line(d, "?Key"@, ""@, span),
    }
}

pub open spec fn exprs_from(es: Seq<Expr>, i: int, d: nat, src: Seq<u8>) -> Seq<GLine>
    decreases es, es.len() - i, 0int,
{
    if i < 0 || i >= es.len() {
        Seq::empty()
    } else {
        expr_lines(es[i], d, src) + exprs_from(es, i + 1, d, src)
    }
}

pub open spec fn args_from(args: Seq<Arg>, i: int, d: nat, src: Seq<u8>) -> Seq<GLine>
    decreases args, args.len() - i, 0int,
{
    if i < 0 || i >= args.len() {
        Seq::empty()
    } else {
        (match args[i] {
            Arg::Spread { span, argument } => {
                node_line(d, "Spread"@, ""@, span) + expr_lines(argument, bump(d), src)
            },
            Arg::Item(e) => expr_lines(e, d, src),
        }) + args_from(args, i + 1, d, src)
    }
}

pub open spec fn arr_elems_from(es: Seq<ArrElem>, i: int, d: nat, src: Seq<u8>) -> Seq<GLine>
    decreases es, es.len() - i, 0int,
{
    if i < 0 || i >= es.len() {
        Seq::empty()
    } else {
        (match es[i] {
            ArrElem::Spread { span, argument } => {
                node_line(d, "Spread"@, ""@, span) + expr_lines(argument, bump(d), src)
            },
            ArrElem::Elision { span } => node_line(d, "Elision"@, ""@, span),
            ArrElem::Item(e) => expr_lines(e, d, src),
            ArrElem::Unsupported { span } => node_line(d, "?ArrElem"@, ""@, span),
        }) + arr_elems_from(es, i + 1, d, src)
    }
}

pub open spec fn obj_props_from(ps: Seq<ObjProp>, i: int, d: nat, src: Seq<u8>) -> Seq<GLine>
    decreases ps, ps.len() - i, 0int,
{
    if i < 0 || i >= ps.len() {
        Seq::empty()
    } else {
        (match ps[i] {
            ObjProp::Property { span, shorthand, computed, method, kind, key, value } => {
                node_line(d, "Property"@, obj_prop_flags(shorthand, computed, method, kind), span)
                    + prop_key_lines(key, bump(d), src)
                    + (if !shorthand { expr_lines(value, bump(d), src) } else { Seq::empty() })
            },
            ObjProp::Spread { span, argument } => {
                node_line(d, "Spread"@, ""@, span) + expr_lines(argument, bump(d), src)
            },
        }) + obj_props_from(ps, i + 1, d, src)
    }
}

pub open spec fn template_parts_from(quasis: Seq<Span>, es: Seq<Expr>, i: int, d: nat, src: Seq<u8>) -> Seq<GLine>
    decreases es, quasis.len() - i, 0int,
{
    if i < 0 || i >= quasis.len() {
        Seq::empty()
    } else {
        node_line(d, "Quasi"@, snippet_text(src, quasis[i], SNIP_CAP as nat), quasis[i])
            + (if i < es.len() { expr_lines(es[i], d, src) } else { Seq::empty() })
            + template_parts_from(quasis, es, i + 1, d, src)
    }
}

pub open spec fn expr_lines(e: Expr, d: nat, src: Seq<u8>) -> Seq<GLine>
    decreases e, 0int, 0int,
{
    match e {
        Expr::Ident { span, name } => node_line(d, "Ident"@, name@, span),
        Expr::NumLit { span } => {
            node_line(d, "NumLit"@, snippet_text(src, span, SNIP_CAP as nat), span)
        },
        Expr::StrLit { span } => {
            node_line(d, "StrLit"@, snippet_text(src, span, SNIP_CAP as nat), span)
        },
        Expr::BoolLit { span, value } => {
            node_line(d, if value { "true"@ } else { "false"@ }, ""@, span)
        },
        Expr::NullLit { span } => node_line(d, "null"@, ""@, span),
        Expr::BigInt { span } => {
            node_line(d, "BigInt"@, snippet_text(src, span, SNIP_CAP as nat), span)
        },
        Expr::Regex { span } => {
            node_line(d, "Regex"@, snippet_text(src, span, SNIP_CAP as nat), span)
        },
        Expr::This { span } => node_line(d, "this"@, ""@, span),
        Expr::Super { span } => node_line(d, "super"@, ""@, span),
        Expr::Template { span, quasis, expressions } => {
            node_line(d, "Template"@, ""@, span)
                + template_parts_from(quasis@, expressions@, 0, bump(d), src)
        },
        Expr::Binary { span, op, left, right } => {
            node_line(d, "Binary"@, op@, span) + expr_lines(*left, bump(d), src)
                + expr_lines(*right, bump(d), src)
        },
        Expr::Logical { span, op, left, right } => {
            node_line(d, "Logical"@, op@, span) + expr_lines(*left, bump(d), src)
                + expr_lines(*right, bump(d), src)
        },
        Expr::Unary { span, op, argument } => {
            node_line(d, "Unary"@, op@, span) + expr_lines(*argument, bump(d), src)
        },
        Expr::Update { span, op, prefix, argument } => {
            node_line(
                d,
                "Update"@,
                join_words(seq![op@, if prefix { "prefix"@ } else { "postfix"@ }]),
                span,
            ) + simple_target_lines(argument, bump(d), src)
        },
        Expr::Assign { span, op, left, right } => {
            node_line(d, "Assign"@, op@, span) + assign_target_lines(left, bump(d), src)
                + expr_lines(*right, bump(d), src)
        },
        Expr::Ternary { span, test, consequent, alternate } => {
            node_line(d, "Ternary"@, ""@, span) + expr_lines(*test, bump(d), src)
                + expr_lines(*consequent, bump(d), src) + expr_lines(*alternate, bump(d), src)
        },
        Expr::Call { span, optional, callee, arguments } => {
            node_line(d, "Call"@, if optional { "?."@ } else { ""@ }, span)
                + expr_lines(*callee, bump(d), src) + args_from(arguments@, 0, bump(d), src)
        },
        Expr::New { span, callee, arguments } => {
            node_line(d, "New"@, ""@, span) + expr_lines(*callee, bump(d), src)
                + args_from(arguments@, 0, bump(d), src)
        },
        Expr::Member { span, optional, property, object } => {
            node_line(d, "Member"@, if optional { "?."@ + property@ } else { property@ }, span)
                + expr_lines(*object, bump(d), src)
        },
        Expr::Index { span, optional, object, expression } => {
            node_line(d, "Index"@, if optional { "?.[]"@ } else { "[]"@ }, span)
                + expr_lines(*object, bump(d), src) + expr_lines(*expression, bump(d), src)
        },
        Expr::PrivateField { span, field, object } => {
            node_line(d, "PrivateField"@, field@, span) + expr_lines(*object, bump(d), src)
        },
        Expr::Array { span, elements } => {
            node_line(d, "Array"@, ""@, span) + arr_elems_from(elements@, 0, bump(d), src)
        },
        Expr::ObjectLit { span, properties } => {
            node_line(d, "Object"@, ""@, span) + obj_props_from(properties@, 0, bump(d), src)
        },
        Expr::FuncExpr(f) => func_lines(f, d, src, "FuncExpr"@),
        Expr::Arrow { span, is_async, expr_body, params, directives, statements } => {
            node_line(d, "Arrow"@, arrow_flags(is_async, expr_body), span)
                + params_lines(params, bump(d), src)
                + directives_from(directives@, 0, bump(d))
                + stmts_from(statements@, 0, bump(d), src)
        },
        Expr::ClassExpr(c) => class_lines(c, d, src, "ClassExpr"@),
        Expr::Sequence { span, expressions } => {
            node_line(d, "Sequence"@, ""@, span) + exprs_from(expressions@, 0, bump(d), src)
        },
        Expr::Await { span, argument } => {
            node_line(d, "Await"@, ""@, span) + expr_lines(*argument, bump(d), src)
        },
        Expr::Yield { span, delegate, argument } => {
            node_line(d, "Yield"@, if delegate { "*"@ } else { ""@ }, span)
                + (match argument {
                    Some(a) => expr_lines(*a, bump(d), src),
                    None => Seq::empty(),
                })
        },
        Expr::TaggedTemplate { span, tag, quasi_span, quasis, expressions } => {
            node_line(d, "TaggedTemplate"@, ""@, span) + expr_lines(*tag, bump(d), src)
                + node_line(bump(d), "Template"@, ""@, quasi_span)
                + template_parts_from(quasis@, expressions@, 0, bump(bump(d)), src)
        },
        Expr::ImportExpr { span, source, options } => {
            node_line(d, "ImportExpr"@, ""@, span) + expr_lines(*source, bump(d), src)
                + (match options {
                    Some(o) => {
                        node_line(bump(d), "ImportOptions"@, ""@, o.0)
                            + expr_lines(*o.1, bump(bump(d)), src)
                    },
                    None => Seq::empty(),
                })
        },
        Expr::Chain { span, element } => {
            node_line(d, "Chain"@, ""@, span) + chain_elem_lines(element, bump(d), src)
        },
        Expr::MetaProperty { span, meta, property } => {
            node_line(d, "MetaProperty"@, meta@ + "."@ + property@, span)
        },
        Expr::PrivateIn { span, name, right } => {
            node_line(d, "PrivateIn"@, name@, span) + expr_lines(*right, bump(d), src)
        },
        Expr::Unsupported { span } => {
            node_line(d, "?Expr"@, snippet_text(src, span, SNIP_CAP as nat), span)
        },
    }
}

pub open spec fn chain_elem_lines(c: ChainElem, d: nat, src: Seq<u8>) -> Seq<GLine>
    decreases c, 0int, 0int,
{
    match c {
        ChainElem::Call { span, callee, arguments } => {
            node_line(d, "Call"@, "?."@, span) + expr_lines(*callee, bump(d), src)
                + args_from(arguments@, 0, bump(d), src)
        },
        ChainElem::Index { span, object, expression } => {
            node_line(d, "Index"@, "?.[]"@, span) + expr_lines(*object, bump(d), src)
                + expr_lines(*expression, bump(d), src)
        },
        ChainElem::Member { span, property, object } => {
            node_line(d, "Member"@, "?."@ + property@, span) + expr_lines(*object, bump(d), src)
        },
        ChainElem::PrivateField { span, field, object } => {
            node_line(d, "PrivateField"@, "?."@ + field@, span)
                + expr_lines(*object, bump(d), src)
        },
        ChainElem::Unsupported { span } => node_line(d, "?Chain"@, ""@, span),
    }
}

pub open spec fn for_init_lines(fi: ForInit, d: nat, src: Seq<u8>) -> Seq<GLine>
    decreases fi, 0int, 0int,
{
    match fi {
        ForInit::Var(v) => var_decl_lines(v, d, src),
        ForInit::Item(e) => expr_lines(e, d, src),
        ForInit::Unsupported { span } => {
            node_line(d, "?ForInit"@, snippet_text(src, span, SNIP_CAP as nat), span)
        },
    }
}

pub open spec fn for_left_lines(fl: ForLeft, d: nat, src: Seq<u8>) -> Seq<GLine>
    decreases fl, 0int, 0int,
{
    match fl {
        ForLeft::Var(v) => var_decl_lines(v, d, src),
        ForLeft::Ident { span, name } => node_line(d, "Ident"@, name@, span),
        ForLeft::Index { span, object, expression } => {
            node_line(d, "Index"@, "[]"@, span) + expr_lines(object, bump(d), src)
                + expr_lines(expression, bump(d), src)
        },
        ForLeft::Member { span, property, object } => {
            node_line(d, "Member"@, property@, span) + expr_lines(object, bump(d), src)
        },
        ForLeft::PrivateField { span, field, object } => {
            node_line(d, "PrivateField"@, field@, span) + expr_lines(object, bump(d), src)
        },
        ForLeft::ArrayTarget(a) => array_target_lines(a, d, src),
        ForLeft::ObjectTarget(o) => object_target_lines(o, d, src),
        ForLeft::Unsupported { span } => node_line(d, "?ForLeft"@, ""@, span),
    }
}

pub open spec fn assign_target_lines(t: AssignTarget, d: nat, src: Seq<u8>) -> Seq<GLine>
    decreases t, 0int, 0int,
{
    match t {
        AssignTarget::Ident { span, name } => node_line(d, "Ident"@, name@, span),
        AssignTarget::Index { span, object, expression } => {
            node_line(d, "Index"@, "[]"@, span) + expr_lines(*object, bump(d), src)
                + expr_lines(*expression, bump(d), src)
        },
        AssignTarget::Member { span, property, object } => {
            node_line(d, "Member"@, property@, span) + expr_lines(*object, bump(d), src)
        },
        AssignTarget::PrivateField { span, field, object } => {
            node_line(d, "PrivateField"@, field@, span) + expr_lines(*object, bump(d), src)
        },
        AssignTarget::ArrayTarget(a) => array_target_lines(*a, d, src),
        AssignTarget::ObjectTarget(o) => object_target_lines(*o, d, src),
        AssignTarget::Unsupported { span } => node_line(d, "?Target"@, ""@, span),
    }
}

pub open spec fn array_target_lines(a: ArrayAssignTarget, d: nat, src: Seq<u8>) -> Seq<GLine>
    decreases a, 0int, 0int,
{
    node_line(d, "ArrPattern"@, ""@, a.span)
        + target_elems_from(a.elements@, 0, bump(d), src, a.span)
        + (match a.rest {
            Some(r) => {
                node_line(bump(d), "Rest"@, ""@, r.span)
                    + assign_target_lines(*r.target, bump(bump(d)), src)
            },
            None => Seq::empty(),
        })
}

pub open spec fn target_elems_from(es: Seq<Option<TargetMaybeDefault>>, i: int, d: nat, src: Seq<u8>, pspan: Span) -> Seq<GLine>
    decreases es, es.len() - i, 0int,
{
    if i < 0 || i >= es.len() {
        Seq::empty()
    } else {
        (match es[i] {
            Some(t) => target_maybe_default_lines(t, d, src),
            None => node_line(d, "Elision"@, ""@, pspan),
        }) + target_elems_from(es, i + 1, d, src, pspan)
    }
}

pub open spec fn object_target_lines(o: ObjectAssignTarget, d: nat, src: Seq<u8>) -> Seq<GLine>
    decreases o, 0int, 0int,
{
    node_line(d, "ObjPattern"@, ""@, o.span)
        + obj_target_props_from(o.properties@, 0, bump(d), src)
        + (match o.rest {
            Some(r) => {
                node_line(bump(d), "Rest"@, ""@, r.span)
                    + assign_target_lines(*r.target, bump(bump(d)), src)
            },
            None => Seq::empty(),
        })
}

pub open spec fn obj_target_props_from(ps: Seq<ObjTargetProp>, i: int, d: nat, src: Seq<u8>) -> Seq<GLine>
    decreases ps, ps.len() - i, 0int,
{
    if i < 0 || i >= ps.len() {
        Seq::empty()
    } else {
        (match ps[i] {
            ObjTargetProp::Ident { span, name, init } => {
                node_line(d, "BindProp"@, join_words(seq!["shorthand"@, name@]), span)
                    + (match init {
                        Some(e) => expr_lines(e, bump(d), src),
                        None => Seq::empty(),
                    })
            },
            ObjTargetProp::Prop { span, computed, name, binding } => {
                node_line(d, "BindProp"@, if computed { "computed"@ } else { ""@ }, span)
                    + prop_key_lines(name, bump(d), src)
                    + target_maybe_default_lines(binding, bump(d), src)
            },
        }) + obj_target_props_from(ps, i + 1, d, src)
    }
}

pub open spec fn target_maybe_default_lines(t: TargetMaybeDefault, d: nat, src: Seq<u8>) -> Seq<GLine>
    decreases t, 0int, 0int,
{
    match t {
        TargetMaybeDefault::WithDefault { span, binding, init } => {
            node_line(d, "AssignDefault"@, ""@, span) + assign_target_lines(binding, bump(d), src)
                + expr_lines(*init, bump(d), src)
        },
        TargetMaybeDefault::Target(t2) => assign_target_lines(t2, d, src),
        TargetMaybeDefault::Unsupported { span } => node_line(d, "?MaybeDefault"@, ""@, span),
    }
}

pub open spec fn simple_target_lines(t: SimpleTarget, d: nat, src: Seq<u8>) -> Seq<GLine>
    decreases t, 0int, 0int,
{
    match t {
        SimpleTarget::Ident { span, name } => node_line(d, "Ident"@, name@, span),
        SimpleTarget::Index { span, object, expression } => {
            node_line(d, "Index"@, "[]"@, span) + expr_lines(*object, bump(d), src)
                + expr_lines(*expression, bump(d), src)
        },
        SimpleTarget::Member { span, property, object } => {
            node_line(d, "Member"@, property@, span) + expr_lines(*object, bump(d), src)
        },
        SimpleTarget::PrivateField { span, field, object } => {
            node_line(d, "PrivateField"@, field@, span) + expr_lines(*object, bump(d), src)
        },
        SimpleTarget::Unsupported { span } => node_line(d, "?SimpleTarget"@, ""@, span),
    }
}

pub open spec fn decl_lines(dc: Decl, d: nat, src: Seq<u8>) -> Seq<GLine>
    decreases dc, 0int, 0int,
{
    match dc {
        Decl::Var(v) => var_decl_lines(v, d, src),
        Decl::Func(f) => func_lines(f, d, src, "FuncDecl"@),
        Decl::Class(c) => class_lines(c, d, src, "Class"@),
        Decl::Unsupported { span } => node_line(d, "?Decl"@, ""@, span),
    }
}

pub open spec fn import_specs_from(ss: Seq<ImportSpec>, i: int, d: nat) -> Seq<GLine>
    decreases ss.len() - i,
{
    if i < 0 || i >= ss.len() {
        Seq::empty()
    } else {
        (match ss[i] {
            ImportSpec::Named { span, imported, local } => {
                node_line(d, "ImportSpec"@, alias_detail(imported@, local@), span)
            },
            ImportSpec::Default { span, local } => {
                node_line(d, "ImportDefault"@, local@, span)
            },
            ImportSpec::Namespace { span, local } => {
                node_line(d, "ImportNamespace"@, local@, span)
            },
        }) + import_specs_from(ss, i + 1, d)
    }
}

pub open spec fn export_specs_from(ss: Seq<ExportSpec>, i: int, d: nat) -> Seq<GLine>
    decreases ss.len() - i,
{
    if i < 0 || i >= ss.len() {
        Seq::empty()
    } else {
        node_line(d, "ExportSpec"@, alias_detail(ss[i].local@, ss[i].exported@), ss[i].span)
            + export_specs_from(ss, i + 1, d)
    }
}

pub open spec fn with_clause_lines(wc: WithClause, d: nat) -> Seq<GLine> {
    node_line(d, "WithClause"@, wc.keyword@, wc.span) + attrs_from(wc.entries@, 0, bump(d))
}

pub open spec fn attrs_from(es: Seq<ImportAttr>, i: int, d: nat) -> Seq<GLine>
    decreases es.len() - i,
{
    if i < 0 || i >= es.len() {
        Seq::empty()
    } else {
        node_line(d, "Attr"@, es[i].key@ + ": \""@ + es[i].value@ + "\""@, es[i].span)
            + attrs_from(es, i + 1, d)
    }
}


// ---------------------------------------------------------------------------
// The executable dumper: appends exactly the lines the specification gives.
// ---------------------------------------------------------------------------

/// An empty detail.
fn empty_text() -> (r: Vec<char>)
    ensures r@ == ""@,
{
    proof { reveal_strlit(""); }
    let v: Vec<char> = Vec::new();
    assert(v@ =~= ""@);
    v
}

/// A copy of a text value.
fn copy_text(v: &Vec<char>) -> (r: Vec<char>)
    ensures r@ == v@,
{
    let mut out: Vec<char> = Vec::new();
    push_text(v, &mut out);
    assert(out@ =~= v@);
    out
}

pub fn dump_program(p: &ProgramNode, src: &[u8], out: &mut Vec<Line>)
    ensures lview(final(out)@) == lview(old(out)@) + program_lines(*p, src@),
{
    push_line(out, 0, str_to_chars("Program"), empty_text(), p.span);
    match &p.hashbang {
        Some(h) => {
            push_line(out, 1, str_to_chars("Hashbang"), copy_text(&h.value), h.span);
        },
        None => {},
    }
    dump_directives(&p.directives, 0, 1, out);
    dump_stmts(&p.body, 0, 1, src, out);
    assert(lview(out@) =~= lview(old(out)@) + program_lines(*p, src@));
}

fn dump_directives(ds: &Vec<Directive>, i: usize, d: usize, out: &mut Vec<Line>)
    ensures lview(final(out)@) == lview(old(out)@) + directives_from(ds@, i as int, d as nat),
    decreases ds@.len() - i,
{
    if i < ds.len() {
        push_line(out, d, str_to_chars("Directive"), copy_text(&ds[i].text), ds[i].span);
        dump_directives(ds, i + 1, d, out);
    }
    assert(lview(out@) =~= lview(old(out)@) + directives_from(ds@, i as int, d as nat));
}

fn dump_stmts(ss: &Vec<Stmt>, i: usize, d: usize, src: &[u8], out: &mut Vec<Line>)
    ensures lview(final(out)@) == lview(old(out)@) + stmts_from(ss@, i as int, d as nat, src@),
    decreases ss@, ss@.len() - i, 1int,
{
    if i < ss.len() {
        dump_stmt(&ss[i], d, src, out);
        dump_stmts(ss, i + 1, d, src, out);
    }
    assert(lview(out@) =~= lview(old(out)@) + stmts_from(ss@, i as int, d as nat, src@));
}

#[verifier::rlimit(100)]
#[verifier::spinoff_prover]
fn dump_stmt(s: &Stmt, d: usize, src: &[u8], out: &mut Vec<Line>)
    ensures lview(final(out)@) == lview(old(out)@) + stmt_lines(*s, d as nat, src@),
    decreases *s, 0int, 0int,
{
    match s {
        Stmt::Block { span, body } => {
            push_line(out, d, str_to_chars("Block"), empty_text(), *span);
            dump_stmts(body, 0, bumpx(d), src, out);
        },
        Stmt::If { span, test, consequent, alternate } => {
            push_line(out, d, str_to_chars("If"), empty_text(), *span);
            dump_expr(test, bumpx(d), src, out);
            dump_stmt(&**consequent, bumpx(d), src, out);
            match alternate {
                Some(alt) => dump_stmt(&**alt, bumpx(d), src, out),
                None => {},
            }
        },
        Stmt::While { span, test, body } => {
            push_line(out, d, str_to_chars("While"), empty_text(), *span);
            dump_expr(test, bumpx(d), src, out);
            dump_stmt(&**body, bumpx(d), src, out);
        },
        Stmt::DoWhile { span, body, test } => {
            push_line(out, d, str_to_chars("DoWhile"), empty_text(), *span);
            dump_stmt(&**body, bumpx(d), src, out);
            dump_expr(test, bumpx(d), src, out);
        },
        Stmt::For { span, init, test, update, body } => {
            push_line(out, d, str_to_chars("For"), empty_text(), *span);
            match init {
                Some(fi) => dump_for_init(fi, bumpx(d), src, out),
                None => {},
            }
            match test {
                Some(t) => dump_expr(t, bumpx(d), src, out),
                None => {},
            }
            match update {
                Some(u) => dump_expr(u, bumpx(d), src, out),
                None => {},
            }
            dump_stmt(&**body, bumpx(d), src, out);
        },
        Stmt::ForIn { span, left, right, body } => {
            push_line(out, d, str_to_chars("ForIn"), empty_text(), *span);
            dump_for_left(left, bumpx(d), src, out);
            dump_expr(right, bumpx(d), src, out);
            dump_stmt(&**body, bumpx(d), src, out);
        },
        Stmt::ForOf { span, awaited, left, right, body } => {
            let det = if *awaited { str_to_chars("await") } else { empty_text() };
            push_line(out, d, str_to_chars("ForOf"), det, *span);
            dump_for_left(left, bumpx(d), src, out);
            dump_expr(right, bumpx(d), src, out);
            dump_stmt(&**body, bumpx(d), src, out);
        },
        Stmt::Switch { span, discriminant, cases } => {
            push_line(out, d, str_to_chars("Switch"), empty_text(), *span);
            dump_expr(discriminant, bumpx(d), src, out);
            dump_switch_cases(cases, 0, bumpx(d), src, out);
        },
        Stmt::Try { span, block, handler, finalizer } => {
            push_line(out, d, str_to_chars("Try"), empty_text(), *span);
            push_line(out, bumpx(d), str_to_chars("Block"), empty_text(), block.span);
            dump_stmts(&block.body, 0, bumpx(bumpx(d)), src, out);
            match handler {
                Some(h) => {
                    push_line(out, bumpx(d), str_to_chars("Catch"), empty_text(), h.span);
                    match &h.param {
                        Some(pb) => dump_binding(pb, bumpx(bumpx(d)), src, out),
                        None => {},
                    }
                    push_line(out, bumpx(bumpx(d)), str_to_chars("Block"), empty_text(), h.body.span);
                    dump_stmts(&h.body.body, 0, bumpx(bumpx(bumpx(d))), src, out);
                },
                None => {},
            }
            match finalizer {
                Some(f) => {
                    push_line(out, bumpx(d), str_to_chars("Finally"), empty_text(), f.span);
                    dump_stmts(&f.body, 0, bumpx(bumpx(d)), src, out);
                },
                None => {},
            }
        },
        Stmt::Return { span, argument } => {
            push_line(out, d, str_to_chars("Return"), empty_text(), *span);
            match argument {
                Some(a) => dump_expr(a, bumpx(d), src, out),
                None => {},
            }
        },
        Stmt::Throw { span, argument } => {
            push_line(out, d, str_to_chars("Throw"), empty_text(), *span);
            dump_expr(argument, bumpx(d), src, out);
        },
        Stmt::Break { span, label } => {
            push_line(out, d, str_to_chars("Break"), copy_text(label), *span);
        },
        Stmt::Continue { span, label } => {
            push_line(out, d, str_to_chars("Continue"), copy_text(label), *span);
        },
        Stmt::ExprStmt { span, expression } => {
            push_line(out, d, str_to_chars("ExprStmt"), empty_text(), *span);
            dump_expr(expression, bumpx(d), src, out);
        },
        Stmt::Empty { span } => {
            push_line(out, d, str_to_chars("Empty"), empty_text(), *span);
        },
        Stmt::Debugger { span } => {
            push_line(out, d, str_to_chars("Debugger"), empty_text(), *span);
        },
        Stmt::With { span, object, body } => {
            push_line(out, d, str_to_chars("With"), empty_text(), *span);
            dump_expr(object, bumpx(d), src, out);
            dump_stmt(&**body, bumpx(d), src, out);
        },
        Stmt::Labeled { span, label, body } => {
            push_line(out, d, str_to_chars("Labeled"), copy_text(label), *span);
            dump_stmt(&**body, bumpx(d), src, out);
        },
        Stmt::VarDecl(v) => dump_var_decl(v, d, src, out),
        Stmt::FuncDecl(f) => dump_func(f, d, src, "FuncDecl", out),
        Stmt::ClassDecl(c) => dump_class(c, d, src, "Class", out),
        Stmt::Import { span, phase, source, specifiers, with_clause } => {
            let mut ws: Vec<Vec<char>> = Vec::new();
            if phase.len() > 0 {
                ws.push(copy_text(phase));
            }
            ws.push(copy_text(source));
            proof {
                assert(wsview(ws@) =~= opt_text(phase@.len() > 0, phase@) + seq![source@]);
            }
            let det = join_words_exec(&ws);
            push_line(out, d, str_to_chars("Import"), det, *span);
            match specifiers {
                Some(specs) => dump_import_specs(specs, 0, bumpx(d), out),
                None => {},
            }
            match with_clause {
                Some(wc) => dump_with_clause(wc, bumpx(d), out),
                None => {},
            }
        },
        Stmt::ExportNamed { span, source, declaration, specifiers, with_clause } => {
            push_line(out, d, str_to_chars("ExportNamed"), copy_text(source), *span);
            match declaration {
                Some(dc) => dump_decl(dc, bumpx(d), src, out),
                None => {},
            }
            dump_export_specs(specifiers, 0, bumpx(d), out);
            match with_clause {
                Some(wc) => dump_with_clause(wc, bumpx(d), out),
                None => {},
            }
        },
        Stmt::ExportDefault { span, declaration } => {
            push_line(out, d, str_to_chars("ExportDefault"), empty_text(), *span);
            match declaration {
                ExportDefaultKind::Func(f) => dump_func(f, bumpx(d), src, "FuncDecl", out),
                ExportDefaultKind::Class(c) => dump_class(c, bumpx(d), src, "Class", out),
                ExportDefaultKind::Expr(e) => dump_expr(e, bumpx(d), src, out),
                ExportDefaultKind::Unsupported { span: usp } => {
                    let sn = snippet(src, *usp, SNIP_CAP);
                    push_line(out, bumpx(d), str_to_chars("?ExportDefault"), sn, *usp);
                },
            }
        },
        Stmt::ExportAll { span, source, exported, with_clause } => {
            let det: Vec<char> = match exported {
                Some(alias) => {
                    let mut v = str_to_chars("* as ");
                    push_text(alias, &mut v);
                    push_text(&str_to_chars(" from "), &mut v);
                    push_text(source, &mut v);
                    assert(v@ =~= "* as "@ + alias@ + " from "@ + source@);
                    v
                },
                None => copy_text(source),
            };
            push_line(out, d, str_to_chars("ExportAll"), det, *span);
            match with_clause {
                Some(wc) => dump_with_clause(wc, bumpx(d), out),
                None => {},
            }
        },
        Stmt::Unsupported { span } => {
            let sn = snippet(src, *span, SNIP_CAP);
            push_line(out, d, str_to_chars("?Stmt"), sn, *span);
        },
    }
    assert(lview(out@) =~= lview(old(out)@) + stmt_lines(*s, d as nat, src@));
}

fn dump_switch_cases(cs: &Vec<SwitchCase>, i: usize, d: usize, src: &[u8], out: &mut Vec<Line>)
    ensures lview(final(out)@) == lview(old(out)@) + switch_cases_from(cs@, i as int, d as nat, src@),
    decreases cs@, cs@.len() - i, 1int,
{
    if i < cs.len() {
        let case = &cs[i];
        match &case.test {
            Some(t) => {
                push_line(out, d, str_to_chars("Case"), empty_text(), case.span);
                dump_expr(t, bumpx(d), src, out);
            },
            None => {
                push_line(out, d, str_to_chars("Default"), empty_text(), case.span);
            },
        }
        dump_stmts(&case.body, 0, bumpx(d), src, out);
        dump_switch_cases(cs, i + 1, d, src, out);
    }
    assert(lview(out@) =~= lview(old(out)@) + switch_cases_from(cs@, i as int, d as nat, src@));
}

fn dump_var_decl(v: &VarDecl, d: usize, src: &[u8], out: &mut Vec<Line>)
    ensures lview(final(out)@) == lview(old(out)@) + var_decl_lines(*v, d as nat, src@),
    decreases *v, 0int, 0int,
{
    push_line(out, d, str_to_chars("VarDecl"), copy_text(&v.kind), v.span);
    dump_declarators(&v.declarations, 0, bumpx(d), src, out);
    assert(lview(out@) =~= lview(old(out)@) + var_decl_lines(*v, d as nat, src@));
}

fn dump_declarators(ds: &Vec<Declarator>, i: usize, d: usize, src: &[u8], out: &mut Vec<Line>)
    ensures lview(final(out)@) == lview(old(out)@) + declarators_from(ds@, i as int, d as nat, src@),
    decreases ds@, ds@.len() - i, 1int,
{
    if i < ds.len() {
        let dc = &ds[i];
        push_line(out, d, str_to_chars("Declarator"), empty_text(), dc.span);
        dump_binding(&dc.id, bumpx(d), src, out);
        match &dc.init {
            Some(e) => dump_expr(e, bumpx(d), src, out),
            None => {},
        }
        dump_declarators(ds, i + 1, d, src, out);
    }
    assert(lview(out@) =~= lview(old(out)@) + declarators_from(ds@, i as int, d as nat, src@));
}

fn dump_func(f: &Func, d: usize, src: &[u8], label: &str, out: &mut Vec<Line>)
    ensures lview(final(out)@) == lview(old(out)@) + func_lines(*f, d as nat, src@, label@),
    decreases *f, 0int, 0int,
{
    let mut ws: Vec<Vec<char>> = Vec::new();
    if f.is_async {
        ws.push(str_to_chars("async"));
    }
    if f.generator {
        ws.push(str_to_chars("*"));
    }
    if f.name.len() > 0 {
        ws.push(copy_text(&f.name));
    }
    proof {
        assert(wsview(ws@) =~= opt_text(f.is_async, "async"@) + opt_text(f.generator, "*"@)
            + opt_text(f.name@.len() > 0, f.name@));
    }
    let flags = join_words_exec(&ws);
    push_line(out, d, str_to_chars(label), flags, f.span);
    dump_params(&f.params, bumpx(d), src, out);
    match &f.body {
        Some(b) => {
            dump_directives(&b.directives, 0, bumpx(d), out);
            dump_stmts(&b.statements, 0, bumpx(d), src, out);
        },
        None => {},
    }
    assert(lview(out@) =~= lview(old(out)@) + func_lines(*f, d as nat, src@, label@));
}

fn dump_params(p: &Params, d: usize, src: &[u8], out: &mut Vec<Line>)
    ensures lview(final(out)@) == lview(old(out)@) + params_lines(*p, d as nat, src@),
    decreases *p, 0int, 0int,
{
    if p.items.len() == 0 && p.rest.is_none() {
        assert(lview(out@) =~= lview(old(out)@) + params_lines(*p, d as nat, src@));
        return;
    }
    push_line(out, d, str_to_chars("Params"), empty_text(), p.span);
    dump_bindings(&p.items, 0, bumpx(d), src, out);
    match &p.rest {
        Some(r) => {
            push_line(out, bumpx(d), str_to_chars("Rest"), empty_text(), r.span);
            dump_binding(&*r.argument, bumpx(bumpx(d)), src, out);
        },
        None => {},
    }
    assert(lview(out@) =~= lview(old(out)@) + params_lines(*p, d as nat, src@));
}

fn dump_bindings(bs: &Vec<Binding>, i: usize, d: usize, src: &[u8], out: &mut Vec<Line>)
    ensures lview(final(out)@) == lview(old(out)@) + bindings_from(bs@, i as int, d as nat, src@),
    decreases bs@, bs@.len() - i, 1int,
{
    if i < bs.len() {
        dump_binding(&bs[i], d, src, out);
        dump_bindings(bs, i + 1, d, src, out);
    }
    assert(lview(out@) =~= lview(old(out)@) + bindings_from(bs@, i as int, d as nat, src@));
}

fn dump_binding(b: &Binding, d: usize, src: &[u8], out: &mut Vec<Line>)
    ensures lview(final(out)@) == lview(old(out)@) + binding_lines(*b, d as nat, src@),
    decreases *b, 0int, 0int,
{
    match b {
        Binding::Ident { span, name } => {
            push_line(out, d, str_to_chars("Ident"), copy_text(name), *span);
        },
        Binding::Object { span, props, rest } => {
            push_line(out, d, str_to_chars("ObjPattern"), empty_text(), *span);
            dump_bind_props(props, 0, bumpx(d), src, out);
            match rest {
                Some(r) => {
                    push_line(out, bumpx(d), str_to_chars("Rest"), empty_text(), r.span);
                    dump_binding(&*r.argument, bumpx(bumpx(d)), src, out);
                },
                None => {},
            }
        },
        Binding::Array { span, elements, rest } => {
            push_line(out, d, str_to_chars("ArrPattern"), empty_text(), *span);
            dump_opt_bindings(elements, 0, bumpx(d), src, *span, out);
            match rest {
                Some(r) => {
                    push_line(out, bumpx(d), str_to_chars("Rest"), empty_text(), r.span);
                    dump_binding(&*r.argument, bumpx(bumpx(d)), src, out);
                },
                None => {},
            }
        },
        Binding::Assign { span, left, right } => {
            push_line(out, d, str_to_chars("AssignPattern"), empty_text(), *span);
            dump_binding(&**left, bumpx(d), src, out);
            dump_expr(&**right, bumpx(d), src, out);
        },
    }
    assert(lview(out@) =~= lview(old(out)@) + binding_lines(*b, d as nat, src@));
}

fn dump_bind_props(ps: &Vec<BindProp>, i: usize, d: usize, src: &[u8], out: &mut Vec<Line>)
    ensures lview(final(out)@) == lview(old(out)@) + bind_props_from(ps@, i as int, d as nat, src@),
    decreases ps@, ps@.len() - i, 1int,
{
    if i < ps.len() {
        let p = &ps[i];
        let det = if p.shorthand { str_to_chars("shorthand") } else { empty_text() };
        push_line(out, d, str_to_chars("BindProp"), det, p.span);
        dump_prop_key(&p.key, bumpx(d), src, out);
        dump_binding(&p.value, bumpx(d), src, out);
        dump_bind_props(ps, i + 1, d, src, out);
    }
    assert(lview(out@) =~= lview(old(out)@) + bind_props_from(ps@, i as int, d as nat, src@));
}

fn dump_opt_bindings(es: &Vec<Option<Binding>>, i: usize, d: usize, src: &[u8], pspan: Span, out: &mut Vec<Line>)
    ensures lview(final(out)@) == lview(old(out)@) + opt_bindings_from(es@, i as int, d as nat, src@, pspan),
    decreases es@, es@.len() - i, 1int,
{
    if i < es.len() {
        match &es[i] {
            Some(b) => dump_binding(b, d, src, out),
            None => {
                push_line(out, d, str_to_chars("Elision"), empty_text(), pspan);
            },
        }
        dump_opt_bindings(es, i + 1, d, src, pspan, out);
    }
    assert(lview(out@) =~= lview(old(out)@) + opt_bindings_from(es@, i as int, d as nat, src@, pspan));
}

fn dump_class(c: &Class, d: usize, src: &[u8], label: &str, out: &mut Vec<Line>)
    ensures lview(final(out)@) == lview(old(out)@) + class_lines(*c, d as nat, src@, label@),
    decreases *c, 0int, 0int,
{
    push_line(out, d, str_to_chars(label), copy_text(&c.name), c.span);
    match &c.super_class {
        Some(sc) => {
            push_line(out, bumpx(d), str_to_chars("Extends"), empty_text(), sc.0);
            dump_expr(&*sc.1, bumpx(bumpx(d)), src, out);
        },
        None => {},
    }
    dump_class_elems(&c.body, 0, bumpx(d), src, out);
    assert(lview(out@) =~= lview(old(out)@) + class_lines(*c, d as nat, src@, label@));
}

#[verifier::rlimit(100)]
#[verifier::spinoff_prover]
fn dump_class_elems(es: &Vec<ClassElem>, i: usize, d: usize, src: &[u8], out: &mut Vec<Line>)
    ensures lview(final(out)@) == lview(old(out)@) + class_elems_from(es@, i as int, d as nat, src@),
    decreases es@, es@.len() - i, 1int,
{
    if i < es.len() {
        match &es[i] {
            ClassElem::Method { span, is_static, kind, computed, key, value } => {
                let mut ws: Vec<Vec<char>> = Vec::new();
                if *is_static {
                    ws.push(str_to_chars("static"));
                }
                match kind {
                    MethodKind::Constructor => ws.push(str_to_chars("constructor")),
                    MethodKind::Getter => ws.push(str_to_chars("get")),
                    MethodKind::Setter => ws.push(str_to_chars("set")),
                    MethodKind::Plain => {},
                }
                if *computed {
                    ws.push(str_to_chars("computed"));
                }
                proof {
                    assert(wsview(ws@) =~= opt_text(*is_static, "static"@)
                        + (match *kind {
                            MethodKind::Constructor => seq!["constructor"@],
                            MethodKind::Getter => seq!["get"@],
                            MethodKind::Setter => seq!["set"@],
                            MethodKind::Plain => Seq::empty(),
                        })
                        + opt_text(*computed, "computed"@));
                }
                let flags = join_words_exec(&ws);
                push_line(out, d, str_to_chars("Method"), flags, *span);
                dump_prop_key(key, bumpx(d), src, out);
                dump_func(value, bumpx(d), src, "Body", out);
            },
            ClassElem::Property { span, is_static, computed, key, value } => {
                let mut ws: Vec<Vec<char>> = Vec::new();
                if *is_static {
                    ws.push(str_to_chars("static"));
                }
                if *computed {
                    ws.push(str_to_chars("computed"));
                }
                proof {
                    assert(wsview(ws@) =~= opt_text(*is_static, "static"@)
                        + opt_text(*computed, "computed"@));
                }
                let flags = join_words_exec(&ws);
                push_line(out, d, str_to_chars("ClassProp"), flags, *span);
                dump_prop_key(key, bumpx(d), src, out);
                match value {
                    Some(e) => dump_expr(e, bumpx(d), src, out),
                    None => {},
                }
            },
            ClassElem::Accessor { span, is_static, computed, key, value } => {
                let mut ws: Vec<Vec<char>> = Vec::new();
                if *is_static {
                    ws.push(str_to_chars("static"));
                }
                if *computed {
                    ws.push(str_to_chars("computed"));
                }
                proof {
                    assert(wsview(ws@) =~= opt_text(*is_static, "static"@)
                        + opt_text(*computed, "computed"@));
                }
                let flags = join_words_exec(&ws);
                push_line(out, d, str_to_chars("Accessor"), flags, *span);
                dump_prop_key(key, bumpx(d), src, out);
                match value {
                    Some(e) => dump_expr(e, bumpx(d), src, out),
                    None => {},
                }
            },
            ClassElem::StaticBlock { span, body } => {
                push_line(out, d, str_to_chars("StaticBlock"), empty_text(), *span);
                dump_stmts(body, 0, bumpx(d), src, out);
            },
            ClassElem::Unsupported { span } => {
                push_line(out, d, str_to_chars("?ClassElem"), empty_text(), *span);
            },
        }
        dump_class_elems(es, i + 1, d, src, out);
    }
    assert(lview(out@) =~= lview(old(out)@) + class_elems_from(es@, i as int, d as nat, src@));
}

fn dump_prop_key(k: &PropKey, d: usize, src: &[u8], out: &mut Vec<Line>)
    ensures lview(final(out)@) == lview(old(out)@) + prop_key_lines(*k, d as nat, src@),
    decreases *k, 0int, 0int,
{
    match k {
        PropKey::Ident { span, name } => {
            push_line(out, d, str_to_chars("Ident"), copy_text(name), *span);
        },
        PropKey::Private { span, name } => {
            push_line(out, d, str_to_chars("PrivateIdent"), copy_text(name), *span);
        },
        PropKey::Computed(e) => dump_expr(&**e, d, src, out),
        PropKey::Unsupported { span } => {
            push_line(out, d, str_to_chars("?Key"), empty_text(), *span);
        },
    }
    assert(lview(out@) =~= lview(old(out)@) + prop_key_lines(*k, d as nat, src@));
}

fn dump_exprs(es: &Vec<Expr>, i: usize, d: usize, src: &[u8], out: &mut Vec<Line>)
    ensures lview(final(out)@) == lview(old(out)@) + exprs_from(es@, i as int, d as nat, src@),
    decreases es@, es@.len() - i, 1int,
{
    if i < es.len() {
        dump_expr(&es[i], d, src, out);
        dump_exprs(es, i + 1, d, src, out);
    }
    assert(lview(out@) =~= lview(old(out)@) + exprs_from(es@, i as int, d as nat, src@));
}

fn dump_args(args: &Vec<Arg>, i: usize, d: usize, src: &[u8], out: &mut Vec<Line>)
    ensures lview(final(out)@) == lview(old(out)@) + args_from(args@, i as int, d as nat, src@),
    decreases args@, args@.len() - i, 1int,
{
    if i < args.len() {
        match &args[i] {
            Arg::Spread { span, argument } => {
                push_line(out, d, str_to_chars("Spread"), empty_text(), *span);
                dump_expr(argument, bumpx(d), src, out);
            },
            Arg::Item(e) => dump_expr(e, d, src, out),
        }
        dump_args(args, i + 1, d, src, out);
    }
    assert(lview(out@) =~= lview(old(out)@) + args_from(args@, i as int, d as nat, src@));
}

fn dump_arr_elems(es: &Vec<ArrElem>, i: usize, d: usize, src: &[u8], out: &mut Vec<Line>)
    ensures lview(final(out)@) == lview(old(out)@) + arr_elems_from(es@, i as int, d as nat, src@),
    decreases es@, es@.len() - i, 1int,
{
    if i < es.len() {
        match &es[i] {
            ArrElem::Spread { span, argument } => {
                push_line(out, d, str_to_chars("Spread"), empty_text(), *span);
                dump_expr(argument, bumpx(d), src, out);
            },
            ArrElem::Elision { span } => {
                push_line(out, d, str_to_chars("Elision"), empty_text(), *span);
            },
            ArrElem::Item(e) => dump_expr(e, d, src, out),
            ArrElem::Unsupported { span } => {
                push_line(out, d, str_to_chars("?ArrElem"), empty_text(), *span);
            },
        }
        dump_arr_elems(es, i + 1, d, src, out);
    }
    assert(lview(out@) =~= lview(old(out)@) + arr_elems_from(es@, i as int, d as nat, src@));
}

#[verifier::rlimit(100)]
#[verifier::spinoff_prover]
fn dump_obj_props(ps: &Vec<ObjProp>, i: usize, d: usize, src: &[u8], out: &mut Vec<Line>)
    ensures lview(final(out)@) == lview(old(out)@) + obj_props_from(ps@, i as int, d as nat, src@),
    decreases ps@, ps@.len() - i, 1int,
{
    if i < ps.len() {
        match &ps[i] {
            ObjProp::Property { span, shorthand, computed, method, kind, key, value } => {
                let mut ws: Vec<Vec<char>> = Vec::new();
                if *shorthand {
                    ws.push(str_to_chars("shorthand"));
                }
                if *computed {
                    ws.push(str_to_chars("computed"));
                }
                if *method {
                    ws.push(str_to_chars("method"));
                }
                match kind {
                    PropertyKind::Getter => ws.push(str_to_chars("get")),
                    PropertyKind::Setter => ws.push(str_to_chars("set")),
                    PropertyKind::Init => {},
                }
                proof {
                    assert(wsview(ws@) =~= opt_text(*shorthand, "shorthand"@)
                        + opt_text(*computed, "computed"@) + opt_text(*method, "method"@)
                        + (match *kind {
                            PropertyKind::Getter => seq!["get"@],
                            PropertyKind::Setter => seq!["set"@],
                            PropertyKind::Init => Seq::empty(),
                        }));
                }
                let flags = join_words_exec(&ws);
                push_line(out, d, str_to_chars("Property"), flags, *span);
                dump_prop_key(key, bumpx(d), src, out);
                if !*shorthand {
                    dump_expr(value, bumpx(d), src, out);
                }
            },
            ObjProp::Spread { span, argument } => {
                push_line(out, d, str_to_chars("Spread"), empty_text(), *span);
                dump_expr(argument, bumpx(d), src, out);
            },
        }
        dump_obj_props(ps, i + 1, d, src, out);
    }
    assert(lview(out@) =~= lview(old(out)@) + obj_props_from(ps@, i as int, d as nat, src@));
}

fn dump_template_parts(quasis: &Vec<Span>, es: &Vec<Expr>, i: usize, d: usize, src: &[u8], out: &mut Vec<Line>)
    ensures lview(final(out)@) == lview(old(out)@) + template_parts_from(quasis@, es@, i as int, d as nat, src@),
    decreases es@, quasis@.len() - i, 1int,
{
    if i < quasis.len() {
        let sn = snippet(src, quasis[i], SNIP_CAP);
        push_line(out, d, str_to_chars("Quasi"), sn, quasis[i]);
        if i < es.len() {
            dump_expr(&es[i], d, src, out);
        }
        dump_template_parts(quasis, es, i + 1, d, src, out);
    }
    assert(lview(out@) =~= lview(old(out)@) + template_parts_from(quasis@, es@, i as int, d as nat, src@));
}

#[verifier::rlimit(100)]
#[verifier::spinoff_prover]
fn dump_expr(e: &Expr, d: usize, src: &[u8], out: &mut Vec<Line>)
    ensures lview(final(out)@) == lview(old(out)@) + expr_lines(*e, d as nat, src@),
    decreases *e, 0int, 0int,
{
    match e {
        Expr::Ident { span, name } => {
            push_line(out, d, str_to_chars("Ident"), copy_text(name), *span);
        },
        Expr::NumLit { span } => {
            let sn = snippet(src, *span, SNIP_CAP);
            push_line(out, d, str_to_chars("NumLit"), sn, *span);
        },
        Expr::StrLit { span } => {
            let sn = snippet(src, *span, SNIP_CAP);
            push_line(out, d, str_to_chars("StrLit"), sn, *span);
        },
        Expr::BoolLit { span, value } => {
            let kindt = if *value { str_to_chars("true") } else { str_to_chars("false") };
            push_line(out, d, kindt, empty_text(), *span);
        },
        Expr::NullLit { span } => {
            push_line(out, d, str_to_chars("null"), empty_text(), *span);
        },
        Expr::BigInt { span } => {
            let sn = snippet(src, *span, SNIP_CAP);
            push_line(out, d, str_to_chars("BigInt"), sn, *span);
        },
        Expr::Regex { span } => {
            let sn = snippet(src, *span, SNIP_CAP);
            push_line(out, d, str_to_chars("Regex"), sn, *span);
        },
        Expr::This { span } => {
            push_line(out, d, str_to_chars("this"), empty_text(), *span);
        },
        Expr::Super { span } => {
            push_line(out, d, str_to_chars("super"), empty_text(), *span);
        },
        Expr::Template { span, quasis, expressions } => {
            push_line(out, d, str_to_chars("Template"), empty_text(), *span);
            dump_template_parts(quasis, expressions, 0, bumpx(d), src, out);
        },
        Expr::Binary { span, op, left, right } => {
            push_line(out, d, str_to_chars("Binary"), copy_text(op), *span);
            dump_expr(&**left, bumpx(d), src, out);
            dump_expr(&**right, bumpx(d), src, out);
        },
        Expr::Logical { span, op, left, right } => {
            push_line(out, d, str_to_chars("Logical"), copy_text(op), *span);
            dump_expr(&**left, bumpx(d), src, out);
            dump_expr(&**right, bumpx(d), src, out);
        },
        Expr::Unary { span, op, argument } => {
            push_line(out, d, str_to_chars("Unary"), copy_text(op), *span);
            dump_expr(&**argument, bumpx(d), src, out);
        },
        Expr::Update { span, op, prefix, argument } => {
            let mut ws: Vec<Vec<char>> = Vec::new();
            ws.push(copy_text(op));
            ws.push(if *prefix { str_to_chars("prefix") } else { str_to_chars("postfix") });
            proof {
                assert(wsview(ws@) =~= seq![op@, if *prefix { "prefix"@ } else { "postfix"@ }]);
            }
            let det = join_words_exec(&ws);
            push_line(out, d, str_to_chars("Update"), det, *span);
            dump_simple_target(argument, bumpx(d), src, out);
        },
        Expr::Assign { span, op, left, right } => {
            push_line(out, d, str_to_chars("Assign"), copy_text(op), *span);
            dump_assign_target(left, bumpx(d), src, out);
            dump_expr(&**right, bumpx(d), src, out);
        },
        Expr::Ternary { span, test, consequent, alternate } => {
            push_line(out, d, str_to_chars("Ternary"), empty_text(), *span);
            dump_expr(&**test, bumpx(d), src, out);
            dump_expr(&**consequent, bumpx(d), src, out);
            dump_expr(&**alternate, bumpx(d), src, out);
        },
        Expr::Call { span, optional, callee, arguments } => {
            let det = if *optional { str_to_chars("?.") } else { empty_text() };
            push_line(out, d, str_to_chars("Call"), det, *span);
            dump_expr(&**callee, bumpx(d), src, out);
            dump_args(arguments, 0, bumpx(d), src, out);
        },
        Expr::New { span, callee, arguments } => {
            push_line(out, d, str_to_chars("New"), empty_text(), *span);
            dump_expr(&**callee, bumpx(d), src, out);
            dump_args(arguments, 0, bumpx(d), src, out);
        },
        Expr::Member { span, optional, property, object } => {
            let det: Vec<char> = if *optional {
                let mut v = str_to_chars("?.");
                push_text(property, &mut v);
                assert(v@ =~= "?."@ + property@);
                v
            } else {
                copy_text(property)
            };
            push_line(out, d, str_to_chars("Member"), det, *span);
            dump_expr(&**object, bumpx(d), src, out);
        },
        Expr::Index { span, optional, object, expression } => {
            let det = if *optional { str_to_chars("?.[]") } else { str_to_chars("[]") };
            push_line(out, d, str_to_chars("Index"), det, *span);
            dump_expr(&**object, bumpx(d), src, out);
            dump_expr(&**expression, bumpx(d), src, out);
        },
        Expr::PrivateField { span, field, object } => {
            push_line(out, d, str_to_chars("PrivateField"), copy_text(field), *span);
            dump_expr(&**object, bumpx(d), src, out);
        },
        Expr::Array { span, elements } => {
            push_line(out, d, str_to_chars("Array"), empty_text(), *span);
            dump_arr_elems(elements, 0, bumpx(d), src, out);
        },
        Expr::ObjectLit { span, properties } => {
            push_line(out, d, str_to_chars("Object"), empty_text(), *span);
            dump_obj_props(properties, 0, bumpx(d), src, out);
        },
        Expr::FuncExpr(f) => dump_func(f, d, src, "FuncExpr", out),
        Expr::Arrow { span, is_async, expr_body, params, directives, statements } => {
            let mut ws: Vec<Vec<char>> = Vec::new();
            if *is_async {
                ws.push(str_to_chars("async"));
            }
            ws.push(if *expr_body { str_to_chars("expr") } else { str_to_chars("block") });
            proof {
                assert(wsview(ws@) =~= opt_text(*is_async, "async"@)
                    + seq![if *expr_body { "expr"@ } else { "block"@ }]);
            }
            let flags = join_words_exec(&ws);
            push_line(out, d, str_to_chars("Arrow"), flags, *span);
            dump_params(params, bumpx(d), src, out);
            dump_directives(directives, 0, bumpx(d), out);
            dump_stmts(statements, 0, bumpx(d), src, out);
        },
        Expr::ClassExpr(c) => dump_class(c, d, src, "ClassExpr", out),
        Expr::Sequence { span, expressions } => {
            push_line(out, d, str_to_chars("Sequence"), empty_text(), *span);
            dump_exprs(expressions, 0, bumpx(d), src, out);
        },
        Expr::Await { span, argument } => {
            push_line(out, d, str_to_chars("Await"), empty_text(), *span);
            dump_expr(&**argument, bumpx(d), src, out);
        },
        Expr::Yield { span, delegate, argument } => {
            let det = if *delegate { str_to_chars("*") } else { empty_text() };
            push_line(out, d, str_to_chars("Yield"), det, *span);
            match argument {
                Some(a) => dump_expr(&**a, bumpx(d), src, out),
                None => {},
            }
        },
        Expr::TaggedTemplate { span, tag, quasi_span, quasis, expressions } => {
            push_line(out, d, str_to_chars("TaggedTemplate"), empty_text(), *span);
            dump_expr(&**tag, bumpx(d), src, out);
            push_line(out, bumpx(d), str_to_chars("Template"), empty_text(), *quasi_span);
            dump_template_parts(quasis, expressions, 0, bumpx(bumpx(d)), src, out);
        },
        Expr::ImportExpr { span, source, options } => {
            push_line(out, d, str_to_chars("ImportExpr"), empty_text(), *span);
            dump_expr(&**source, bumpx(d), src, out);
            match options {
                Some(o) => {
                    push_line(out, bumpx(d), str_to_chars("ImportOptions"), empty_text(), o.0);
                    dump_expr(&*o.1, bumpx(bumpx(d)), src, out);
                },
                None => {},
            }
        },
        Expr::Chain { span, element } => {
            push_line(out, d, str_to_chars("Chain"), empty_text(), *span);
            dump_chain_elem(element, bumpx(d), src, out);
        },
        Expr::MetaProperty { span, meta, property } => {
            let mut det = copy_text(meta);
            push_text(&str_to_chars("."), &mut det);
            push_text(property, &mut det);
            assert(det@ =~= meta@ + "."@ + property@);
            push_line(out, d, str_to_chars("MetaProperty"), det, *span);
        },
        Expr::PrivateIn { span, name, right } => {
            push_line(out, d, str_to_chars("PrivateIn"), copy_text(name), *span);
            dump_expr(&**right, bumpx(d), src, out);
        },
        Expr::Unsupported { span } => {
            let sn = snippet(src, *span, SNIP_CAP);
            push_line(out, d, str_to_chars("?Expr"), sn, *span);
        },
    }
    assert(lview(out@) =~= lview(old(out)@) + expr_lines(*e, d as nat, src@));
}

fn dump_chain_elem(c: &ChainElem, d: usize, src: &[u8], out: &mut Vec<Line>)
    ensures lview(final(out)@) == lview(old(out)@) + chain_elem_lines(*c, d as nat, src@),
    decreases *c, 0int, 0int,
{
    match c {
        ChainElem::Call { span, callee, arguments } => {
            push_line(out, d, str_to_chars("Call"), str_to_chars("?."), *span);
            dump_expr(&**callee, bumpx(d), src, out);
            dump_args(arguments, 0, bumpx(d), src, out);
        },
        ChainElem::Index { span, object, expression } => {
            push_line(out, d, str_to_chars("Index"), str_to_chars("?.[]"), *span);
            dump_expr(&**object, bumpx(d), src, out);
            dump_expr(&**expression, bumpx(d), src, out);
        },
        ChainElem::Member { span, property, object } => {
            let mut det = str_to_chars("?.");
            push_text(property, &mut det);
            assert(det@ =~= "?."@ + property@);
            push_line(out, d, str_to_chars("Member"), det, *span);
            dump_expr(&**object, bumpx(d), src, out);
        },
        ChainElem::PrivateField { span, field, object } => {
            let mut det = str_to_chars("?.");
            push_text(field, &mut det);
            assert(det@ =~= "?."@ + field@);
            push_line(out, d, str_to_chars("PrivateField"), det, *span);
            dump_expr(&**object, bumpx(d), src, out);
        },
        ChainElem::Unsupported { span } => {
            push_line(out, d, str_to_chars("?Chain"), empty_text(), *span);
        },
    }
    assert(lview(out@) =~= lview(old(out)@) + chain_elem_lines(*c, d as nat, src@));
}

fn dump_for_init(fi: &ForInit, d: usize, src: &[u8], out: &mut Vec<Line>)
    ensures lview(final(out)@) == lview(old(out)@) + for_init_lines(*fi, d as nat, src@),
    decreases *fi, 0int, 0int,
{
    match fi {
        ForInit::Var(v) => dump_var_decl(v, d, src, out),
        ForInit::Item(e) => dump_expr(e, d, src, out),
        ForInit::Unsupported { span } => {
            let sn = snippet(src, *span, SNIP_CAP);
            push_line(out, d, str_to_chars("?ForInit"), sn, *span);
        },
    }
    assert(lview(out@) =~= lview(old(out)@) + for_init_lines(*fi, d as nat, src@));
}

fn dump_for_left(fl: &ForLeft, d: usize, src: &[u8], out: &mut Vec<Line>)
    ensures lview(final(out)@) == lview(old(out)@) + for_left_lines(*fl, d as nat, src@),
    decreases *fl, 0int, 0int,
{
    match fl {
        ForLeft::Var(v) => dump_var_decl(v, d, src, out),
        ForLeft::Ident { span, name } => {
            push_line(out, d, str_to_chars("Ident"), copy_text(name), *span);
        },
        ForLeft::Index { span, object, expression } => {
            push_line(out, d, str_to_chars("Index"), str_to_chars("[]"), *span);
            dump_expr(object, bumpx(d), src, out);
            dump_expr(expression, bumpx(d), src, out);
        },
        ForLeft::Member { span, property, object } => {
            push_line(out, d, str_to_chars("Member"), copy_text(property), *span);
            dump_expr(object, bumpx(d), src, out);
        },
        ForLeft::PrivateField { span, field, object } => {
            push_line(out, d, str_to_chars("PrivateField"), copy_text(field), *span);
            dump_expr(object, bumpx(d), src, out);
        },
        ForLeft::ArrayTarget(a) => dump_array_target(a, d, src, out),
        ForLeft::ObjectTarget(o) => dump_object_target(o, d, src, out),
        ForLeft::Unsupported { span } => {
            push_line(out, d, str_to_chars("?ForLeft"), empty_text(), *span);
        },
    }
    assert(lview(out@) =~= lview(old(out)@) + for_left_lines(*fl, d as nat, src@));
}

fn dump_assign_target(t: &AssignTarget, d: usize, src: &[u8], out: &mut Vec<Line>)
    ensures lview(final(out)@) == lview(old(out)@) + assign_target_lines(*t, d as nat, src@),
    decreases *t, 0int, 0int,
{
    match t {
        AssignTarget::Ident { span, name } => {
            push_line(out, d, str_to_chars("Ident"), copy_text(name), *span);
        },
        AssignTarget::Index { span, object, expression } => {
            push_line(out, d, str_to_chars("Index"), str_to_chars("[]"), *span);
            dump_expr(&**object, bumpx(d), src, out);
            dump_expr(&**expression, bumpx(d), src, out);
        },
        AssignTarget::Member { span, property, object } => {
            push_line(out, d, str_to_chars("Member"), copy_text(property), *span);
            dump_expr(&**object, bumpx(d), src, out);
        },
        AssignTarget::PrivateField { span, field, object } => {
            push_line(out, d, str_to_chars("PrivateField"), copy_text(field), *span);
            dump_expr(&**object, bumpx(d), src, out);
        },
        AssignTarget::ArrayTarget(a) => dump_array_target(&**a, d, src, out),
        AssignTarget::ObjectTarget(o) => dump_object_target(&**o, d, src, out),
        AssignTarget::Unsupported { span } => {
            push_line(out, d, str_to_chars("?Target"), empty_text(), *span);
        },
    }
    assert(lview(out@) =~= lview(old(out)@) + assign_target_lines(*t, d as nat, src@));
}

fn dump_array_target(a: &ArrayAssignTarget, d: usize, src: &[u8], out: &mut Vec<Line>)
    ensures lview(final(out)@) == lview(old(out)@) + array_target_lines(*a, d as nat, src@),
    decreases *a, 0int, 0int,
{
    push_line(out, d, str_to_chars("ArrPattern"), empty_text(), a.span);
    dump_target_elems(&a.elements, 0, bumpx(d), src, a.span, out);
    match &a.rest {
        Some(r) => {
            push_line(out, bumpx(d), str_to_chars("Rest"), empty_text(), r.span);
            dump_assign_target(&*r.target, bumpx(bumpx(d)), src, out);
        },
        None => {},
    }
    assert(lview(out@) =~= lview(old(out)@) + array_target_lines(*a, d as nat, src@));
}

fn dump_target_elems(es: &Vec<Option<TargetMaybeDefault>>, i: usize, d: usize, src: &[u8], pspan: Span, out: &mut Vec<Line>)
    ensures lview(final(out)@) == lview(old(out)@) + target_elems_from(es@, i as int, d as nat, src@, pspan),
    decreases es@, es@.len() - i, 1int,
{
    if i < es.len() {
        match &es[i] {
            Some(t) => dump_target_maybe_default(t, d, src, out),
            None => {
                push_line(out, d, str_to_chars("Elision"), empty_text(), pspan);
            },
        }
        dump_target_elems(es, i + 1, d, src, pspan, out);
    }
    assert(lview(out@) =~= lview(old(out)@) + target_elems_from(es@, i as int, d as nat, src@, pspan));
}

fn dump_object_target(o: &ObjectAssignTarget, d: usize, src: &[u8], out: &mut Vec<Line>)
    ensures lview(final(out)@) == lview(old(out)@) + object_target_lines(*o, d as nat, src@),
    decreases *o, 0int, 0int,
{
    push_line(out, d, str_to_chars("ObjPattern"), empty_text(), o.span);
    dump_obj_target_props(&o.properties, 0, bumpx(d), src, out);
    match &o.rest {
        Some(r) => {
            push_line(out, bumpx(d), str_to_chars("Rest"), empty_text(), r.span);
            dump_assign_target(&*r.target, bumpx(bumpx(d)), src, out);
        },
        None => {},
    }
    assert(lview(out@) =~= lview(old(out)@) + object_target_lines(*o, d as nat, src@));
}

fn dump_obj_target_props(ps: &Vec<ObjTargetProp>, i: usize, d: usize, src: &[u8], out: &mut Vec<Line>)
    ensures lview(final(out)@) == lview(old(out)@) + obj_target_props_from(ps@, i as int, d as nat, src@),
    decreases ps@, ps@.len() - i, 1int,
{
    if i < ps.len() {
        match &ps[i] {
            ObjTargetProp::Ident { span, name, init } => {
                let mut ws: Vec<Vec<char>> = Vec::new();
                ws.push(str_to_chars("shorthand"));
                ws.push(copy_text(name));
                proof {
                    assert(wsview(ws@) =~= seq!["shorthand"@, name@]);
                }
                let det = join_words_exec(&ws);
                push_line(out, d, str_to_chars("BindProp"), det, *span);
                match init {
                    Some(e) => dump_expr(e, bumpx(d), src, out),
                    None => {},
                }
            },
            ObjTargetProp::Prop { span, computed, name, binding } => {
                let det = if *computed { str_to_chars("computed") } else { empty_text() };
                push_line(out, d, str_to_chars("BindProp"), det, *span);
                dump_prop_key(name, bumpx(d), src, out);
                dump_target_maybe_default(binding, bumpx(d), src, out);
            },
        }
        dump_obj_target_props(ps, i + 1, d, src, out);
    }
    assert(lview(out@) =~= lview(old(out)@) + obj_target_props_from(ps@, i as int, d as nat, src@));
}

fn dump_target_maybe_default(t: &TargetMaybeDefault, d: usize, src: &[u8], out: &mut Vec<Line>)
    ensures lview(final(out)@) == lview(old(out)@) + target_maybe_default_lines(*t, d as nat, src@),
    decreases *t, 0int, 0int,
{
    match t {
        TargetMaybeDefault::WithDefault { span, binding, init } => {
            push_line(out, d, str_to_chars("AssignDefault"), empty_text(), *span);
            dump_assign_target(binding, bumpx(d), src, out);
            dump_expr(&**init, bumpx(d), src, out);
        },
        TargetMaybeDefault::Target(t2) => dump_assign_target(t2, d, src, out),
        TargetMaybeDefault::Unsupported { span } => {
            push_line(out, d, str_to_chars("?MaybeDefault"), empty_text(), *span);
        },
    }
    assert(lview(out@) =~= lview(old(out)@) + target_maybe_default_lines(*t, d as nat, src@));
}

fn dump_simple_target(t: &SimpleTarget, d: usize, src: &[u8], out: &mut Vec<Line>)
    ensures lview(final(out)@) == lview(old(out)@) + simple_target_lines(*t, d as nat, src@),
    decreases *t, 0int, 0int,
{
    match t {
        SimpleTarget::Ident { span, name } => {
            push_line(out, d, str_to_chars("Ident"), copy_text(name), *span);
        },
        SimpleTarget::Index { span, object, expression } => {
            push_line(out, d, str_to_chars("Index"), str_to_chars("[]"), *span);
            dump_expr(&**object, bumpx(d), src, out);
            dump_expr(&**expression, bumpx(d), src, out);
        },
        SimpleTarget::Member { span, property, object } => {
            push_line(out, d, str_to_chars("Member"), copy_text(property), *span);
            dump_expr(&**object, bumpx(d), src, out);
        },
        SimpleTarget::PrivateField { span, field, object } => {
            push_line(out, d, str_to_chars("PrivateField"), copy_text(field), *span);
            dump_expr(&**object, bumpx(d), src, out);
        },
        SimpleTarget::Unsupported { span } => {
            push_line(out, d, str_to_chars("?SimpleTarget"), empty_text(), *span);
        },
    }
    assert(lview(out@) =~= lview(old(out)@) + simple_target_lines(*t, d as nat, src@));
}

fn dump_decl(dc: &Decl, d: usize, src: &[u8], out: &mut Vec<Line>)
    ensures lview(final(out)@) == lview(old(out)@) + decl_lines(*dc, d as nat, src@),
    decreases *dc, 0int, 0int,
{
    match dc {
        Decl::Var(v) => dump_var_decl(v, d, src, out),
        Decl::Func(f) => dump_func(f, d, src, "FuncDecl", out),
        Decl::Class(c) => dump_class(c, d, src, "Class", out),
        Decl::Unsupported { span } => {
            push_line(out, d, str_to_chars("?Decl"), empty_text(), *span);
        },
    }
    assert(lview(out@) =~= lview(old(out)@) + decl_lines(*dc, d as nat, src@));
}

fn dump_import_specs(ss: &Vec<ImportSpec>, i: usize, d: usize, out: &mut Vec<Line>)
    ensures lview(final(out)@) == lview(old(out)@) + import_specs_from(ss@, i as int, d as nat),
    decreases ss@.len() - i,
{
    if i < ss.len() {
        match &ss[i] {
            ImportSpec::Named { span, imported, local } => {
                let det = alias_detail_exec(imported, local);
                push_line(out, d, str_to_chars("ImportSpec"), det, *span);
            },
            ImportSpec::Default { span, local } => {
                push_line(out, d, str_to_chars("ImportDefault"), copy_text(local), *span);
            },
            ImportSpec::Namespace { span, local } => {
                push_line(out, d, str_to_chars("ImportNamespace"), copy_text(local), *span);
            },
        }
        dump_import_specs(ss, i + 1, d, out);
    }
    assert(lview(out@) =~= lview(old(out)@) + import_specs_from(ss@, i as int, d as nat));
}

fn dump_export_specs(ss: &Vec<ExportSpec>, i: usize, d: usize, out: &mut Vec<Line>)
    ensures lview(final(out)@) == lview(old(out)@) + export_specs_from(ss@, i as int, d as nat),
    decreases ss@.len() - i,
{
    if i < ss.len() {
        let det = alias_detail_exec(&ss[i].local, &ss[i].exported);
        push_line(out, d, str_to_chars("ExportSpec"), det, ss[i].span);
        dump_export_specs(ss, i + 1, d, out);
    }
    assert(lview(out@) =~= lview(old(out)@) + export_specs_from(ss@, i as int, d as nat));
}

fn dump_with_clause(wc: &WithClause, d: usize, out: &mut Vec<Line>)
    ensures lview(final(out)@) == lview(old(out)@) + with_clause_lines(*wc, d as nat),
{
    push_line(out, d, str_to_chars("WithClause"), copy_text(&wc.keyword), wc.span);
    dump_attrs(&wc.entries, 0, bumpx(d), out);
    assert(lview(out@) =~= lview(old(out)@) + with_clause_lines(*wc, d as nat));
}

fn dump_attrs(es: &Vec<ImportAttr>, i: usize, d: usize, out: &mut Vec<Line>)
    ensures lview(final(out)@) == lview(old(out)@) + attrs_from(es@, i as int, d as nat),
    decreases es@.len() - i,
{
    if i < es.len() {
        let mut det = copy_text(&es[i].key);
        push_text(&str_to_chars(": \""), &mut det);
        push_text(&es[i].value, &mut det);
        push_text(&str_to_chars("\""), &mut det);
        assert(det@ =~= es@[i as int].key@ + ": \""@ + es@[i as int].value@ + "\""@);
        push_line(out, d, str_to_chars("Attr"), det, es[i].span);
        dump_attrs(es, i + 1, d, out);
    }
    assert(lview(out@) =~= lview(old(out)@) + attrs_from(es@, i as int, d as nat));
}


/// The tree dump of a program: the `=== AST ===` header, one rendered line
/// per visited node, and the unsupported-node counter — exactly the number
/// of placeholder lines the dump holds.
pub fn ast_dump(p: &ProgramNode, src: &[u8]) -> (r: (Vec<char>, usize))
    ensures
        r.0@ == "=== AST ===\n"@ + crate::line::render_all(program_lines(*p, src@)),
        r.1 == crate::line::placeholder_count(program_lines(*p, src@)),
{
    let mut lines: Vec<Line> = Vec::new();
    dump_program(p, src, &mut lines);
    let count = crate::line::count_placeholders(&lines);
    let rendered = crate::line::render_lines(&lines);
    let mut out = str_to_chars("=== AST ===\n");
    push_text(&rendered, &mut out);
    assert(out@ =~= "=== AST ===\n"@ + crate::line::render_all(program_lines(*p, src@)));
    (out, count)
}

} // verus!
