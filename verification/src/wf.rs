//! Span validity of the tree dump.
//!
//! A tree is well formed for a source of `len` bytes when every span it
//! carries lies inside `[0, len]` — the front-end's data-model invariant.
//! The theorem here: every line the tree dumper emits for a well-formed tree
//! has `0 <= start <= end <= len`.

use vstd::prelude::*;
use crate::line::{GLine, Span, span_wf};
use crate::tree::{
    ProgramNode, Directive, Stmt, Expr, Binding, BindProp, PropKey, Func, Params, Class,
    ClassElem, ObjProp, ArrElem, Arg, ForInit, ForLeft, AssignTarget, ArrayAssignTarget,
    ObjectAssignTarget, ObjTargetProp, TargetMaybeDefault, SimpleTarget, Decl, VarDecl,
    Declarator, SwitchCase, WithClause, ImportSpec, ExportSpec, ExportDefaultKind, ChainElem,
};
use crate::dump::{
    program_lines, directives_from, stmts_from, stmt_lines, switch_cases_from, var_decl_lines,
    declarators_from, func_lines, params_lines, bindings_from, binding_lines, bind_props_from,
    opt_bindings_from, class_lines, class_elems_from, prop_key_lines, exprs_from, args_from,
    arr_elems_from, obj_props_from, template_parts_from, expr_lines, chain_elem_lines,
    for_init_lines, for_left_lines, assign_target_lines, array_target_lines, target_elems_from,
    object_target_lines, obj_target_props_from, target_maybe_default_lines, simple_target_lines,
    decl_lines, import_specs_from, export_specs_from, with_clause_lines, attrs_from,
};

verus! {

/// One emitted line's span lies inside the source.
pub open spec fn gline_wf(l: GLine, len: nat) -> bool {
    l.start <= l.end && l.end <= len
}

/// Every emitted line's span lies inside the source.
pub open spec fn lines_wf(s: Seq<GLine>, len: nat) -> bool {
    forall|k: int| 0 <= k < s.len() ==> gline_wf(#[trigger] s[k], len)
}

proof fn lemma_cat(a: Seq<GLine>, b: Seq<GLine>, len: nat)
    requires lines_wf(a, len), lines_wf(b, len),
    ensures lines_wf(a + b, len),
{
    assert forall|k: int| 0 <= k < (a + b).len() implies gline_wf(#[trigger] (a + b)[k], len) by {
        if k < a.len() {
            assert((a + b)[k] == a[k]);
        } else {
            assert((a + b)[k] == b[k - a.len()]);
        }
    }
}

pub open spec fn program_wf(p: ProgramNode, len: nat) -> bool {
    span_wf(p.span, len)
    && (match p.hashbang { Some(h) => span_wf(h.span, len), None => true })
    && (forall|k: int| 0 <= k < p.directives@.len() ==> span_wf((#[trigger] p.directives@[k]).span, len))
    && (forall|k: int| 0 <= k < p.body@.len() ==> stmt_wf(#[trigger] p.body@[k], len))
}

pub open spec fn stmt_wf(s: Stmt, len: nat) -> bool
    decreases s,
{
    match s {
        Stmt::Block { span, body } => span_wf(span, len)
            && (forall|k: int| 0 <= k < body@.len() ==> stmt_wf(#[trigger] body@[k], len)),
        Stmt::If { span, test, consequent, alternate } => span_wf(span, len)
            && expr_wf(test, len) && stmt_wf(*consequent, len)
            && (match alternate { Some(a) => stmt_wf(*a, len), None => true }),
        Stmt::While { span, test, body } => span_wf(span, len) && expr_wf(test, len)
            && stmt_wf(*body, len),
        Stmt::DoWhile { span, body, test } => span_wf(span, len) && stmt_wf(*body, len)
            && expr_wf(test, len),
        Stmt::For { span, init, test, update, body } => span_wf(span, len)
            && (match init { Some(fi) => for_init_wf(fi, len), None => true })
            && (match test { Some(t) => expr_wf(t, len), None => true })
            && (match update { Some(u) => expr_wf(u, len), None => true })
            && stmt_wf(*body, len),
        Stmt::ForIn { span, left, right, body } => span_wf(span, len) && for_left_wf(left, len)
            && expr_wf(right, len) && stmt_wf(*body, len),
        Stmt::ForOf { span, awaited, left, right, body } => span_wf(span, len)
            && for_left_wf(left, len) && expr_wf(right, len) && stmt_wf(*body, len),
        Stmt::Switch { span, discriminant, cases } => span_wf(span, len)
            && expr_wf(discriminant, len)
            && (forall|k: int| 0 <= k < cases@.len() ==> switch_case_wf(#[trigger] cases@[k], len)),
        Stmt::Try { span, block, handler, finalizer } => span_wf(span, len)
            && span_wf(block.span, len)
            && (forall|k: int| 0 <= k < block.body@.len() ==> stmt_wf(#[trigger] block.body@[k], len))
            && (match handler {
                Some(h) => span_wf(h.span, len)
                    && (match h.param { Some(p) => binding_wf(p, len), None => true })
                    && span_wf(h.body.span, len)
                    && (forall|k: int| 0 <= k < h.body.body@.len()
                        ==> stmt_wf(#[trigger] h.body.body@[k], len)),
                None => true,
            })
            && (match finalizer {
                Some(f) => span_wf(f.span, len)
                    && (forall|k: int| 0 <= k < f.body@.len() ==> stmt_wf(#[trigger] f.body@[k], len)),
                None => true,
            }),
        Stmt::Return { span, argument } => span_wf(span, len)
            && (match argument { Some(a) => expr_wf(a, len), None => true }),
        Stmt::Throw { span, argument } => span_wf(span, len) && expr_wf(argument, len),
        Stmt::Break { span, label } => span_wf(span, len),
        Stmt::Continue { span, label } => span_wf(span, len),
        Stmt::ExprStmt { span, expression } => span_wf(span, len) && expr_wf(expression, len),
        Stmt::Empty { span } => span_wf(span, len),
        Stmt::Debugger { span } => span_wf(span, len),
        Stmt::With { span, object, body } => span_wf(span, len) && expr_wf(object, len)
            && stmt_wf(*body, len),
        Stmt::Labeled { span, label, body } => span_wf(span, len) && stmt_wf(*body, len),
        Stmt::VarDecl(v) => var_decl_wf(v, len),
        Stmt::FuncDecl(f) => func_wf(f, len),
        Stmt::ClassDecl(c) => class_wf(c, len),
        Stmt::Import { span, phase, source, specifiers, with_clause } => span_wf(span, len)
            && (match specifiers {
                Some(ss) => forall|k: int| 0 <= k < ss@.len()
                    ==> import_spec_wf(#[trigger] ss@[k], len),
                None => true,
            })
            && (match with_clause { Some(wc) => with_clause_wf(wc, len), None => true }),
        Stmt::ExportNamed { span, source, declaration, specifiers, with_clause } => span_wf(span, len)
            && (match declaration { Some(dc) => decl_wf(dc, len), None => true })
            && (forall|k: int| 0 <= k < specifiers@.len()
                ==> span_wf((#[trigger] specifiers@[k]).span, len))
            && (match with_clause { Some(wc) => with_clause_wf(wc, len), None => true }),
        Stmt::ExportDefault { span, declaration } => span_wf(span, len)
            && (match declaration {
                ExportDefaultKind::Func(f) => func_wf(f, len),
                ExportDefaultKind::Class(c) => class_wf(c, len),
                ExportDefaultKind::Expr(e) => expr_wf(e, len),
                ExportDefaultKind::Unsupported { span: usp } => span_wf(usp, len),
            }),
        Stmt::ExportAll { span, source, exported, with_clause } => span_wf(span, len)
            && (match with_clause { Some(wc) => with_clause_wf(wc, len), None => true }),
        Stmt::Unsupported { span } => span_wf(span, len),
    }
}

pub open spec fn switch_case_wf(c: SwitchCase, len: nat) -> bool
    decreases c,
{
    span_wf(c.span, len)
    && (match c.test { Some(t) => expr_wf(t, len), None => true })
    && (forall|k: int| 0 <= k < c.body@.len() ==> stmt_wf(#[trigger] c.body@[k], len))
}

pub open spec fn var_decl_wf(v: VarDecl, len: nat) -> bool
    decreases v,
{
    span_wf(v.span, len)
    && (forall|k: int| 0 <= k < v.declarations@.len()
        ==> declarator_wf(#[trigger] v.declarations@[k], len))
}

pub open spec fn declarator_wf(d: Declarator, len: nat) -> bool
    decreases d,
{
    span_wf(d.span, len) && binding_wf(d.id, len)
    && (match d.init { Some(e) => expr_wf(e, len), None => true })
}

pub open spec fn func_wf(f: Func, len: nat) -> bool
    decreases f,
{
    span_wf(f.span, len) && params_wf(f.params, len)
    && (match f.body {
        Some(b) => (forall|k: int| 0 <= k < b.directives@.len()
                ==> span_wf((#[trigger] b.directives@[k]).span, len))
            && (forall|k: int| 0 <= k < b.statements@.len()
                ==> stmt_wf(#[trigger] b.statements@[k], len)),
        None => true,
    })
}

pub open spec fn params_wf(p: Params, len: nat) -> bool
    decreases p,
{
    span_wf(p.span, len)
    && (forall|k: int| 0 <= k < p.items@.len() ==> binding_wf(#[trigger] p.items@[k], len))
    && (match p.rest { Some(r) => span_wf(r.span, len) && binding_wf(*r.argument, len), None => true })
}

pub open spec fn binding_wf(b: Binding, len: nat) -> bool
    decreases b,
{
    match b {
        Binding::Ident { span, name } => span_wf(span, len),
        Binding::Object { span, props, rest } => span_wf(span, len)
            && (forall|k: int| 0 <= k < props@.len() ==> bind_prop_wf(#[trigger] props@[k], len))
            && (match rest {
                Some(r) => span_wf(r.span, len) && binding_wf(*r.argument, len),
                None => true,
            }),
        Binding::Array { span, elements, rest } => span_wf(span, len)
            && (forall|k: int| 0 <= k < elements@.len() ==> (match #[trigger] elements@[k] {
                Some(e) => binding_wf(e, len),
                None => true,
            }))
            && (match rest {
                Some(r) => span_wf(r.span, len) && binding_wf(*r.argument, len),
                None => true,
            }),
        Binding::Assign { span, left, right } => span_wf(span, len) && binding_wf(*left, len)
            && expr_wf(*right, len),
    }
}

pub open spec fn bind_prop_wf(p: BindProp, len: nat) -> bool
    decreases p,
{
    span_wf(p.span, len) && prop_key_wf(p.key, len) && binding_wf(p.value, len)
}

pub open spec fn prop_key_wf(k: PropKey, len: nat) -> bool
    decreases k,
{
    match k {
        PropKey::Ident { span, name } => span_wf(span, len),
        PropKey::Private { span, name } => span_wf(span, len),
        PropKey::Computed(e) => expr_wf(*e, len),
        PropKey::Unsupported { span } => span_wf(span, len),
    }
}

pub open spec fn class_wf(c: Class, len: nat) -> bool
    decreases c,
{
    span_wf(c.span, len)
    && (match c.super_class {
        Some(sc) => span_wf(sc.0, len) && expr_wf(*sc.1, len),
        None => true,
    })
    && (forall|k: int| 0 <= k < c.body@.len() ==> class_elem_wf(#[trigger] c.body@[k], len))
}

pub open spec fn class_elem_wf(e: ClassElem, len: nat) -> bool
    decreases e,
{
    match e {
        ClassElem::Method { span, is_static, kind, computed, key, value } => span_wf(span, len)
            && prop_key_wf(key, len) && func_wf(value, len),
        ClassElem::Property { span, is_static, computed, key, value } => span_wf(span, len)
            && prop_key_wf(key, len)
            && (match value { Some(v) => expr_wf(v, len), None => true }),
        ClassElem::Accessor { span, is_static, computed, key, value } => span_wf(span, len)
            && prop_key_wf(key, len)
            && (match value { Some(v) => expr_wf(v, len), None => true }),
        ClassElem::StaticBlock { span, body } => span_wf(span, len)
            && (forall|k: int| 0 <= k < body@.len() ==> stmt_wf(#[trigger] body@[k], len)),
        ClassElem::Unsupported { span } => span_wf(span, len),
    }
}

pub open spec fn obj_prop_wf(p: ObjProp, len: nat) -> bool
    decreases p,
{
    match p {
        ObjProp::Property { span, shorthand, computed, method, kind, key, value } =>
            span_wf(span, len) && prop_key_wf(key, len) && expr_wf(value, len),
        ObjProp::Spread { span, argument } => span_wf(span, len) && expr_wf(argument, len),
    }
}

pub open spec fn arr_elem_wf(e: ArrElem, len: nat) -> bool
    decreases e,
{
    match e {
        ArrElem::Spread { span, argument } => span_wf(span, len) && expr_wf(argument, len),
        ArrElem::Elision { span } => span_wf(span, len),
        ArrElem::Item(x) => expr_wf(x, len),
        ArrElem::Unsupported { span } => span_wf(span, len),
    }
}

pub open spec fn arg_wf(a: Arg, len: nat) -> bool
    decreases a,
{
    match a {
        Arg::Spread { span, argument } => span_wf(span, len) && expr_wf(argument, len),
        Arg::Item(x) => expr_wf(x, len),
    }
}

pub open spec fn for_init_wf(fi: ForInit, len: nat) -> bool
    decreases fi,
{
    match fi {
        ForInit::Var(v) => var_decl_wf(v, len),
        ForInit::Item(e) => expr_wf(e, len),
        ForInit::Unsupported { span } => span_wf(span, len),
    }
}

pub open spec fn for_left_wf(fl: ForLeft, len: nat) -> bool
    decreases fl,
{
    match fl {
        ForLeft::Var(v) => var_decl_wf(v, len),
        ForLeft::Ident { span, name } => span_wf(span, len),
        ForLeft::Index { span, object, expression } => span_wf(span, len)
            && expr_wf(object, len) && expr_wf(expression, len),
        ForLeft::Member { span, property, object } => span_wf(span, len) && expr_wf(object, len),
        ForLeft::PrivateField { span, field, object } => span_wf(span, len)
            && expr_wf(object, len),
        ForLeft::ArrayTarget(a) => array_target_wf(a, len),
        ForLeft::ObjectTarget(o) => object_target_wf(o, len),
        ForLeft::Unsupported { span } => span_wf(span, len),
    }
}

pub open spec fn assign_target_wf(t: AssignTarget, len: nat) -> bool
    decreases t,
{
    match t {
        AssignTarget::Ident { span, name } => span_wf(span, len),
        AssignTarget::Index { span, object, expression } => span_wf(span, len)
            && expr_wf(*object, len) && expr_wf(*expression, len),
        AssignTarget::Member { span, property, object } => span_wf(span, len)
            && expr_wf(*object, len),
        AssignTarget::PrivateField { span, field, object } => span_wf(span, len)
            && expr_wf(*object, len),
        AssignTarget::ArrayTarget(a) => array_target_wf(*a, len),
        AssignTarget::ObjectTarget(o) => object_target_wf(*o, len),
        AssignTarget::Unsupported { span } => span_wf(span, len),
    }
}

pub open spec fn array_target_wf(a: ArrayAssignTarget, len: nat) -> bool
    decreases a,
{
    span_wf(a.span, len)
    && (forall|k: int| 0 <= k < a.elements@.len() ==> (match #[trigger] a.elements@[k] {
        Some(t) => target_maybe_default_wf(t, len),
        None => true,
    }))
    && (match a.rest {
        Some(r) => span_wf(r.span, len) && assign_target_wf(*r.target, len),
        None => true,
    })
}

pub open spec fn object_target_wf(o: ObjectAssignTarget, len: nat) -> bool
    decreases o,
{
    span_wf(o.span, len)
    && (forall|k: int| 0 <= k < o.properties@.len()
        ==> obj_target_prop_wf(#[trigger] o.properties@[k], len))
    && (match o.rest {
        Some(r) => span_wf(r.span, len) && assign_target_wf(*r.target, len),
        None => true,
    })
}

pub open spec fn obj_target_prop_wf(p: ObjTargetProp, len: nat) -> bool
    decreases p,
{
    match p {
        ObjTargetProp::Ident { span, name, init } => span_wf(span, len)
            && (match init { Some(e) => expr_wf(e, len), None => true }),
        ObjTargetProp::Prop { span, computed, name, binding } => span_wf(span, len)
            && prop_key_wf(name, len) && target_maybe_default_wf(binding, len),
    }
}

pub open spec fn target_maybe_default_wf(t: TargetMaybeDefault, len: nat) -> bool
    decreases t,
{
    match t {
        TargetMaybeDefault::WithDefault { span, binding, init } => span_wf(span, len)
            && assign_target_wf(binding, len) && expr_wf(*init, len),
        TargetMaybeDefault::Target(t2) => assign_target_wf(t2, len),
        TargetMaybeDefault::Unsupported { span } => span_wf(span, len),
    }
}

pub open spec fn simple_target_wf(t: SimpleTarget, len: nat) -> bool
    decreases t,
{
    match t {
        SimpleTarget::Ident { span, name } => span_wf(span, len),
        SimpleTarget::Index { span, object, expression } => span_wf(span, len)
            && expr_wf(*object, len) && expr_wf(*expression, len),
        SimpleTarget::Member { span, property, object } => span_wf(span, len)
            && expr_wf(*object, len),
        SimpleTarget::PrivateField { span, field, object } => span_wf(span, len)
            && expr_wf(*object, len),
        SimpleTarget::Unsupported { span } => span_wf(span, len),
    }
}

pub open spec fn decl_wf(d: Decl, len: nat) -> bool
    decreases d,
{
    match d {
        Decl::Var(v) => var_decl_wf(v, len),
        Decl::Func(f) => func_wf(f, len),
        Decl::Class(c) => class_wf(c, len),
        Decl::Unsupported { span } => span_wf(span, len),
    }
}

pub open spec fn import_spec_wf(s: ImportSpec, len: nat) -> bool {
    match s {
        ImportSpec::Named { span, imported, local } => span_wf(span, len),
        ImportSpec::Default { span, local } => span_wf(span, len),
        ImportSpec::Namespace { span, local } => span_wf(span, len),
    }
}

pub open spec fn with_clause_wf(wc: WithClause, len: nat) -> bool {
    span_wf(wc.span, len)
    && (forall|k: int| 0 <= k < wc.entries@.len()
        ==> span_wf((#[trigger] wc.entries@[k]).span, len))
}

pub open spec fn expr_wf(e: Expr, len: nat) -> bool
    decreases e,
{
    match e {
        Expr::Ident { span, name } => span_wf(span, len),
        Expr::NumLit { span } => span_wf(span, len),
        Expr::StrLit { span } => span_wf(span, len),
        Expr::BoolLit { span, value } => span_wf(span, len),
        Expr::NullLit { span } => span_wf(span, len),
        Expr::BigInt { span } => span_wf(span, len),
        Expr::Regex { span } => span_wf(span, len),
        Expr::This { span } => span_wf(span, len),
        Expr::Super { span } => span_wf(span, len),
        Expr::Template { span, quasis, expressions } => span_wf(span, len)
            && (forall|k: int| 0 <= k < quasis@.len() ==> span_wf(#[trigger] quasis@[k], len))
            && (forall|k: int| 0 <= k < expressions@.len()
                ==> expr_wf(#[trigger] expressions@[k], len)),
        Expr::Binary { span, op, left, right } => span_wf(span, len) && expr_wf(*left, len)
            && expr_wf(*right, len),
        Expr::Logical { span, op, left, right } => span_wf(span, len) && expr_wf(*left, len)
            && expr_wf(*right, len),
        Expr::Unary { span, op, argument } => span_wf(span, len) && expr_wf(*argument, len),
        Expr::Update { span, op, prefix, argument } => span_wf(span, len)
            && simple_target_wf(argument, len),
        Expr::Assign { span, op, left, right } => span_wf(span, len)
            && assign_target_wf(left, len) && expr_wf(*right, len),
        Expr::Ternary { span, test, consequent, alternate } => span_wf(span, len)
            && expr_wf(*test, len) && expr_wf(*consequent, len) && expr_wf(*alternate, len),
        Expr::Call { span, optional, callee, arguments } => span_wf(span, len)
            && expr_wf(*callee, len)
            && (forall|k: int| 0 <= k < arguments@.len() ==> arg_wf(#[trigger] arguments@[k], len)),
        Expr::New { span, callee, arguments } => span_wf(span, len) && expr_wf(*callee, len)
            && (forall|k: int| 0 <= k < arguments@.len() ==> arg_wf(#[trigger] arguments@[k], len)),
        Expr::Member { span, optional, property, object } => span_wf(span, len)
            && expr_wf(*object, len),
        Expr::Index { span, optional, object, expression } => span_wf(span, len)
            && expr_wf(*object, len) && expr_wf(*expression, len),
        Expr::PrivateField { span, field, object } => span_wf(span, len) && expr_wf(*object, len),
        Expr::Array { span, elements } => span_wf(span, len)
            && (forall|k: int| 0 <= k < elements@.len() ==> arr_elem_wf(#[trigger] elements@[k], len)),
        Expr::ObjectLit { span, properties } => span_wf(span, len)
            && (forall|k: int| 0 <= k < properties@.len()
                ==> obj_prop_wf(#[trigger] properties@[k], len)),
        Expr::FuncExpr(f) => func_wf(f, len),
        Expr::Arrow { span, is_async, expr_body, params, directives, statements } =>
            span_wf(span, len) && params_wf(params, len)
            && (forall|k: int| 0 <= k < directives@.len()
                ==> span_wf((#[trigger] directives@[k]).span, len))
            && (forall|k: int| 0 <= k < statements@.len()
                ==> stmt_wf(#[trigger] statements@[k], len)),
        Expr::ClassExpr(c) => class_wf(c, len),
        Expr::Sequence { span, expressions } => span_wf(span, len)
            && (forall|k: int| 0 <= k < expressions@.len()
                ==> expr_wf(#[trigger] expressions@[k], len)),
        Expr::Await { span, argument } => span_wf(span, len) && expr_wf(*argument, len),
        Expr::Yield { span, delegate, argument } => span_wf(span, len)
            && (match argument { Some(a) => expr_wf(*a, len), None => true }),
        Expr::TaggedTemplate { span, tag, quasi_span, quasis, expressions } => span_wf(span, len)
            && expr_wf(*tag, len) && span_wf(quasi_span, len)
            && (forall|k: int| 0 <= k < quasis@.len() ==> span_wf(#[trigger] quasis@[k], len))
            && (forall|k: int| 0 <= k < expressions@.len()
                ==> expr_wf(#[trigger] expressions@[k], len)),
        Expr::ImportExpr { span, source, options } => span_wf(span, len) && expr_wf(*source, len)
            && (match options {
                Some(o) => span_wf(o.0, len) && expr_wf(*o.1, len),
                None => true,
            }),
        Expr::Chain { span, element } => span_wf(span, len) && chain_elem_wf(element, len),
        Expr::MetaProperty { span, meta, property } => span_wf(span, len),
        Expr::PrivateIn { span, name, right } => span_wf(span, len) && expr_wf(*right, len),
        Expr::Unsupported { span } => span_wf(span, len),
    }
}

pub open spec fn chain_elem_wf(c: ChainElem, len: nat) -> bool
    decreases c,
{
    match c {
        ChainElem::Call { span, callee, arguments } => span_wf(span, len) && expr_wf(*callee, len)
            && (forall|k: int| 0 <= k < arguments@.len() ==> arg_wf(#[trigger] arguments@[k], len)),
        ChainElem::Index { span, object, expression } => span_wf(span, len)
            && expr_wf(*object, len) && expr_wf(*expression, len),
        ChainElem::Member { span, property, object } => span_wf(span, len)
            && expr_wf(*object, len),
        ChainElem::PrivateField { span, field, object } => span_wf(span, len)
            && expr_wf(*object, len),
        ChainElem::Unsupported { span } => span_wf(span, len),
    }
}


// ---------------------------------------------------------------------------
// Span validity of the dump: a well-formed tree yields lines whose spans all
// lie inside the source.
// ---------------------------------------------------------------------------

broadcast proof fn lemma_cat_wf(a: Seq<GLine>, b: Seq<GLine>, len: nat)
    ensures lines_wf(a, len) && lines_wf(b, len) ==> #[trigger] lines_wf(a + b, len),
{
    if lines_wf(a, len) && lines_wf(b, len) {
        assert forall|k: int| 0 <= k < (a + b).len()
            implies gline_wf(#[trigger] (a + b)[k], len) by {
            if k < a.len() {
                assert((a + b)[k] == a[k]);
            } else {
                assert((a + b)[k] == b[k - a.len()]);
            }
        }
    }
}

broadcast proof fn lemma_node_wf(d: nat, kind: Seq<char>, detail: Seq<char>, span: Span, len: nat)
    ensures span_wf(span, len) ==> #[trigger] lines_wf(crate::line::node_line(d, kind, detail, span), len),
{
    if span_wf(span, len) {
        let nl = crate::line::node_line(d, kind, detail, span);
        assert forall|k: int| 0 <= k < nl.len() implies gline_wf(#[trigger] nl[k], len) by {
            assert(nl[k] == nl[0]);
        }
    }
}

pub proof fn lemma_directives_wf(ds: Seq<Directive>, i: int, d: nat, len: nat)
    requires forall|k: int| 0 <= k < ds.len() ==> span_wf((#[trigger] ds[k]).span, len),
    ensures lines_wf(directives_from(ds, i, d), len),
    decreases ds.len() - i,
{
    broadcast use lemma_cat_wf, lemma_node_wf;
    if 0 <= i < ds.len() {
        lemma_directives_wf(ds, i + 1, d, len);
    }
}

pub proof fn lemma_stmts_wf(ss: Seq<Stmt>, i: int, d: nat, src: Seq<u8>, len: nat)
    requires forall|k: int| 0 <= k < ss.len() ==> stmt_wf(#[trigger] ss[k], len),
    ensures lines_wf(stmts_from(ss, i, d, src), len),
    decreases ss, ss.len() - i, 1int,
{
    broadcast use lemma_cat_wf;
    if 0 <= i < ss.len() {
        lemma_stmt_wf(ss[i], d, src, len);
        lemma_stmts_wf(ss, i + 1, d, src, len);
    }
}

#[verifier::rlimit(100)]
#[verifier::spinoff_prover]
pub proof fn lemma_stmt_wf(s: Stmt, d: nat, src: Seq<u8>, len: nat)
    requires stmt_wf(s, len),
    ensures lines_wf(stmt_lines(s, d, src), len),
    decreases s, 0int, 0int,
{
    broadcast use lemma_cat_wf, lemma_node_wf;
    match s {
        Stmt::Block { span, body } => {
            lemma_stmts_wf(body@, 0, crate::dump::bump(d), src, len);
        },
        Stmt::If { span, test, consequent, alternate } => {
            lemma_expr_wf(test, crate::dump::bump(d), src, len);
            lemma_stmt_wf(*consequent, crate::dump::bump(d), src, len);
            match alternate {
                Some(alt) => lemma_stmt_wf(*alt, crate::dump::bump(d), src, len),
                None => {},
            }
        },
        Stmt::While { span, test, body } => {
            lemma_expr_wf(test, crate::dump::bump(d), src, len);
            lemma_stmt_wf(*body, crate::dump::bump(d), src, len);
        },
        Stmt::DoWhile { span, body, test } => {
            lemma_stmt_wf(*body, crate::dump::bump(d), src, len);
            lemma_expr_wf(test, crate::dump::bump(d), src, len);
        },
        Stmt::For { span, init, test, update, body } => {
            match init {
                Some(fi) => lemma_for_init_wf(fi, crate::dump::bump(d), src, len),
                None => {},
            }
            match test {
                Some(t) => lemma_expr_wf(t, crate::dump::bump(d), src, len),
                None => {},
            }
            match update {
                Some(u) => lemma_expr_wf(u, crate::dump::bump(d), src, len),
                None => {},
            }
            lemma_stmt_wf(*body, crate::dump::bump(d), src, len);
        },
        Stmt::ForIn { span, left, right, body } => {
            lemma_for_left_wf(left, crate::dump::bump(d), src, len);
            lemma_expr_wf(right, crate::dump::bump(d), src, len);
            lemma_stmt_wf(*body, crate::dump::bump(d), src, len);
        },
        Stmt::ForOf { span, awaited, left, right, body } => {
            lemma_for_left_wf(left, crate::dump::bump(d), src, len);
            lemma_expr_wf(right, crate::dump::bump(d), src, len);
            lemma_stmt_wf(*body, crate::dump::bump(d), src, len);
        },
        Stmt::Switch { span, discriminant, cases } => {
            lemma_expr_wf(discriminant, crate::dump::bump(d), src, len);
            lemma_switch_cases_wf(cases@, 0, crate::dump::bump(d), src, len);
        },
        Stmt::Try { span, block, handler, finalizer } => {
            lemma_stmts_wf(block.body@, 0, crate::dump::bump(crate::dump::bump(d)), src, len);
            match handler {
                Some(h) => {
                    match h.param {
                        Some(p) => lemma_binding_wf(p, crate::dump::bump(crate::dump::bump(d)), src, len),
                        None => {},
                    }
                    lemma_stmts_wf(h.body.body@, 0,
                        crate::dump::bump(crate::dump::bump(crate::dump::bump(d))), src, len);
                },
                None => {},
            }
            match finalizer {
                Some(f) => {
                    lemma_stmts_wf(f.body@, 0, crate::dump::bump(crate::dump::bump(d)), src, len);
                },
                None => {},
            }
        },
        Stmt::Return { span, argument } => {
            match argument {
                Some(a) => lemma_expr_wf(a, crate::dump::bump(d), src, len),
                None => {},
            }
        },
        Stmt::Throw { span, argument } => {
            lemma_expr_wf(argument, crate::dump::bump(d), src, len);
        },
        Stmt::Break { span, label } => {},
        Stmt::Continue { span, label } => {},
        Stmt::ExprStmt { span, expression } => {
            lemma_expr_wf(expression, crate::dump::bump(d), src, len);
        },
        Stmt::Empty { span } => {},
        Stmt::Debugger { span } => {},
        Stmt::With { span, object, body } => {
            lemma_expr_wf(object, crate::dump::bump(d), src, len);
            lemma_stmt_wf(*body, crate::dump::bump(d), src, len);
        },
        Stmt::Labeled { span, label, body } => {
            lemma_stmt_wf(*body, crate::dump::bump(d), src, len);
        },
        Stmt::VarDecl(v) => lemma_var_decl_wf(v, d, src, len),
        Stmt::FuncDecl(f) => lemma_func_wf(f, d, src, "FuncDecl"@, len),
        Stmt::ClassDecl(c) => lemma_class_wf(c, d, src, "Class"@, len),
        Stmt::Import { span, phase, source, specifiers, with_clause } => {
            match specifiers {
                Some(specs) => lemma_import_specs_wf(specs@, 0, crate::dump::bump(d), len),
                None => {},
            }
            match with_clause {
                Some(wc) => lemma_with_clause_wf(wc, crate::dump::bump(d), len),
                None => {},
            }
        },
        Stmt::ExportNamed { span, source, declaration, specifiers, with_clause } => {
            match declaration {
                Some(dc) => lemma_decl_wf(dc, crate::dump::bump(d), src, len),
                None => {},
            }
            lemma_export_specs_wf(specifiers@, 0, crate::dump::bump(d), len);
            match with_clause {
                Some(wc) => lemma_with_clause_wf(wc, crate::dump::bump(d), len),
                None => {},
            }
        },
        Stmt::ExportDefault { span, declaration } => {
            match declaration {
                ExportDefaultKind::Func(f) => lemma_func_wf(f, crate::dump::bump(d), src, "FuncDecl"@, len),
                ExportDefaultKind::Class(c) => lemma_class_wf(c, crate::dump::bump(d), src, "Class"@, len),
                ExportDefaultKind::Expr(e) => lemma_expr_wf(e, crate::dump::bump(d), src, len),
                ExportDefaultKind::Unsupported { span: usp } => {},
            }
        },
        Stmt::ExportAll { span, source, exported, with_clause } => {
            match with_clause {
                Some(wc) => lemma_with_clause_wf(wc, crate::dump::bump(d), len),
                None => {},
            }
        },
        Stmt::Unsupported { span } => {},
    }
}

pub proof fn lemma_switch_cases_wf(cs: Seq<SwitchCase>, i: int, d: nat, src: Seq<u8>, len: nat)
    requires forall|k: int| 0 <= k < cs.len() ==> switch_case_wf(#[trigger] cs[k], len),
    ensures lines_wf(switch_cases_from(cs, i, d, src), len),
    decreases cs, cs.len() - i, 1int,
{
    broadcast use lemma_cat_wf, lemma_node_wf;
    if 0 <= i < cs.len() {
        match cs[i].test {
            Some(t) => lemma_expr_wf(t, crate::dump::bump(d), src, len),
            None => {},
        }
        lemma_stmts_wf(cs[i].body@, 0, crate::dump::bump(d), src, len);
        lemma_switch_cases_wf(cs, i + 1, d, src, len);
    }
}

pub proof fn lemma_var_decl_wf(v: VarDecl, d: nat, src: Seq<u8>, len: nat)
    requires var_decl_wf(v, len),
    ensures lines_wf(var_decl_lines(v, d, src), len),
    decreases v, 0int, 0int,
{
    broadcast use lemma_cat_wf, lemma_node_wf;
    lemma_declarators_wf(v.declarations@, 0, crate::dump::bump(d), src, len);
}

pub proof fn lemma_declarators_wf(ds: Seq<Declarator>, i: int, d: nat, src: Seq<u8>, len: nat)
    requires forall|k: int| 0 <= k < ds.len() ==> declarator_wf(#[trigger] ds[k], len),
    ensures lines_wf(declarators_from(ds, i, d, src), len),
    decreases ds, ds.len() - i, 1int,
{
    broadcast use lemma_cat_wf, lemma_node_wf;
    if 0 <= i < ds.len() {
        lemma_binding_wf(ds[i].id, crate::dump::bump(d), src, len);
        match ds[i].init {
            Some(e) => lemma_expr_wf(e, crate::dump::bump(d), src, len),
            None => {},
        }
        lemma_declarators_wf(ds, i + 1, d, src, len);
    }
}

pub proof fn lemma_func_wf(f: Func, d: nat, src: Seq<u8>, label: Seq<char>, len: nat)
    requires func_wf(f, len),
    ensures lines_wf(func_lines(f, d, src, label), len),
    decreases f, 0int, 0int,
{
    broadcast use lemma_cat_wf, lemma_node_wf;
    lemma_params_wf(f.params, crate::dump::bump(d), src, len);
    match f.body {
        Some(b) => {
            lemma_directives_wf(b.directives@, 0, crate::dump::bump(d), len);
            lemma_stmts_wf(b.statements@, 0, crate::dump::bump(d), src, len);
        },
        None => {},
    }
}

pub proof fn lemma_params_wf(p: Params, d: nat, src: Seq<u8>, len: nat)
    requires params_wf(p, len),
    ensures lines_wf(params_lines(p, d, src), len),
    decreases p, 0int, 0int,
{
    broadcast use lemma_cat_wf, lemma_node_wf;
    lemma_bindings_wf(p.items@, 0, crate::dump::bump(d), src, len);
    match p.rest {
        Some(r) => {
            lemma_binding_wf(*r.argument, crate::dump::bump(crate::dump::bump(d)), src, len);
        },
        None => {},
    }
}

pub proof fn lemma_bindings_wf(bs: Seq<Binding>, i: int, d: nat, src: Seq<u8>, len: nat)
    requires forall|k: int| 0 <= k < bs.len() ==> binding_wf(#[trigger] bs[k], len),
    ensures lines_wf(bindings_from(bs, i, d, src), len),
    decreases bs, bs.len() - i, 1int,
{
    broadcast use lemma_cat_wf;
    if 0 <= i < bs.len() {
        lemma_binding_wf(bs[i], d, src, len);
        lemma_bindings_wf(bs, i + 1, d, src, len);
    }
}

pub proof fn lemma_binding_wf(b: Binding, d: nat, src: Seq<u8>, len: nat)
    requires binding_wf(b, len),
    ensures lines_wf(binding_lines(b, d, src), len),
    decreases b, 0int, 0int,
{
    broadcast use lemma_cat_wf, lemma_node_wf;
    match b {
        Binding::Ident { span, name } => {},
        Binding::Object { span, props, rest } => {
            lemma_bind_props_wf(props@, 0, crate::dump::bump(d), src, len);
            match rest {
                Some(r) => lemma_binding_wf(*r.argument, crate::dump::bump(crate::dump::bump(d)), src, len),
                None => {},
            }
        },
        Binding::Array { span, elements, rest } => {
            lemma_opt_bindings_wf(elements@, 0, crate::dump::bump(d), src, span, len);
            match rest {
                Some(r) => lemma_binding_wf(*r.argument, crate::dump::bump(crate::dump::bump(d)), src, len),
                None => {},
            }
        },
        Binding::Assign { span, left, right } => {
            lemma_binding_wf(*left, crate::dump::bump(d), src, len);
            lemma_expr_wf(*right, crate::dump::bump(d), src, len);
        },
    }
}

pub proof fn lemma_bind_props_wf(ps: Seq<BindProp>, i: int, d: nat, src: Seq<u8>, len: nat)
    requires forall|k: int| 0 <= k < ps.len() ==> bind_prop_wf(#[trigger] ps[k], len),
    ensures lines_wf(bind_props_from(ps, i, d, src), len),
    decreases ps, ps.len() - i, 1int,
{
    broadcast use lemma_cat_wf, lemma_node_wf;
    if 0 <= i < ps.len() {
        lemma_prop_key_wf(ps[i].key, crate::dump::bump(d), src, len);
        lemma_binding_wf(ps[i].value, crate::dump::bump(d), src, len);
        lemma_bind_props_wf(ps, i + 1, d, src, len);
    }
}

pub proof fn lemma_opt_bindings_wf(es: Seq<Option<Binding>>, i: int, d: nat, src: Seq<u8>, pspan: Span, len: nat)
    requires
        forall|k: int| 0 <= k < es.len() ==> (match #[trigger] es[k] {
            Some(e) => binding_wf(e, len),
            None => true,
        }),
        span_wf(pspan, len),
    ensures lines_wf(opt_bindings_from(es, i, d, src, pspan), len),
    decreases es, es.len() - i, 1int,
{
    broadcast use lemma_cat_wf, lemma_node_wf;
    if 0 <= i < es.len() {
        match es[i] {
            Some(b) => lemma_binding_wf(b, d, src, len),
            None => {},
        }
        lemma_opt_bindings_wf(es, i + 1, d, src, pspan, len);
    }
}

pub proof fn lemma_class_wf(c: Class, d: nat, src: Seq<u8>, label: Seq<char>, len: nat)
    requires class_wf(c, len),
    ensures lines_wf(class_lines(c, d, src, label), len),
    decreases c, 0int, 0int,
{
    broadcast use lemma_cat_wf, lemma_node_wf;
    match c.super_class {
        Some(sc) => lemma_expr_wf(*sc.1, crate::dump::bump(crate::dump::bump(d)), src, len),
        None => {},
    }
    lemma_class_elems_wf(c.body@, 0, crate::dump::bump(d), src, len);
}

pub proof fn lemma_class_elems_wf(es: Seq<ClassElem>, i: int, d: nat, src: Seq<u8>, len: nat)
    requires forall|k: int| 0 <= k < es.len() ==> class_elem_wf(#[trigger] es[k], len),
    ensures lines_wf(class_elems_from(es, i, d, src), len),
    decreases es, es.len() - i, 1int,
{
    broadcast use lemma_cat_wf, lemma_node_wf;
    if 0 <= i < es.len() {
        match es[i] {
            ClassElem::Method { span, is_static, kind, computed, key, value } => {
                lemma_prop_key_wf(key, crate::dump::bump(d), src, len);
                lemma_func_wf(value, crate::dump::bump(d), src, "Body"@, len);
            },
            ClassElem::Property { span, is_static, computed, key, value } => {
                lemma_prop_key_wf(key, crate::dump::bump(d), src, len);
                match value {
                    Some(e) => lemma_expr_wf(e, crate::dump::bump(d), src, len),
                    None => {},
                }
            },
            ClassElem::Accessor { span, is_static, computed, key, value } => {
                lemma_prop_key_wf(key, crate::dump::bump(d), src, len);
                match value {
                    Some(e) => lemma_expr_wf(e, crate::dump::bump(d), src, len),
                    None => {},
                }
            },
            ClassElem::StaticBlock { span, body } => {
                lemma_stmts_wf(body@, 0, crate::dump::bump(d), src, len);
            },
            ClassElem::Unsupported { span } => {},
        }
        lemma_class_elems_wf(es, i + 1, d, src, len);
    }
}

pub proof fn lemma_prop_key_wf(k: PropKey, d: nat, src: Seq<u8>, len: nat)
    requires prop_key_wf(k, len),
    ensures lines_wf(prop_key_lines(k, d, src), len),
    decreases k, 0int, 0int,
{
    broadcast use lemma_cat_wf, lemma_node_wf;
    match k {
        PropKey::Computed(e) => lemma_expr_wf(*e, d, src, len),
        _ => {},
    }
}

pub proof fn lemma_exprs_wf(es: Seq<Expr>, i: int, d: nat, src: Seq<u8>, len: nat)
    requires forall|k: int| 0 <= k < es.len() ==> expr_wf(#[trigger] es[k], len),
    ensures lines_wf(exprs_from(es, i, d, src), len),
    decreases es, es.len() - i, 1int,
{
    broadcast use lemma_cat_wf;
    if 0 <= i < es.len() {
        lemma_expr_wf(es[i], d, src, len);
        lemma_exprs_wf(es, i + 1, d, src, len);
    }
}

pub proof fn lemma_args_wf(args: Seq<Arg>, i: int, d: nat, src: Seq<u8>, len: nat)
    requires forall|k: int| 0 <= k < args.len() ==> arg_wf(#[trigger] args[k], len),
    ensures lines_wf(args_from(args, i, d, src), len),
    decreases args, args.len() - i, 1int,
{
    broadcast use lemma_cat_wf, lemma_node_wf;
    if 0 <= i < args.len() {
        match args[i] {
            Arg::Spread { span, argument } => lemma_expr_wf(argument, crate::dump::bump(d), src, len),
            Arg::Item(e) => lemma_expr_wf(e, d, src, len),
        }
        lemma_args_wf(args, i + 1, d, src, len);
    }
}

pub proof fn lemma_arr_elems_wf(es: Seq<ArrElem>, i: int, d: nat, src: Seq<u8>, len: nat)
    requires forall|k: int| 0 <= k < es.len() ==> arr_elem_wf(#[trigger] es[k], len),
    ensures lines_wf(arr_elems_from(es, i, d, src), len),
    decreases es, es.len() - i, 1int,
{
    broadcast use lemma_cat_wf, lemma_node_wf;
    if 0 <= i < es.len() {
        match es[i] {
            ArrElem::Spread { span, argument } => lemma_expr_wf(argument, crate::dump::bump(d), src, len),
            ArrElem::Item(e) => lemma_expr_wf(e, d, src, len),
            _ => {},
        }
        lemma_arr_elems_wf(es, i + 1, d, src, len);
    }
}

pub proof fn lemma_obj_props_wf(ps: Seq<ObjProp>, i: int, d: nat, src: Seq<u8>, len: nat)
    requires forall|k: int| 0 <= k < ps.len() ==> obj_prop_wf(#[trigger] ps[k], len),
    ensures lines_wf(obj_props_from(ps, i, d, src), len),
    decreases ps, ps.len() - i, 1int,
{
    broadcast use lemma_cat_wf, lemma_node_wf;
    if 0 <= i < ps.len() {
        match ps[i] {
            ObjProp::Property { span, shorthand, computed, method, kind, key, value } => {
                lemma_prop_key_wf(key, crate::dump::bump(d), src, len);
                if !shorthand {
                    lemma_expr_wf(value, crate::dump::bump(d), src, len);
                }
            },
            ObjProp::Spread { span, argument } => {
                lemma_expr_wf(argument, crate::dump::bump(d), src, len);
            },
        }
        lemma_obj_props_wf(ps, i + 1, d, src, len);
    }
}

pub proof fn lemma_template_parts_wf(quasis: Seq<Span>, es: Seq<Expr>, i: int, d: nat, src: Seq<u8>, len: nat)
    requires
        forall|k: int| 0 <= k < quasis.len() ==> span_wf(#[trigger] quasis[k], len),
        forall|k: int| 0 <= k < es.len() ==> expr_wf(#[trigger] es[k], len),
    ensures lines_wf(template_parts_from(quasis, es, i, d, src), len),
    decreases es, quasis.len() - i, 1int,
{
    broadcast use lemma_cat_wf, lemma_node_wf;
    if 0 <= i < quasis.len() {
        if i < es.len() {
            lemma_expr_wf(es[i], d, src, len);
        }
        lemma_template_parts_wf(quasis, es, i + 1, d, src, len);
    }
}

#[verifier::rlimit(100)]
#[verifier::spinoff_prover]
pub proof fn lemma_expr_wf(e: Expr, d: nat, src: Seq<u8>, len: nat)
    requires expr_wf(e, len),
    ensures lines_wf(expr_lines(e, d, src), len),
    decreases e, 0int, 0int,
{
    broadcast use lemma_cat_wf, lemma_node_wf;
    match e {
        Expr::Template { span, quasis, expressions } => {
            lemma_template_parts_wf(quasis@, expressions@, 0, crate::dump::bump(d), src, len);
        },
        Expr::Binary { span, op, left, right } => {
            lemma_expr_wf(*left, crate::dump::bump(d), src, len);
            lemma_expr_wf(*right, crate::dump::bump(d), src, len);
        },
        Expr::Logical { span, op, left, right } => {
            lemma_expr_wf(*left, crate::dump::bump(d), src, len);
            lemma_expr_wf(*right, crate::dump::bump(d), src, len);
        },
        Expr::Unary { span, op, argument } => {
            lemma_expr_wf(*argument, crate::dump::bump(d), src, len);
        },
        Expr::Update { span, op, prefix, argument } => {
            lemma_simple_target_wf(argument, crate::dump::bump(d), src, len);
        },
        Expr::Assign { span, op, left, right } => {
            lemma_assign_target_wf(left, crate::dump::bump(d), src, len);
            lemma_expr_wf(*right, crate::dump::bump(d), src, len);
        },
        Expr::Ternary { span, test, consequent, alternate } => {
            lemma_expr_wf(*test, crate::dump::bump(d), src, len);
            lemma_expr_wf(*consequent, crate::dump::bump(d), src, len);
            lemma_expr_wf(*alternate, crate::dump::bump(d), src, len);
        },
        Expr::Call { span, optional, callee, arguments } => {
            lemma_expr_wf(*callee, crate::dump::bump(d), src, len);
            lemma_args_wf(arguments@, 0, crate::dump::bump(d), src, len);
        },
        Expr::New { span, callee, arguments } => {
            lemma_expr_wf(*callee, crate::dump::bump(d), src, len);
            lemma_args_wf(arguments@, 0, crate::dump::bump(d), src, len);
        },
        Expr::Member { span, optional, property, object } => {
            lemma_expr_wf(*object, crate::dump::bump(d), src, len);
        },
        Expr::Index { span, optional, object, expression } => {
            lemma_expr_wf(*object, crate::dump::bump(d), src, len);
            lemma_expr_wf(*expression, crate::dump::bump(d), src, len);
        },
        Expr::PrivateField { span, field, object } => {
            lemma_expr_wf(*object, crate::dump::bump(d), src, len);
        },
        Expr::Array { span, elements } => {
            lemma_arr_elems_wf(elements@, 0, crate::dump::bump(d), src, len);
        },
        Expr::ObjectLit { span, properties } => {
            lemma_obj_props_wf(properties@, 0, crate::dump::bump(d), src, len);
        },
        Expr::FuncExpr(f) => lemma_func_wf(f, d, src, "FuncExpr"@, len),
        Expr::Arrow { span, is_async, expr_body, params, directives, statements } => {
            lemma_params_wf(params, crate::dump::bump(d), src, len);
            lemma_directives_wf(directives@, 0, crate::dump::bump(d), len);
            lemma_stmts_wf(statements@, 0, crate::dump::bump(d), src, len);
        },
        Expr::ClassExpr(c) => lemma_class_wf(c, d, src, "ClassExpr"@, len),
        Expr::Sequence { span, expressions } => {
            lemma_exprs_wf(expressions@, 0, crate::dump::bump(d), src, len);
        },
        Expr::Await { span, argument } => {
            lemma_expr_wf(*argument, crate::dump::bump(d), src, len);
        },
        Expr::Yield { span, delegate, argument } => {
            match argument {
                Some(a) => lemma_expr_wf(*a, crate::dump::bump(d), src, len),
                None => {},
            }
        },
        Expr::TaggedTemplate { span, tag, quasi_span, quasis, expressions } => {
            lemma_expr_wf(*tag, crate::dump::bump(d), src, len);
            lemma_template_parts_wf(quasis@, expressions@, 0,
                crate::dump::bump(crate::dump::bump(d)), src, len);
        },
        Expr::ImportExpr { span, source, options } => {
            lemma_expr_wf(*source, crate::dump::bump(d), src, len);
            match options {
                Some(o) => lemma_expr_wf(*o.1, crate::dump::bump(crate::dump::bump(d)), src, len),
                None => {},
            }
        },
        Expr::Chain { span, element } => {
            lemma_chain_elem_wf(element, crate::dump::bump(d), src, len);
        },
        Expr::PrivateIn { span, name, right } => {
            lemma_expr_wf(*right, crate::dump::bump(d), src, len);
        },
        _ => {},
    }
}

pub proof fn lemma_chain_elem_wf(c: ChainElem, d: nat, src: Seq<u8>, len: nat)
    requires chain_elem_wf(c, len),
    ensures lines_wf(chain_elem_lines(c, d, src), len),
    decreases c, 0int, 0int,
{
    broadcast use lemma_cat_wf, lemma_node_wf;
    match c {
        ChainElem::Call { span, callee, arguments } => {
            lemma_expr_wf(*callee, crate::dump::bump(d), src, len);
            lemma_args_wf(arguments@, 0, crate::dump::bump(d), src, len);
        },
        ChainElem::Index { span, object, expression } => {
            lemma_expr_wf(*object, crate::dump::bump(d), src, len);
            lemma_expr_wf(*expression, crate::dump::bump(d), src, len);
        },
        ChainElem::Member { span, property, object } => {
            lemma_expr_wf(*object, crate::dump::bump(d), src, len);
        },
        ChainElem::PrivateField { span, field, object } => {
            lemma_expr_wf(*object, crate::dump::bump(d), src, len);
        },
        ChainElem::Unsupported { span } => {},
    }
}

pub proof fn lemma_for_init_wf(fi: ForInit, d: nat, src: Seq<u8>, len: nat)
    requires for_init_wf(fi, len),
    ensures lines_wf(for_init_lines(fi, d, src), len),
    decreases fi, 0int, 0int,
{
    broadcast use lemma_cat_wf, lemma_node_wf;
    match fi {
        ForInit::Var(v) => lemma_var_decl_wf(v, d, src, len),
        ForInit::Item(e) => lemma_expr_wf(e, d, src, len),
        ForInit::Unsupported { span } => {},
    }
}

pub proof fn lemma_for_left_wf(fl: ForLeft, d: nat, src: Seq<u8>, len: nat)
    requires for_left_wf(fl, len),
    ensures lines_wf(for_left_lines(fl, d, src), len),
    decreases fl, 0int, 0int,
{
    broadcast use lemma_cat_wf, lemma_node_wf;
    match fl {
        ForLeft::Var(v) => lemma_var_decl_wf(v, d, src, len),
        ForLeft::Index { span, object, expression } => {
            lemma_expr_wf(object, crate::dump::bump(d), src, len);
            lemma_expr_wf(expression, crate::dump::bump(d), src, len);
        },
        ForLeft::Member { span, property, object } => {
            lemma_expr_wf(object, crate::dump::bump(d), src, len);
        },
        ForLeft::PrivateField { span, field, object } => {
            lemma_expr_wf(object, crate::dump::bump(d), src, len);
        },
        ForLeft::ArrayTarget(a) => lemma_array_target_wf(a, d, src, len),
        ForLeft::ObjectTarget(o) => lemma_object_target_wf(o, d, src, len),
        _ => {},
    }
}

pub proof fn lemma_assign_target_wf(t: AssignTarget, d: nat, src: Seq<u8>, len: nat)
    requires assign_target_wf(t, len),
    ensures lines_wf(assign_target_lines(t, d, src), len),
    decreases t, 0int, 0int,
{
    broadcast use lemma_cat_wf, lemma_node_wf;
    match t {
        AssignTarget::Index { span, object, expression } => {
            lemma_expr_wf(*object, crate::dump::bump(d), src, len);
            lemma_expr_wf(*expression, crate::dump::bump(d), src, len);
        },
        AssignTarget::Member { span, property, object } => {
            lemma_expr_wf(*object, crate::dump::bump(d), src, len);
        },
        AssignTarget::PrivateField { span, field, object } => {
            lemma_expr_wf(*object, crate::dump::bump(d), src, len);
        },
        AssignTarget::ArrayTarget(a) => lemma_array_target_wf(*a, d, src, len),
        AssignTarget::ObjectTarget(o) => lemma_object_target_wf(*o, d, src, len),
        _ => {},
    }
}

pub proof fn lemma_array_target_wf(a: ArrayAssignTarget, d: nat, src: Seq<u8>, len: nat)
    requires array_target_wf(a, len),
    ensures lines_wf(array_target_lines(a, d, src), len),
    decreases a, 0int, 0int,
{
    broadcast use lemma_cat_wf, lemma_node_wf;
    lemma_target_elems_wf(a.elements@, 0, crate::dump::bump(d), src, a.span, len);
    match a.rest {
        Some(r) => lemma_assign_target_wf(*r.target, crate::dump::bump(crate::dump::bump(d)), src, len),
        None => {},
    }
}

pub proof fn lemma_target_elems_wf(es: Seq<Option<TargetMaybeDefault>>, i: int, d: nat, src: Seq<u8>, pspan: Span, len: nat)
    requires
        forall|k: int| 0 <= k < es.len() ==> (match #[trigger] es[k] {
            Some(t) => target_maybe_default_wf(t, len),
            None => true,
        }),
        span_wf(pspan, len),
    ensures lines_wf(target_elems_from(es, i, d, src, pspan), len),
    decreases es, es.len() - i, 1int,
{
    broadcast use lemma_cat_wf, lemma_node_wf;
    if 0 <= i < es.len() {
        match es[i] {
            Some(t) => lemma_target_maybe_default_wf(t, d, src, len),
            None => {},
        }
        lemma_target_elems_wf(es, i + 1, d, src, pspan, len);
    }
}

pub proof fn lemma_object_target_wf(o: ObjectAssignTarget, d: nat, src: Seq<u8>, len: nat)
    requires object_target_wf(o, len),
    ensures lines_wf(object_target_lines(o, d, src), len),
    decreases o, 0int, 0int,
{
    broadcast use lemma_cat_wf, lemma_node_wf;
    lemma_obj_target_props_wf(o.properties@, 0, crate::dump::bump(d), src, len);
    match o.rest {
        Some(r) => lemma_assign_target_wf(*r.target, crate::dump::bump(crate::dump::bump(d)), src, len),
        None => {},
    }
}

pub proof fn lemma_obj_target_props_wf(ps: Seq<ObjTargetProp>, i: int, d: nat, src: Seq<u8>, len: nat)
    requires forall|k: int| 0 <= k < ps.len() ==> obj_target_prop_wf(#[trigger] ps[k], len),
    ensures lines_wf(obj_target_props_from(ps, i, d, src), len),
    decreases ps, ps.len() - i, 1int,
{
    broadcast use lemma_cat_wf, lemma_node_wf;
    if 0 <= i < ps.len() {
        match ps[i] {
            ObjTargetProp::Ident { span, name, init } => {
                match init {
                    Some(e) => lemma_expr_wf(e, crate::dump::bump(d), src, len),
                    None => {},
                }
            },
            ObjTargetProp::Prop { span, computed, name, binding } => {
                lemma_prop_key_wf(name, crate::dump::bump(d), src, len);
                lemma_target_maybe_default_wf(binding, crate::dump::bump(d), src, len);
            },
        }
        lemma_obj_target_props_wf(ps, i + 1, d, src, len);
    }
}

pub proof fn lemma_target_maybe_default_wf(t: TargetMaybeDefault, d: nat, src: Seq<u8>, len: nat)
    requires target_maybe_default_wf(t, len),
    ensures lines_wf(target_maybe_default_lines(t, d, src), len),
    decreases t, 0int, 0int,
{
    broadcast use lemma_cat_wf, lemma_node_wf;
    match t {
        TargetMaybeDefault::WithDefault { span, binding, init } => {
            lemma_assign_target_wf(binding, crate::dump::bump(d), src, len);
            lemma_expr_wf(*init, crate::dump::bump(d), src, len);
        },
        TargetMaybeDefault::Target(t2) => lemma_assign_target_wf(t2, d, src, len),
        TargetMaybeDefault::Unsupported { span } => {},
    }
}

pub proof fn lemma_simple_target_wf(t: SimpleTarget, d: nat, src: Seq<u8>, len: nat)
    requires simple_target_wf(t, len),
    ensures lines_wf(simple_target_lines(t, d, src), len),
    decreases t, 0int, 0int,
{
    broadcast use lemma_cat_wf, lemma_node_wf;
    match t {
        SimpleTarget::Index { span, object, expression } => {
            lemma_expr_wf(*object, crate::dump::bump(d), src, len);
            lemma_expr_wf(*expression, crate::dump::bump(d), src, len);
        },
        SimpleTarget::Member { span, property, object } => {
            lemma_expr_wf(*object, crate::dump::bump(d), src, len);
        },
        SimpleTarget::PrivateField { span, field, object } => {
            lemma_expr_wf(*object, crate::dump::bump(d), src, len);
        },
        _ => {},
    }
}

pub proof fn lemma_decl_wf(dc: Decl, d: nat, src: Seq<u8>, len: nat)
    requires decl_wf(dc, len),
    ensures lines_wf(decl_lines(dc, d, src), len),
    decreases dc, 0int, 0int,
{
    broadcast use lemma_cat_wf, lemma_node_wf;
    match dc {
        Decl::Var(v) => lemma_var_decl_wf(v, d, src, len),
        Decl::Func(f) => lemma_func_wf(f, d, src, "FuncDecl"@, len),
        Decl::Class(c) => lemma_class_wf(c, d, src, "Class"@, len),
        Decl::Unsupported { span } => {},
    }
}

pub proof fn lemma_import_specs_wf(ss: Seq<ImportSpec>, i: int, d: nat, len: nat)
    requires forall|k: int| 0 <= k < ss.len() ==> import_spec_wf(#[trigger] ss[k], len),
    ensures lines_wf(import_specs_from(ss, i, d), len),
    decreases ss.len() - i,
{
    broadcast use lemma_cat_wf, lemma_node_wf;
    if 0 <= i < ss.len() {
        lemma_import_specs_wf(ss, i + 1, d, len);
    }
}

pub proof fn lemma_export_specs_wf(ss: Seq<ExportSpec>, i: int, d: nat, len: nat)
    requires forall|k: int| 0 <= k < ss.len() ==> span_wf((#[trigger] ss[k]).span, len),
    ensures lines_wf(export_specs_from(ss, i, d), len),
    decreases ss.len() - i,
{
    broadcast use lemma_cat_wf, lemma_node_wf;
    if 0 <= i < ss.len() {
        lemma_export_specs_wf(ss, i + 1, d, len);
    }
}

pub proof fn lemma_with_clause_wf(wc: WithClause, d: nat, len: nat)
    requires with_clause_wf(wc, len),
    ensures lines_wf(with_clause_lines(wc, d), len),
{
    broadcast use lemma_cat_wf, lemma_node_wf;
    lemma_attrs_wf(wc.entries@, 0, crate::dump::bump(d), len);
}

pub proof fn lemma_attrs_wf(es: Seq<crate::tree::ImportAttr>, i: int, d: nat, len: nat)
    requires forall|k: int| 0 <= k < es.len() ==> span_wf((#[trigger] es[k]).span, len),
    ensures lines_wf(attrs_from(es, i, d), len),
    decreases es.len() - i,
{
    broadcast use lemma_cat_wf, lemma_node_wf;
    if 0 <= i < es.len() {
        lemma_attrs_wf(es, i + 1, d, len);
    }
}

/// Span validity of the tree dump: every line the dumper emits for a
/// well-formed tree has `0 <= start <= end <= len(source)`.
pub proof fn lemma_program_dump_spans_valid(p: ProgramNode, src: Seq<u8>)
    requires program_wf(p, src.len()),
    ensures lines_wf(program_lines(p, src), src.len()),
{
    broadcast use lemma_cat_wf, lemma_node_wf;
    lemma_directives_wf(p.directives@, 0, 1, src.len());
    lemma_stmts_wf(p.body@, 0, 1, src, src.len());
}

/// Span validity of the token dump: every token line a dump keeps carries a
/// span of a token the front-end reported, so if every reported token span
/// lies inside the source, so does every printed one.
pub proof fn lemma_kept_tokens_spans_valid(ts: Seq<crate::tokens::RawToken>, i: int, len: nat)
    requires forall|k: int| 0 <= k < ts.len()
        ==> (#[trigger] ts[k]).start <= ts[k].end && ts[k].end <= len,
    ensures forall|k: int| 0 <= k < crate::tokens::kept_from(ts, i).len()
        ==> (#[trigger] crate::tokens::kept_from(ts, i)[k]).start
            <= crate::tokens::kept_from(ts, i)[k].end
            && crate::tokens::kept_from(ts, i)[k].end <= len,
    decreases ts.len() - i,
{
    if 0 <= i < ts.len() {
        lemma_kept_tokens_spans_valid(ts, i + 1, len);
        assert forall|k: int| 0 <= k < crate::tokens::kept_from(ts, i).len()
            implies (#[trigger] crate::tokens::kept_from(ts, i)[k]).start
                <= crate::tokens::kept_from(ts, i)[k].end
                && crate::tokens::kept_from(ts, i)[k].end <= len by {
            let kept = crate::tokens::kept_from(ts, i);
            if !ts[i].eof && !ts[i].trivia && k > 0 {
                assert(kept[k] == crate::tokens::kept_from(ts, i + 1)[k - 1]);
            }
        }
    }
}

/// Dump determinism: the emitted lines are a function of the tree and the
/// source bytes alone, so dumping the same tree over the same source twice
/// yields identical output.
pub proof fn lemma_dump_deterministic(p1: ProgramNode, p2: ProgramNode, src1: Seq<u8>, src2: Seq<u8>)
    requires p1 == p2, src1 == src2,
    ensures
        program_lines(p1, src1) == program_lines(p2, src2),
        crate::line::render_all(program_lines(p1, src1))
            == crate::line::render_all(program_lines(p2, src2)),
{
}

} // verus!
