//! The library's model of a JavaScript syntax tree.
//!
//! A program is a sum type with one variant per syntactic category the dump
//! protocol covers, carrying byte spans and plain values (names, operator
//! text, flags). Constructs outside the covered grammar subset appear as the
//! explicit `Unsupported` variants: the dumper renders them as placeholders
//! and counts them, so a dump never hides a gap.

use vstd::prelude::*;
use crate::line::Span;

verus! {

pub struct Hashbang {
    pub span: Span,
    pub value: Vec<char>,
}

pub struct Directive {
    pub span: Span,
    pub text: Vec<char>,
}

pub struct ProgramNode {
    pub span: Span,
    pub hashbang: Option<Hashbang>,
    pub directives: Vec<Directive>,
    pub body: Vec<Stmt>,
}

pub struct SwitchCase {
    pub span: Span,
    pub test: Option<Expr>,
    pub body: Vec<Stmt>,
}

pub struct BlockPart {
    pub span: Span,
    pub body: Vec<Stmt>,
}

pub struct CatchPart {
    pub span: Span,
    pub param: Option<Binding>,
    pub body: BlockPart,
}

pub struct VarDecl {
    pub span: Span,
    pub kind: Vec<char>,
    pub declarations: Vec<Declarator>,
}

pub struct Declarator {
    pub span: Span,
    pub id: Binding,
    pub init: Option<Expr>,
}

pub struct Func {
    pub span: Span,
    pub is_async: bool,
    pub generator: bool,
    pub name: Vec<char>,
    pub params: Params,
    pub body: Option<FuncBody>,
}

pub struct FuncBody {
    pub directives: Vec<Directive>,
    pub statements: Vec<Stmt>,
}

pub struct Params {
    pub span: Span,
    pub items: Vec<Binding>,
    pub rest: Option<RestElem>,
}

pub struct RestElem {
    pub span: Span,
    pub argument: Box<Binding>,
}

pub struct Class {
    pub span: Span,
    pub name: Vec<char>,
    pub super_class: Option<(Span, Box<Expr>)>,
    pub body: Vec<ClassElem>,
}

pub struct WithClause {
    pub span: Span,
    pub keyword: Vec<char>,
    pub entries: Vec<ImportAttr>,
}

pub struct ImportAttr {
    pub span: Span,
    pub key: Vec<char>,
    pub value: Vec<char>,
}

pub enum ImportSpec {
    Named { span: Span, imported: Vec<char>, local: Vec<char> },
    Default { span: Span, local: Vec<char> },
    Namespace { span: Span, local: Vec<char> },
}

pub struct ExportSpec {
    pub span: Span,
    pub local: Vec<char>,
    pub exported: Vec<char>,
}

pub enum ExportDefaultKind {
    Func(Func),
    Class(Class),
    Expr(Expr),
    Unsupported { span: Span },
}

pub enum Decl {
    Var(VarDecl),
    Func(Func),
    Class(Class),
    Unsupported { span: Span },
}

pub enum Stmt {
    Block { span: Span, body: Vec<Stmt> },
    If { span: Span, test: Expr, consequent: Box<Stmt>, alternate: Option<Box<Stmt>> },
    While { span: Span, test: Expr, body: Box<Stmt> },
    DoWhile { span: Span, body: Box<Stmt>, test: Expr },
    For {
        span: Span,
        init: Option<ForInit>,
        test: Option<Expr>,
        update: Option<Expr>,
        body: Box<Stmt>,
    },
    ForIn { span: Span, left: ForLeft, right: Expr, body: Box<Stmt> },
    ForOf { span: Span, awaited: bool, left: ForLeft, right: Expr, body: Box<Stmt> },
    Switch { span: Span, discriminant: Expr, cases: Vec<SwitchCase> },
    Try {
        span: Span,
        block: BlockPart,
        handler: Option<CatchPart>,
        finalizer: Option<BlockPart>,
    },
    Return { span: Span, argument: Option<Expr> },
    Throw { span: Span, argument: Expr },
    Break { span: Span, label: Vec<char> },
    Continue { span: Span, label: Vec<char> },
    ExprStmt { span: Span, expression: Expr },
    Empty { span: Span },
    Debugger { span: Span },
    With { span: Span, object: Expr, body: Box<Stmt> },
    Labeled { span: Span, label: Vec<char>, body: Box<Stmt> },
    VarDecl(VarDecl),
    FuncDecl(Func),
    ClassDecl(Class),
    Import {
        span: Span,
        phase: Vec<char>,
        source: Vec<char>,
        specifiers: Option<Vec<ImportSpec>>,
        with_clause: Option<WithClause>,
    },
    ExportNamed {
        span: Span,
        source: Vec<char>,
        declaration: Option<Decl>,
        specifiers: Vec<ExportSpec>,
        with_clause: Option<WithClause>,
    },
    ExportDefault { span: Span, declaration: ExportDefaultKind },
    ExportAll {
        span: Span,
        source: Vec<char>,
        exported: Option<Vec<char>>,
        with_clause: Option<WithClause>,
    },
    Unsupported { span: Span },
}

pub enum PropKey {
    Ident { span: Span, name: Vec<char> },
    Private { span: Span, name: Vec<char> },
    Computed(Box<Expr>),
    Unsupported { span: Span },
}

pub enum Binding {
    Ident { span: Span, name: Vec<char> },
    Object { span: Span, props: Vec<BindProp>, rest: Option<RestElem> },
    Array { span: Span, elements: Vec<Option<Binding>>, rest: Option<RestElem> },
    Assign { span: Span, left: Box<Binding>, right: Box<Expr> },
}

pub struct BindProp {
    pub span: Span,
    pub shorthand: bool,
    pub key: PropKey,
    pub value: Binding,
}

pub enum MethodKind {
    Constructor,
    Getter,
    Setter,
    Plain,
}

pub enum PropertyKind {
    Getter,
    Setter,
    Init,
}

pub enum ClassElem {
    Method {
        span: Span,
        is_static: bool,
        kind: MethodKind,
        computed: bool,
        key: PropKey,
        value: Func,
    },
    Property {
        span: Span,
        is_static: bool,
        computed: bool,
        key: PropKey,
        value: Option<Expr>,
    },
    Accessor {
        span: Span,
        is_static: bool,
        computed: bool,
        key: PropKey,
        value: Option<Expr>,
    },
    StaticBlock { span: Span, body: Vec<Stmt> },
    Unsupported { span: Span },
}

pub enum ObjProp {
    Property {
        span: Span,
        shorthand: bool,
        computed: bool,
        method: bool,
        kind: PropertyKind,
        key: PropKey,
        value: Expr,
    },
    Spread { span: Span, argument: Expr },
}

pub enum ArrElem {
    Spread { span: Span, argument: Expr },
    Elision { span: Span },
    Item(Expr),
    Unsupported { span: Span },
}

pub enum Arg {
    Spread { span: Span, argument: Expr },
    Item(Expr),
}

pub enum ForInit {
    Var(VarDecl),
    Item(Expr),
    Unsupported { span: Span },
}

pub enum ForLeft {
    Var(VarDecl),
    Ident { span: Span, name: Vec<char> },
    Index { span: Span, object: Expr, expression: Expr },
    Member { span: Span, property: Vec<char>, object: Expr },
    PrivateField { span: Span, field: Vec<char>, object: Expr },
    ArrayTarget(ArrayAssignTarget),
    ObjectTarget(ObjectAssignTarget),
    Unsupported { span: Span },
}

pub enum AssignTarget {
    Ident { span: Span, name: Vec<char> },
    Index { span: Span, object: Box<Expr>, expression: Box<Expr> },
    Member { span: Span, property: Vec<char>, object: Box<Expr> },
    PrivateField { span: Span, field: Vec<char>, object: Box<Expr> },
    ArrayTarget(Box<ArrayAssignTarget>),
    ObjectTarget(Box<ObjectAssignTarget>),
    Unsupported { span: Span },
}

pub struct ArrayAssignTarget {
    pub span: Span,
    pub elements: Vec<Option<TargetMaybeDefault>>,
    pub rest: Option<TargetRest>,
}

pub struct ObjectAssignTarget {
    pub span: Span,
    pub properties: Vec<ObjTargetProp>,
    pub rest: Option<TargetRest>,
}

pub struct TargetRest {
    pub span: Span,
    pub target: Box<AssignTarget>,
}

pub enum ObjTargetProp {
    Ident { span: Span, name: Vec<char>, init: Option<Expr> },
    Prop { span: Span, computed: bool, name: PropKey, binding: TargetMaybeDefault },
}

pub enum TargetMaybeDefault {
    WithDefault { span: Span, binding: AssignTarget, init: Box<Expr> },
    Target(AssignTarget),
    Unsupported { span: Span },
}

pub enum SimpleTarget {
    Ident { span: Span, name: Vec<char> },
    Index { span: Span, object: Box<Expr>, expression: Box<Expr> },
    Member { span: Span, property: Vec<char>, object: Box<Expr> },
    PrivateField { span: Span, field: Vec<char>, object: Box<Expr> },
    Unsupported { span: Span },
}

pub enum Expr {
    Ident { span: Span, name: Vec<char> },
    NumLit { span: Span },
    StrLit { span: Span },
    BoolLit { span: Span, value: bool },
    NullLit { span: Span },
    BigInt { span: Span },
    Regex { span: Span },
    This { span: Span },
    Super { span: Span },
    Template { span: Span, quasis: Vec<Span>, expressions: Vec<Expr> },
    Binary { span: Span, op: Vec<char>, left: Box<Expr>, right: Box<Expr> },
    Logical { span: Span, op: Vec<char>, left: Box<Expr>, right: Box<Expr> },
    Unary { span: Span, op: Vec<char>, argument: Box<Expr> },
    Update { span: Span, op: Vec<char>, prefix: bool, argument: SimpleTarget },
    Assign { span: Span, op: Vec<char>, left: AssignTarget, right: Box<Expr> },
    Ternary { span: Span, test: Box<Expr>, consequent: Box<Expr>, alternate: Box<Expr> },
    Call { span: Span, optional: bool, callee: Box<Expr>, arguments: Vec<Arg> },
    New { span: Span, callee: Box<Expr>, arguments: Vec<Arg> },
    Member { span: Span, optional: bool, property: Vec<char>, object: Box<Expr> },
    Index { span: Span, optional: bool, object: Box<Expr>, expression: Box<Expr> },
    PrivateField { span: Span, field: Vec<char>, object: Box<Expr> },
    Array { span: Span, elements: Vec<ArrElem> },
    ObjectLit { span: Span, properties: Vec<ObjProp> },
    FuncExpr(Func),
    Arrow {
        span: Span,
        is_async: bool,
        expr_body: bool,
        params: Params,
        directives: Vec<Directive>,
        statements: Vec<Stmt>,
    },
    ClassExpr(Class),
    Sequence { span: Span, expressions: Vec<Expr> },
    Await { span: Span, argument: Box<Expr> },
    Yield { span: Span, delegate: bool, argument: Option<Box<Expr>> },
    TaggedTemplate {
        span: Span,
        tag: Box<Expr>,
        quasi_span: Span,
        quasis: Vec<Span>,
        expressions: Vec<Expr>,
    },
    ImportExpr { span: Span, source: Box<Expr>, options: Option<(Span, Box<Expr>)> },
    Chain { span: Span, element: ChainElem },
    MetaProperty { span: Span, meta: Vec<char>, property: Vec<char> },
    PrivateIn { span: Span, name: Vec<char>, right: Box<Expr> },
    Unsupported { span: Span },
}

pub enum ChainElem {
    Call { span: Span, callee: Box<Expr>, arguments: Vec<Arg> },
    Index { span: Span, object: Box<Expr>, expression: Box<Expr> },
    Member { span: Span, property: Vec<char>, object: Box<Expr> },
    PrivateField { span: Span, field: Vec<char>, object: Box<Expr> },
    Unsupported { span: Span },
}

} // verus!
