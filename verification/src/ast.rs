//! The executable syntax tree the transform runs over.
//!
//! The grammar is a closed set of tagged variants: one variant per node kind
//! the pass inspects, and an `Other` variant (with an opaque payload tag) for
//! every node kind it must carry through untouched. The view of each type is
//! the corresponding `model` datatype.

use vstd::prelude::*;

use crate::model::{
    SpecArg, SpecArrowBody, SpecBlock, SpecCallee, SpecDecl, SpecDeclarator, SpecDefaultDecl,
    SpecExpr, SpecFunction, SpecImport, SpecImportSpecifier, SpecItem, SpecModule, SpecPat,
    SpecStmt, SpecVarDecl, SpecVarKind,
};

verus! {

#[derive(Debug, PartialEq, Eq)]
pub enum Expr {
    /// A JSX element or fragment.
    Jsx(u64),
    /// A parenthesized expression.
    Paren(Box<Expr>),
    /// A function expression with an optional name.
    FnExpr { name: Option<String>, function: Function },
    /// An arrow function.
    Arrow { body: ArrowBody, extra: u64 },
    /// A call with a callee and ordered arguments.
    Call { callee: Callee, args: Vec<Arg>, extra: u64 },
    /// A bare identifier.
    Ident { name: String, extra: u64 },
    /// Any other expression kind.
    Other(u64),
}

#[derive(Debug, PartialEq, Eq)]
pub enum Callee {
    CalleeExpr(Box<Expr>),
    CalleeOther(u64),
}

#[derive(Debug, PartialEq, Eq)]
pub struct Arg {
    pub spread: bool,
    pub expr: Expr,
}

#[derive(Debug, PartialEq, Eq)]
pub struct Function {
    pub body: Option<Block>,
    pub extra: u64,
}

#[derive(Debug, PartialEq, Eq)]
pub enum ArrowBody {
    BlockBody(Block),
    ExprBody(Box<Expr>),
}

#[derive(Debug, PartialEq, Eq)]
pub struct Block {
    pub stmts: Vec<Stmt>,
    pub extra: u64,
}

#[derive(Debug, PartialEq, Eq)]
pub enum Stmt {
    Decl(Decl),
    Return { arg: Option<Expr>, extra: u64 },
    ExprStmt { expr: Expr, extra: u64 },
    Block(Block),
    Other(u64),
}

#[derive(Debug, PartialEq, Eq)]
pub enum Decl {
    FnDecl { name: String, function: Function },
    VarDecl(VarDecl),
    Other(u64),
}

#[derive(Debug, PartialEq, Eq)]
pub enum VarKind {
    VarKw,
    LetKw,
    ConstKw,
}

#[derive(Debug, PartialEq, Eq)]
pub struct VarDecl {
    pub kind: VarKind,
    pub decls: Vec<VarDeclarator>,
    pub extra: u64,
}

#[derive(Debug, PartialEq, Eq)]
pub struct VarDeclarator {
    pub name: Pat,
    pub init: Option<Expr>,
    pub extra: u64,
}

#[derive(Debug, PartialEq, Eq)]
pub enum Pat {
    Ident { name: String, extra: u64 },
    Other(u64),
}

#[derive(Debug, PartialEq, Eq)]
pub enum DefaultDecl {
    Fn { name: Option<String>, function: Function },
    Other(u64),
}

#[derive(Debug, PartialEq, Eq)]
pub struct ImportDecl {
    pub specifiers: Vec<ImportSpecifier>,
    pub src: String,
    pub extra: u64,
}

#[derive(Debug, PartialEq, Eq)]
pub enum ImportSpecifier {
    Named { local: String, imported: Option<String>, extra: u64 },
    Other(u64),
}

#[derive(Debug, PartialEq, Eq)]
pub enum ModuleItem {
    Import(ImportDecl),
    Stmt(Stmt),
    ExportDecl { decl: Decl, extra: u64 },
    ExportDefaultDecl { decl: DefaultDecl, extra: u64 },
    ExportDefaultExpr { expr: Expr, extra: u64 },
    Other(u64),
}

#[derive(Debug, PartialEq, Eq)]
pub struct Module {
    pub body: Vec<ModuleItem>,
    pub extra: u64,
}

pub open spec fn name_view(name: Option<String>) -> Option<Seq<char>> {
    match name {
        Some(n) => Some(n@),
        None => None,
    }
}

pub open spec fn view_expr(e: Expr) -> SpecExpr
    decreases e,
{
    match e {
        Expr::Jsx(x) => SpecExpr::Jsx(x),
        Expr::Paren(inner) => SpecExpr::Paren(Box::new(view_expr(*inner))),
        Expr::FnExpr { name, function } => SpecExpr::FnExpr {
            name: name_view(name),
            function: view_function(function),
        },
        Expr::Arrow { body, extra } => SpecExpr::Arrow { body: view_arrow_body(body), extra },
        Expr::Call { callee, args, extra } => SpecExpr::Call {
            callee: view_callee(callee),
            args: args_view(args@),
            extra,
        },
        Expr::Ident { name, extra } => SpecExpr::Ident { name: name@, extra },
        Expr::Other(x) => SpecExpr::Other(x),
    }
}

pub open spec fn view_callee(c: Callee) -> SpecCallee
    decreases c,
{
    match c {
        Callee::CalleeExpr(e) => SpecCallee::CalleeExpr(Box::new(view_expr(*e))),
        Callee::CalleeOther(x) => SpecCallee::CalleeOther(x),
    }
}

pub open spec fn view_arg(a: Arg) -> SpecArg
    decreases a,
{
    SpecArg { spread: a.spread, expr: view_expr(a.expr) }
}

pub open spec fn args_view(args: Seq<Arg>) -> Seq<SpecArg>
    decreases args,
{
    Seq::new(
        args.len(),
        |i: int|
            if 0 <= i < args.len() {
                view_arg(args[i])
            } else {
                SpecArg { spread: false, expr: SpecExpr::Other(0) }
            },
    )
}

pub open spec fn view_function(f: Function) -> SpecFunction
    decreases f,
{
    SpecFunction {
        body: match f.body {
            Some(b) => Some(view_block(b)),
            None => None,
        },
        extra: f.extra,
    }
}

pub open spec fn view_arrow_body(b: ArrowBody) -> SpecArrowBody
    decreases b,
{
    match b {
        ArrowBody::BlockBody(block) => SpecArrowBody::BlockBody(view_block(block)),
        ArrowBody::ExprBody(e) => SpecArrowBody::ExprBody(Box::new(view_expr(*e))),
    }
}

pub open spec fn view_block(b: Block) -> SpecBlock
    decreases b,
{
    SpecBlock { stmts: stmts_view(b.stmts@), extra: b.extra }
}

pub open spec fn stmts_view(stmts: Seq<Stmt>) -> Seq<SpecStmt>
    decreases stmts,
{
    Seq::new(
        stmts.len(),
        |i: int| if 0 <= i < stmts.len() { view_stmt(stmts[i]) } else { SpecStmt::Other(0) },
    )
}

pub open spec fn view_stmt(s: Stmt) -> SpecStmt
    decreases s,
{
    match s {
        Stmt::Decl(d) => SpecStmt::Decl(view_decl(d)),
        Stmt::Return { arg, extra } => SpecStmt::Return {
            arg: match arg {
                Some(e) => Some(view_expr(e)),
                None => None,
            },
            extra,
        },
        Stmt::ExprStmt { expr, extra } => SpecStmt::ExprStmt { expr: view_expr(expr), extra },
        Stmt::Block(b) => SpecStmt::Block(view_block(b)),
        Stmt::Other(x) => SpecStmt::Other(x),
    }
}

pub open spec fn view_decl(d: Decl) -> SpecDecl
    decreases d,
{
    match d {
        Decl::FnDecl { name, function } => SpecDecl::FnDecl {
            name: name@,
            function: view_function(function),
        },
        Decl::VarDecl(v) => SpecDecl::VarDecl(view_var_decl(v)),
        Decl::Other(x) => SpecDecl::Other(x),
    }
}

pub open spec fn view_var_kind(k: VarKind) -> SpecVarKind {
    match k {
        VarKind::VarKw => SpecVarKind::VarKw,
        VarKind::LetKw => SpecVarKind::LetKw,
        VarKind::ConstKw => SpecVarKind::ConstKw,
    }
}

pub open spec fn view_var_decl(v: VarDecl) -> SpecVarDecl
    decreases v,
{
    SpecVarDecl { kind: view_var_kind(v.kind), decls: decls_view(v.decls@), extra: v.extra }
}

pub open spec fn decls_view(decls: Seq<VarDeclarator>) -> Seq<SpecDeclarator>
    decreases decls,
{
    Seq::new(
        decls.len(),
        |i: int|
            if 0 <= i < decls.len() {
                view_declarator(decls[i])
            } else {
                SpecDeclarator { name: SpecPat::Other(0), init: None, extra: 0 }
            },
    )
}

pub open spec fn view_declarator(d: VarDeclarator) -> SpecDeclarator
    decreases d,
{
    SpecDeclarator {
        name: view_pat(d.name),
        init: match d.init {
            Some(e) => Some(view_expr(e)),
            None => None,
        },
        extra: d.extra,
    }
}

pub open spec fn view_pat(p: Pat) -> SpecPat {
    match p {
        Pat::Ident { name, extra } => SpecPat::Ident { name: name@, extra },
        Pat::Other(x) => SpecPat::Other(x),
    }
}

pub open spec fn view_default_decl(d: DefaultDecl) -> SpecDefaultDecl
    decreases d,
{
    match d {
        DefaultDecl::Fn { name, function } => SpecDefaultDecl::Fn {
            name: name_view(name),
            function: view_function(function),
        },
        DefaultDecl::Other(x) => SpecDefaultDecl::Other(x),
    }
}

pub open spec fn view_specifier(s: ImportSpecifier) -> SpecImportSpecifier {
    match s {
        ImportSpecifier::Named { local, imported, extra } => SpecImportSpecifier::Named {
            local: local@,
            imported: name_view(imported),
            extra,
        },
        ImportSpecifier::Other(x) => SpecImportSpecifier::Other(x),
    }
}

pub open spec fn specifiers_view(specifiers: Seq<ImportSpecifier>) -> Seq<SpecImportSpecifier> {
    Seq::new(
        specifiers.len(),
        |i: int|
            if 0 <= i < specifiers.len() {
                view_specifier(specifiers[i])
            } else {
                SpecImportSpecifier::Other(0)
            },
    )
}

pub open spec fn view_import(i: ImportDecl) -> SpecImport {
    SpecImport { specifiers: specifiers_view(i.specifiers@), src: i.src@, extra: i.extra }
}

pub open spec fn view_item(it: ModuleItem) -> SpecItem
    decreases it,
{
    match it {
        ModuleItem::Import(i) => SpecItem::Import(view_import(i)),
        ModuleItem::Stmt(s) => SpecItem::Stmt(view_stmt(s)),
        ModuleItem::ExportDecl { decl, extra } => SpecItem::ExportDecl {
            decl: view_decl(decl),
            extra,
        },
        ModuleItem::ExportDefaultDecl { decl, extra } => SpecItem::ExportDefaultDecl {
            decl: view_default_decl(decl),
            extra,
        },
        ModuleItem::ExportDefaultExpr { expr, extra } => SpecItem::ExportDefaultExpr {
            expr: view_expr(expr),
            extra,
        },
        ModuleItem::Other(x) => SpecItem::Other(x),
    }
}

pub open spec fn items_view(items: Seq<ModuleItem>) -> Seq<SpecItem>
    decreases items,
{
    Seq::new(
        items.len(),
        |i: int| if 0 <= i < items.len() { view_item(items[i]) } else { SpecItem::Other(0) },
    )
}

pub open spec fn view_module(m: Module) -> SpecModule {
    SpecModule { body: items_view(m.body@), extra: m.extra }
}

impl View for Expr {
    type V = SpecExpr;

    #[verifier::inline]
    open spec fn view(&self) -> SpecExpr {
        view_expr(*self)
    }
}

impl View for Callee {
    type V = SpecCallee;

    #[verifier::inline]
    open spec fn view(&self) -> SpecCallee {
        view_callee(*self)
    }
}

impl View for Arg {
    type V = SpecArg;

    #[verifier::inline]
    open spec fn view(&self) -> SpecArg {
        view_arg(*self)
    }
}

impl View for Function {
    type V = SpecFunction;

    #[verifier::inline]
    open spec fn view(&self) -> SpecFunction {
        view_function(*self)
    }
}

impl View for ArrowBody {
    type V = SpecArrowBody;

    #[verifier::inline]
    open spec fn view(&self) -> SpecArrowBody {
        view_arrow_body(*self)
    }
}

impl View for Block {
    type V = SpecBlock;

    #[verifier::inline]
    open spec fn view(&self) -> SpecBlock {
        view_block(*self)
    }
}

impl View for Stmt {
    type V = SpecStmt;

    #[verifier::inline]
    open spec fn view(&self) -> SpecStmt {
        view_stmt(*self)
    }
}

impl View for Decl {
    type V = SpecDecl;

    #[verifier::inline]
    open spec fn view(&self) -> SpecDecl {
        view_decl(*self)
    }
}

impl View for VarKind {
    type V = SpecVarKind;

    #[verifier::inline]
    open spec fn view(&self) -> SpecVarKind {
        view_var_kind(*self)
    }
}

impl View for VarDecl {
    type V = SpecVarDecl;

    #[verifier::inline]
    open spec fn view(&self) -> SpecVarDecl {
        view_var_decl(*self)
    }
}

impl View for VarDeclarator {
    type V = SpecDeclarator;

    #[verifier::inline]
    open spec fn view(&self) -> SpecDeclarator {
        view_declarator(*self)
    }
}

impl View for Pat {
    type V = SpecPat;

    #[verifier::inline]
    open spec fn view(&self) -> SpecPat {
        view_pat(*self)
    }
}

impl View for DefaultDecl {
    type V = SpecDefaultDecl;

    #[verifier::inline]
    open spec fn view(&self) -> SpecDefaultDecl {
        view_default_decl(*self)
    }
}

impl View for ImportDecl {
    type V = SpecImport;

    #[verifier::inline]
    open spec fn view(&self) -> SpecImport {
        view_import(*self)
    }
}

impl View for ImportSpecifier {
    type V = SpecImportSpecifier;

    #[verifier::inline]
    open spec fn view(&self) -> SpecImportSpecifier {
        view_specifier(*self)
    }
}

impl View for ModuleItem {
    type V = SpecItem;

    #[verifier::inline]
    open spec fn view(&self) -> SpecItem {
        view_item(*self)
    }
}

impl View for Module {
    type V = SpecModule;

    #[verifier::inline]
    open spec fn view(&self) -> SpecModule {
        view_module(*self)
    }
}

pub broadcast proof fn lemma_args_view_len(args: Seq<Arg>)
    ensures
        (#[trigger] args_view(args)).len() == args.len(),
{
}

pub broadcast proof fn lemma_args_view_index(args: Seq<Arg>, i: int)
    requires
        0 <= i < args.len(),
    ensures
        #[trigger] args_view(args)[i] == view_arg(args[i]),
{
}

pub broadcast proof fn lemma_stmts_view_len(stmts: Seq<Stmt>)
    ensures
        (#[trigger] stmts_view(stmts)).len() == stmts.len(),
{
}

pub broadcast proof fn lemma_stmts_view_index(stmts: Seq<Stmt>, i: int)
    requires
        0 <= i < stmts.len(),
    ensures
        #[trigger] stmts_view(stmts)[i] == view_stmt(stmts[i]),
{
}

pub broadcast proof fn lemma_decls_view_len(decls: Seq<VarDeclarator>)
    ensures
        (#[trigger] decls_view(decls)).len() == decls.len(),
{
}

pub broadcast proof fn lemma_decls_view_index(decls: Seq<VarDeclarator>, i: int)
    requires
        0 <= i < decls.len(),
    ensures
        #[trigger] decls_view(decls)[i] == view_declarator(decls[i]),
{
}

pub broadcast proof fn lemma_specifiers_view_len(specifiers: Seq<ImportSpecifier>)
    ensures
        (#[trigger] specifiers_view(specifiers)).len() == specifiers.len(),
{
}

pub broadcast proof fn lemma_specifiers_view_index(specifiers: Seq<ImportSpecifier>, i: int)
    requires
        0 <= i < specifiers.len(),
    ensures
        #[trigger] specifiers_view(specifiers)[i] == view_specifier(specifiers[i]),
{
}

pub broadcast proof fn lemma_items_view_len(items: Seq<ModuleItem>)
    ensures
        (#[trigger] items_view(items)).len() == items.len(),
{
}

pub broadcast proof fn lemma_items_view_index(items: Seq<ModuleItem>, i: int)
    requires
        0 <= i < items.len(),
    ensures
        #[trigger] items_view(items)[i] == view_item(items[i]),
{
}

pub broadcast group group_ast_views {
    lemma_args_view_len,
    lemma_args_view_index,
    lemma_stmts_view_len,
    lemma_stmts_view_index,
    lemma_decls_view_len,
    lemma_decls_view_index,
    lemma_specifiers_view_len,
    lemma_specifiers_view_index,
    lemma_items_view_len,
    lemma_items_view_index,
}

} // verus!
