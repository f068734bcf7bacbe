//! The mathematical model of the module grammar.
//!
//! These datatypes mirror the executable syntax tree in `ast` with `Seq` in
//! place of `Vec` and `Seq<char>` in place of `String`; every contract of the
//! transform speaks of these values. Node kinds the transform never inspects
//! are carried as opaque payload tags (`u64`), so that a rewrite that leaves
//! an item alone can be stated as plain equality.

use vstd::prelude::*;

verus! {

#[verifier::ext_equal]
pub enum SpecExpr {
    /// A JSX element or fragment.
    Jsx(u64),
    /// A parenthesized expression.
    Paren(Box<SpecExpr>),
    /// A function expression with an optional name.
    FnExpr { name: Option<Seq<char>>, function: SpecFunction },
    /// An arrow function.
    Arrow { body: SpecArrowBody, extra: u64 },
    /// A call with a callee and ordered arguments.
    Call { callee: SpecCallee, args: Seq<SpecArg>, extra: u64 },
    /// A bare identifier.
    Ident { name: Seq<char>, extra: u64 },
    /// Any other expression kind.
    Other(u64),
}

#[verifier::ext_equal]
pub enum SpecCallee {
    CalleeExpr(Box<SpecExpr>),
    CalleeOther(u64),
}

#[verifier::ext_equal]
pub struct SpecArg {
    pub spread: bool,
    pub expr: SpecExpr,
}

#[verifier::ext_equal]
pub struct SpecFunction {
    pub body: Option<SpecBlock>,
    pub extra: u64,
}

#[verifier::ext_equal]
pub enum SpecArrowBody {
    BlockBody(SpecBlock),
    ExprBody(Box<SpecExpr>),
}

#[verifier::ext_equal]
pub struct SpecBlock {
    pub stmts: Seq<SpecStmt>,
    pub extra: u64,
}

#[verifier::ext_equal]
pub enum SpecStmt {
    Decl(SpecDecl),
    Return { arg: Option<SpecExpr>, extra: u64 },
    ExprStmt { expr: SpecExpr, extra: u64 },
    Block(SpecBlock),
    Other(u64),
}

#[verifier::ext_equal]
pub enum SpecDecl {
    FnDecl { name: Seq<char>, function: SpecFunction },
    VarDecl(SpecVarDecl),
    Other(u64),
}

#[verifier::ext_equal]
pub enum SpecVarKind {
    VarKw,
    LetKw,
    ConstKw,
}

#[verifier::ext_equal]
pub struct SpecVarDecl {
    pub kind: SpecVarKind,
    pub decls: Seq<SpecDeclarator>,
    pub extra: u64,
}

#[verifier::ext_equal]
pub struct SpecDeclarator {
    pub name: SpecPat,
    pub init: Option<SpecExpr>,
    pub extra: u64,
}

#[verifier::ext_equal]
pub enum SpecPat {
    Ident { name: Seq<char>, extra: u64 },
    Other(u64),
}

#[verifier::ext_equal]
pub enum SpecDefaultDecl {
    Fn { name: Option<Seq<char>>, function: SpecFunction },
    Other(u64),
}

#[verifier::ext_equal]
pub struct SpecImport {
    pub specifiers: Seq<SpecImportSpecifier>,
    pub src: Seq<char>,
    pub extra: u64,
}

#[verifier::ext_equal]
pub enum SpecImportSpecifier {
    Named { local: Seq<char>, imported: Option<Seq<char>>, extra: u64 },
    Other(u64),
}

#[verifier::ext_equal]
pub enum SpecItem {
    Import(SpecImport),
    Stmt(SpecStmt),
    ExportDecl { decl: SpecDecl, extra: u64 },
    ExportDefaultDecl { decl: SpecDefaultDecl, extra: u64 },
    ExportDefaultExpr { expr: SpecExpr, extra: u64 },
    Other(u64),
}

#[verifier::ext_equal]
pub struct SpecModule {
    pub body: Seq<SpecItem>,
    pub extra: u64,
}

#[verifier::ext_equal]
pub struct SpecConfig {
    pub import_name: Option<Seq<char>>,
    pub import_path: Seq<char>,
    pub exclude: Seq<Seq<char>>,
}

} // verus!
