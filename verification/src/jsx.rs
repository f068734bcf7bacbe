//! The JSX detector: does a subtree contain JSX markup, directly or inside
//! nested function bodies reachable through returns, blocks, and call
//! arguments.

use vstd::prelude::*;

use crate::ast::{
    args_view, decls_view, items_view, stmts_view, view_arrow_body, view_block, view_expr, Arg,
    ArrowBody, Block, Decl, DefaultDecl, Expr, Function, Module, ModuleItem, Stmt, VarDeclarator,
};
use crate::model::{
    SpecArg, SpecArrowBody, SpecBlock, SpecDecl, SpecDeclarator, SpecDefaultDecl, SpecExpr,
    SpecFunction, SpecItem, SpecStmt, SpecVarDecl,
};

verus! {

broadcast use crate::ast::group_ast_views;

pub open spec fn jsx_in_expr(e: SpecExpr) -> bool
    decreases e,
{
    match e {
        SpecExpr::Jsx(_) => true,
        SpecExpr::Paren(inner) => jsx_in_expr(*inner),
        SpecExpr::FnExpr { function, .. } => jsx_in_function(function),
        SpecExpr::Arrow { body, .. } => match body {
            SpecArrowBody::BlockBody(b) => jsx_in_block(b),
            SpecArrowBody::ExprBody(inner) => jsx_in_expr(*inner),
        },
        SpecExpr::Call { args, .. } => jsx_in_args(args),
        _ => false,
    }
}

/// Whether any argument of a call contains JSX.
pub open spec fn jsx_in_args(args: Seq<SpecArg>) -> bool
    decreases args,
{
    if args.len() == 0 {
        false
    } else {
        jsx_in_expr(args[0].expr) || jsx_in_args(args.drop_first())
    }
}

pub open spec fn jsx_in_function(f: SpecFunction) -> bool
    decreases f,
{
    match f.body {
        Some(b) => jsx_in_block(b),
        None => false,
    }
}

pub open spec fn jsx_in_block(b: SpecBlock) -> bool
    decreases b,
{
    jsx_in_stmts(b.stmts)
}

/// Whether any statement of the sequence contains JSX.
pub open spec fn jsx_in_stmts(stmts: Seq<SpecStmt>) -> bool
    decreases stmts,
{
    if stmts.len() == 0 {
        false
    } else {
        jsx_in_stmt(stmts[0]) || jsx_in_stmts(stmts.drop_first())
    }
}

/// Whether a variable binding's initializer contains JSX.
pub open spec fn jsx_in_declarator(d: SpecDeclarator) -> bool
    decreases d,
{
    match d.init {
        Some(e) => jsx_in_expr(e),
        None => false,
    }
}

/// Whether any binding of the sequence has a JSX-bearing initializer.
pub open spec fn jsx_in_decls(decls: Seq<SpecDeclarator>) -> bool
    decreases decls,
{
    if decls.len() == 0 {
        false
    } else {
        jsx_in_declarator(decls[0]) || jsx_in_decls(decls.drop_first())
    }
}

pub open spec fn jsx_in_var_decl(v: SpecVarDecl) -> bool
    decreases v,
{
    jsx_in_decls(v.decls)
}

pub open spec fn jsx_in_stmt(s: SpecStmt) -> bool
    decreases s,
{
    match s {
        SpecStmt::Decl(SpecDecl::FnDecl { function, .. }) => jsx_in_function(function),
        SpecStmt::Decl(SpecDecl::VarDecl(v)) => jsx_in_var_decl(v),
        SpecStmt::Return { arg, .. } => match arg {
            Some(e) => jsx_in_expr(e),
            None => false,
        },
        SpecStmt::ExprStmt { expr, .. } => jsx_in_expr(expr),
        SpecStmt::Block(b) => jsx_in_block(b),
        _ => false,
    }
}

/// The module-level detector looks at statements, default-exported
/// expressions, exported function and variable declarations, and
/// default-exported function declarations.
pub open spec fn jsx_in_item(it: SpecItem) -> bool
    decreases it,
{
    match it {
        SpecItem::Stmt(s) => jsx_in_stmt(s),
        SpecItem::ExportDefaultExpr { expr, .. } => jsx_in_expr(expr),
        SpecItem::ExportDecl { decl: SpecDecl::FnDecl { function, .. }, .. } => jsx_in_function(
            function,
        ),
        SpecItem::ExportDecl { decl: SpecDecl::VarDecl(v), .. } => jsx_in_var_decl(v),
        SpecItem::ExportDefaultDecl { decl: SpecDefaultDecl::Fn { function, .. }, .. } =>
            jsx_in_function(function),
        _ => false,
    }
}

/// Whether any top-level item contains JSX.
pub open spec fn jsx_in_items(items: Seq<SpecItem>) -> bool
    decreases items,
{
    if items.len() == 0 {
        false
    } else {
        jsx_in_item(items[0]) || jsx_in_items(items.drop_first())
    }
}

/// Does the expression contain JSX markup.
#[verifier::rlimit(60)]
pub fn contains_jsx_in_expr(e: &Expr) -> (r: bool)
    ensures
        r == jsx_in_expr(e@),
    decreases *e,
{
    match e {
        Expr::Jsx(_) => return true,
        Expr::Paren(inner) => return contains_jsx_in_expr(inner),
        Expr::FnExpr { function, .. } => return contains_jsx_in_function(function),
        Expr::Arrow { body, extra } => {
            proof {
                assert(e@ == SpecExpr::Arrow { body: view_arrow_body(*body), extra: *extra });
            }
            match body {
                ArrowBody::BlockBody(b) => {
                    let r0 = contains_jsx_in_block(b);
                    proof {
                        assert(view_arrow_body(*body) == SpecArrowBody::BlockBody(view_block(*b)));
                    }
                    return r0;
                },
                ArrowBody::ExprBody(inner) => {
                    let r0 = contains_jsx_in_expr(inner);
                    proof {
                        assert(view_arrow_body(*body) == SpecArrowBody::ExprBody(
                            Box::new(view_expr(**inner)),
                        ));
                    }
                    return r0;
                },
            }
        },
        Expr::Call { args, .. } => return contains_jsx_in_args(args),
        _ => return false,
    }
}

/// Does any call argument contain JSX.
fn contains_jsx_in_args(args: &Vec<Arg>) -> (r: bool)
    ensures
        r == jsx_in_args(args_view(args@)),
    decreases *args,
{
    let ghost s: Seq<SpecArg> = args_view(args@);
    proof {
        assert(s.skip(0) =~= s);
    }
    let n = args.len();
    let mut i: usize = 0;
    while i < n
        invariant
            n == args@.len(),
            s == args_view(args@),
            s.len() == n,
            0 <= i <= n,
            jsx_in_args(s) == jsx_in_args(s.skip(i as int)),
        decreases n - i,
    {
        let found = contains_jsx_in_expr(&args[i].expr);
        proof {
            assert(s[i as int] == args@[i as int]@);
            assert(s.skip(i as int)[0] == s[i as int]);
            assert(s.skip(i as int).drop_first() =~= s.skip(i as int + 1));
        }
        if found {
            return true;
        }
        i += 1;
    }
    proof {
        assert(s.skip(n as int) =~= Seq::<SpecArg>::empty());
    }
    false
}

/// Does the function's body contain JSX.
pub fn contains_jsx_in_function(f: &Function) -> (r: bool)
    ensures
        r == jsx_in_function(f@),
    decreases *f,
{
    match &f.body {
        Some(b) => contains_jsx_in_block(b),
        None => false,
    }
}

/// Does any statement of the block contain JSX.
pub fn contains_jsx_in_block(b: &Block) -> (r: bool)
    ensures
        r == jsx_in_block(b@),
    decreases *b,
{
    contains_jsx_in_stmts(&b.stmts)
}

/// Does any statement of the sequence contain JSX.
fn contains_jsx_in_stmts(stmts: &Vec<Stmt>) -> (r: bool)
    ensures
        r == jsx_in_stmts(stmts_view(stmts@)),
    decreases *stmts,
{
    let ghost s: Seq<SpecStmt> = stmts_view(stmts@);
    proof {
        assert(s.skip(0) =~= s);
    }
    let n = stmts.len();
    let mut i: usize = 0;
    while i < n
        invariant
            n == stmts@.len(),
            s == stmts_view(stmts@),
            s.len() == n,
            0 <= i <= n,
            jsx_in_stmts(s) == jsx_in_stmts(s.skip(i as int)),
        decreases n - i,
    {
        let found = contains_jsx_in_stmt(&stmts[i]);
        proof {
            assert(s[i as int] == stmts@[i as int]@);
            assert(s.skip(i as int)[0] == s[i as int]);
            assert(s.skip(i as int).drop_first() =~= s.skip(i as int + 1));
        }
        if found {
            return true;
        }
        i += 1;
    }
    proof {
        assert(s.skip(n as int) =~= Seq::<SpecStmt>::empty());
    }
    false
}

/// Does any binding of the declarator list have a JSX-bearing initializer.
fn contains_jsx_in_decls(decls: &Vec<VarDeclarator>) -> (r: bool)
    ensures
        r == jsx_in_decls(decls_view(decls@)),
    decreases *decls,
{
    let ghost s: Seq<SpecDeclarator> = decls_view(decls@);
    proof {
        assert(s.skip(0) =~= s);
    }
    let n = decls.len();
    let mut i: usize = 0;
    while i < n
        invariant
            n == decls@.len(),
            s == decls_view(decls@),
            s.len() == n,
            0 <= i <= n,
            jsx_in_decls(s) == jsx_in_decls(s.skip(i as int)),
        decreases n - i,
    {
        let found = match &decls[i].init {
            Some(e) => contains_jsx_in_expr(e),
            None => false,
        };
        proof {
            assert(s[i as int] == decls@[i as int]@);
            assert(found == jsx_in_declarator(s[i as int]));
            assert(s.skip(i as int)[0] == s[i as int]);
            assert(s.skip(i as int).drop_first() =~= s.skip(i as int + 1));
        }
        if found {
            return true;
        }
        i += 1;
    }
    proof {
        assert(s.skip(n as int) =~= Seq::<SpecDeclarator>::empty());
    }
    false
}

/// Does the statement contain JSX.
pub fn contains_jsx_in_stmt(s: &Stmt) -> (r: bool)
    ensures
        r == jsx_in_stmt(s@),
    decreases *s,
{
    match s {
        Stmt::Decl(Decl::FnDecl { function, .. }) => contains_jsx_in_function(function),
        Stmt::Decl(Decl::VarDecl(v)) => contains_jsx_in_decls(&v.decls),
        Stmt::Return { arg, .. } => match arg {
            Some(e) => contains_jsx_in_expr(e),
            None => false,
        },
        Stmt::ExprStmt { expr, .. } => contains_jsx_in_expr(expr),
        Stmt::Block(b) => contains_jsx_in_block(b),
        _ => false,
    }
}

/// Does the item contain JSX, as the module-level detector sees it.
fn contains_jsx_in_item(it: &ModuleItem) -> (r: bool)
    ensures
        r == jsx_in_item(it@),
    decreases *it,
{
    match it {
        ModuleItem::Stmt(s) => contains_jsx_in_stmt(s),
        ModuleItem::ExportDefaultExpr { expr, .. } => contains_jsx_in_expr(expr),
        ModuleItem::ExportDecl { decl: Decl::FnDecl { function, .. }, .. } =>
            contains_jsx_in_function(function),
        ModuleItem::ExportDecl { decl: Decl::VarDecl(v), .. } => contains_jsx_in_decls(&v.decls),
        ModuleItem::ExportDefaultDecl { decl: DefaultDecl::Fn { function, .. }, .. } =>
            contains_jsx_in_function(function),
        _ => false,
    }
}

/// Does any top-level item of the module contain JSX.
pub fn contains_jsx_in_module(m: &Module) -> (r: bool)
    ensures
        r == jsx_in_items(m@.body),
{
    let ghost s: Seq<SpecItem> = items_view(m.body@);
    proof {
        assert(s.skip(0) =~= s);
    }
    let n = m.body.len();
    let mut i: usize = 0;
    while i < n
        invariant
            n == m.body@.len(),
            s == items_view(m.body@),
            s.len() == n,
            0 <= i <= n,
            jsx_in_items(s) == jsx_in_items(s.skip(i as int)),
        decreases n - i,
    {
        let found = contains_jsx_in_item(&m.body[i]);
        proof {
            assert(s[i as int] == m.body@[i as int]@);
            assert(s.skip(i as int)[0] == s[i as int]);
            assert(s.skip(i as int).drop_first() =~= s.skip(i as int + 1));
        }
        if found {
            return true;
        }
        i += 1;
    }
    proof {
        assert(s.skip(n as int) =~= Seq::<SpecItem>::empty());
    }
    false
}

} // verus!
