//! The wrap transform: rewrite eligible component declarations so that each
//! is wrapped by a call to the configured wrapper, and ensure exactly one
//! import of that wrapper exists in the module.

use vstd::prelude::*;

use crate::ast::{
    decls_view, items_view, name_view, specifiers_view, view_expr, view_function, Arg, Callee,
    Decl, DefaultDecl, Expr, ImportDecl, ImportSpecifier, Module, ModuleItem, Pat, Stmt, VarDecl,
    VarDeclarator, VarKind,
};
use crate::classify::{component_name, is_component_name};
use crate::config::Config;
use crate::jsx::{
    contains_jsx_in_expr, contains_jsx_in_function, contains_jsx_in_module, jsx_in_expr,
    jsx_in_function, jsx_in_items,
};
use crate::model::{
    SpecArg, SpecCallee, SpecConfig, SpecDecl, SpecDeclarator, SpecDefaultDecl, SpecExpr,
    SpecFunction, SpecImport, SpecImportSpecifier, SpecItem, SpecModule, SpecPat, SpecStmt,
    SpecVarDecl, SpecVarKind,
};

verus! {

broadcast use crate::ast::group_ast_views;

// ---------------------------------------------------------------------------
// Already-wrapped detector
// ---------------------------------------------------------------------------

/// Whether the expression is a call whose callee is a bare identifier equal
/// to the wrapper alias.
pub open spec fn wrapped_call(e: SpecExpr, alias: Seq<char>) -> bool {
    match e {
        SpecExpr::Call { callee: SpecCallee::CalleeExpr(c), .. } => match *c {
            SpecExpr::Ident { name, .. } => name == alias,
            _ => false,
        },
        _ => false,
    }
}

/// Whether any binding of the sequence has an initializer that is already a
/// wrapper call.
pub open spec fn decls_have_wrapped(decls: Seq<SpecDeclarator>, alias: Seq<char>) -> bool
    decreases decls,
{
    if decls.len() == 0 {
        false
    } else {
        (match decls[0].init {
            Some(e) => wrapped_call(e, alias),
            None => false,
        }) || decls_have_wrapped(decls.drop_first(), alias)
    }
}

/// Whether the item holds a wrapper call where the module-level scan looks:
/// top-level expression statements and the initializers of (exported or
/// plain) variable declarations.
pub open spec fn item_has_wrapped_call(it: SpecItem, alias: Seq<char>) -> bool {
    match it {
        SpecItem::Stmt(SpecStmt::ExprStmt { expr, .. }) => wrapped_call(expr, alias),
        SpecItem::Stmt(SpecStmt::Decl(SpecDecl::VarDecl(v))) => decls_have_wrapped(v.decls, alias),
        SpecItem::ExportDecl { decl: SpecDecl::VarDecl(v), .. } => decls_have_wrapped(
            v.decls,
            alias,
        ),
        _ => false,
    }
}

/// Whether any module item holds a wrapper call.
pub open spec fn module_has_wrapped_call(items: Seq<SpecItem>, alias: Seq<char>) -> bool
    decreases items,
{
    if items.len() == 0 {
        false
    } else {
        item_has_wrapped_call(items[0], alias) || module_has_wrapped_call(
            items.drop_first(),
            alias,
        )
    }
}

// ---------------------------------------------------------------------------
// Import manager: alias discovery
// ---------------------------------------------------------------------------

/// The name an import specifier brings in from its source: the explicit
/// imported name if aliased, the local name otherwise.
pub open spec fn imported_name(local: Seq<char>, imported: Option<Seq<char>>) -> Seq<char> {
    match imported {
        Some(n) => n,
        None => local,
    }
}

/// The local name of the first named specifier whose imported name equals
/// the wrapper name.
pub open spec fn alias_in_specifiers(specs: Seq<SpecImportSpecifier>, name: Seq<char>) -> Option<
    Seq<char>,
>
    decreases specs,
{
    if specs.len() == 0 {
        None
    } else {
        match specs[0] {
            SpecImportSpecifier::Named { local, imported, .. } => if imported_name(
                local,
                imported,
            ) == name {
                Some(local)
            } else {
                alias_in_specifiers(specs.drop_first(), name)
            },
            SpecImportSpecifier::Other(_) => alias_in_specifiers(specs.drop_first(), name),
        }
    }
}

/// The wrapper alias resolved from the first matching import specifier in
/// source order, scanning the whole module.
pub open spec fn alias_in_items(items: Seq<SpecItem>, name: Seq<char>) -> Option<Seq<char>>
    decreases items,
{
    if items.len() == 0 {
        None
    } else {
        let first = match items[0] {
            SpecItem::Import(imp) => alias_in_specifiers(imp.specifiers, name),
            _ => None,
        };
        if first is Some {
            first
        } else {
            alias_in_items(items.drop_first(), name)
        }
    }
}

/// The import declaration the pass inserts: one named specifier for the
/// wrapper, imported from the configured source.
pub open spec fn new_import_item(c: SpecConfig, name: Seq<char>) -> SpecItem {
    SpecItem::Import(
        SpecImport {
            specifiers: seq![SpecImportSpecifier::Named { local: name, imported: None, extra: 0 }],
            src: c.import_path,
            extra: 0,
        },
    )
}

// ---------------------------------------------------------------------------
// The per-item rewrite
// ---------------------------------------------------------------------------

/// A call to the wrapper alias with the given expression as sole argument.
pub open spec fn wrap_with(e: SpecExpr, alias: Seq<char>) -> SpecExpr {
    SpecExpr::Call {
        callee: SpecCallee::CalleeExpr(Box::new(SpecExpr::Ident { name: alias, extra: 0 })),
        args: seq![SpecArg { spread: false, expr: e }],
        extra: 0,
    }
}

/// Whether the expression is a function or arrow expression.
pub open spec fn fn_or_arrow(e: SpecExpr) -> bool {
    match e {
        SpecExpr::FnExpr { .. } => true,
        SpecExpr::Arrow { .. } => true,
        _ => false,
    }
}

/// The single-binding constant declaration a wrapped function declaration
/// turns into: `const <name> = <alias>(function <name>(...) {...})`.
pub open spec fn wrap_fn_decl(name: Seq<char>, function: SpecFunction, alias: Seq<char>)
    -> SpecVarDecl {
    SpecVarDecl {
        kind: SpecVarKind::ConstKw,
        decls: seq![
            SpecDeclarator {
                name: SpecPat::Ident { name, extra: 0 },
                init: Some(
                    wrap_with(SpecExpr::FnExpr { name: Some(name), function }, alias),
                ),
                extra: function.extra,
            }
        ],
        extra: function.extra,
    }
}

/// The rewrite of one variable binding: skip bindings that are already
/// wrapped; wrap a JSX-bearing function or arrow initializer of a
/// component-named binding; and inside a call initializer whose first
/// argument is a JSX-bearing function or arrow, wrap that argument in
/// place, whatever the binding's name.
pub open spec fn rewrite_declarator(d: SpecDeclarator, alias: Seq<char>) -> SpecDeclarator {
    match d.init {
        None => d,
        Some(init) => if wrapped_call(init, alias) {
            d
        } else {
            let comp = match d.name {
                SpecPat::Ident { name, .. } => component_name(name),
                _ => false,
            };
            if comp && fn_or_arrow(init) && jsx_in_expr(init) {
                SpecDeclarator { name: d.name, init: Some(wrap_with(init, alias)), extra: d.extra }
            } else {
                match init {
                    SpecExpr::Call { callee, args, extra } => if args.len() > 0 && fn_or_arrow(
                        args[0].expr,
                    ) && jsx_in_expr(args[0].expr) {
                        SpecDeclarator {
                            name: d.name,
                            init: Some(
                                SpecExpr::Call {
                                    callee,
                                    args: args.update(
                                        0,
                                        SpecArg {
                                            spread: args[0].spread,
                                            expr: wrap_with(args[0].expr, alias),
                                        },
                                    ),
                                    extra,
                                },
                            ),
                            extra: d.extra,
                        }
                    } else {
                        d
                    },
                    _ => d,
                }
            }
        },
    }
}

/// The binding-wise image of a declarator list under the rewrite.
pub open spec fn rewrite_decls(decls: Seq<SpecDeclarator>, alias: Seq<char>) -> Seq<
    SpecDeclarator,
>
    decreases decls,
{
    if decls.len() == 0 {
        Seq::empty()
    } else {
        rewrite_decls(decls.drop_last(), alias).push(rewrite_declarator(decls.last(), alias))
    }
}

/// The rewrite of one top-level item.
pub open spec fn rewrite_item(it: SpecItem, alias: Seq<char>) -> SpecItem {
    match it {
        SpecItem::Stmt(SpecStmt::Decl(SpecDecl::FnDecl { name, function })) => if jsx_in_function(
            function,
        ) && component_name(name) {
            SpecItem::Stmt(SpecStmt::Decl(SpecDecl::VarDecl(wrap_fn_decl(name, function, alias))))
        } else {
            it
        },
        SpecItem::Stmt(SpecStmt::Decl(SpecDecl::VarDecl(v))) => SpecItem::Stmt(
            SpecStmt::Decl(
                SpecDecl::VarDecl(
                    SpecVarDecl {
                        kind: v.kind,
                        decls: rewrite_decls(v.decls, alias),
                        extra: v.extra,
                    },
                ),
            ),
        ),
        SpecItem::ExportDecl { decl: SpecDecl::FnDecl { name, function }, extra } =>
            if jsx_in_function(function) && component_name(name) {
            SpecItem::ExportDecl {
                decl: SpecDecl::VarDecl(wrap_fn_decl(name, function, alias)),
                extra,
            }
        } else {
            it
        },
        SpecItem::ExportDecl { decl: SpecDecl::VarDecl(v), extra } => SpecItem::ExportDecl {
            decl: SpecDecl::VarDecl(
                SpecVarDecl { kind: v.kind, decls: rewrite_decls(v.decls, alias), extra: v.extra },
            ),
            extra,
        },
        SpecItem::ExportDefaultDecl { decl: SpecDefaultDecl::Fn { name, function }, extra } =>
            if jsx_in_function(function) {
            SpecItem::ExportDefaultExpr {
                expr: wrap_with(SpecExpr::FnExpr { name, function }, alias),
                extra,
            }
        } else {
            it
        },
        SpecItem::ExportDefaultExpr { expr, extra } => if jsx_in_expr(expr) {
            SpecItem::ExportDefaultExpr { expr: wrap_with(expr, alias), extra }
        } else {
            it
        },
        _ => it,
    }
}

/// The item-wise image of the module body under the rewrite.
pub open spec fn rewrite_items(items: Seq<SpecItem>, alias: Seq<char>) -> Seq<SpecItem>
    decreases items,
{
    if items.len() == 0 {
        Seq::empty()
    } else {
        rewrite_items(items.drop_last(), alias).push(rewrite_item(items.last(), alias))
    }
}

// ---------------------------------------------------------------------------
// The whole pass over one module
// ---------------------------------------------------------------------------

/// The transformed module: resolve the wrapper alias from existing imports,
/// decide whether an import must be inserted, and rewrite every item.
pub open spec fn transform_module(m: SpecModule, c: SpecConfig) -> SpecModule {
    let name = crate::config::wrapper_name(c);
    let alias_opt = alias_in_items(m.body, name);
    let alias = match alias_opt {
        Some(a) => a,
        None => name,
    };
    let insert = alias_opt is None && !module_has_wrapped_call(m.body, name) && jsx_in_items(
        m.body,
    );
    let body0 = if insert {
        seq![new_import_item(c, name)] + m.body
    } else {
        m.body
    };
    SpecModule { body: rewrite_items(body0, alias), extra: m.extra }
}

// ---------------------------------------------------------------------------
// Executable code
// ---------------------------------------------------------------------------

/// Compares two string slices character by character.
fn str_eq(a: &str, b: &str) -> (r: bool)
    ensures
        r == (a@ == b@),
{
    let na = a.unicode_len();
    let nb = b.unicode_len();
    if na != nb {
        return false;
    }
    let mut i: usize = 0;
    while i < na
        invariant
            na == a@.len(),
            na == b@.len(),
            0 <= i <= na,
            forall|j: int| 0 <= j < i ==> a@[j] == b@[j],
        decreases na - i,
    {
        if a.get_char(i) != b.get_char(i) {
            return false;
        }
        i += 1;
    }
    proof {
        assert(a@ =~= b@);
    }
    true
}

/// Is the expression a bare identifier with the given name.
fn is_ident_named(e: &Expr, name: &str) -> (r: bool)
    ensures
        r == (match e@ {
            SpecExpr::Ident { name: n, .. } => n == name@,
            _ => false,
        }),
{
    match e {
        Expr::Ident { name: n, .. } => str_eq(n.as_str(), name),
        _ => false,
    }
}

/// Is the expression already a call to the wrapper alias.
pub fn is_already_wrapped(expr: &Expr, observer_name: &str) -> (r: bool)
    ensures
        r == wrapped_call(expr@, observer_name@),
{
    match expr {
        Expr::Call { callee, .. } => match callee {
            Callee::CalleeExpr(boxed) => {
                let r0 = is_ident_named(boxed, observer_name);
                proof {
                    assert(callee@ == SpecCallee::CalleeExpr(Box::new((**boxed)@)));
                }
                r0
            },
            Callee::CalleeOther(_) => {
                proof {
                    assert(callee@ is CalleeOther);
                }
                false
            },
        },
        _ => false,
    }
}

/// Does any binding of the list hold an initializer that is already wrapped.
fn decls_contain_wrapped(decls: &Vec<VarDeclarator>, observer_name: &str) -> (r: bool)
    ensures
        r == decls_have_wrapped(decls_view(decls@), observer_name@),
{
    let ghost s: Seq<SpecDeclarator> = decls_view(decls@);
    proof {
        assert(s.skip(0) =~= s);
    }
    let n = decls.len();
    let mut i: usize = 0;
    while i < n
        invariant
            n == decls@.len(),
            s == decls_view(decls@),
            s.len() == n,
            0 <= i <= n,
            decls_have_wrapped(s, observer_name@) == decls_have_wrapped(
                s.skip(i as int),
                observer_name@,
            ),
        decreases n - i,
    {
        let found = match &decls[i].init {
            Some(e) => is_already_wrapped(e, observer_name),
            None => false,
        };
        proof {
            assert(s[i as int] == decls@[i as int]@);
            assert(s.skip(i as int)[0] == s[i as int]);
            assert(s.skip(i as int).drop_first() =~= s.skip(i as int + 1));
        }
        if found {
            return true;
        }
        i += 1;
    }
    proof {
        assert(s.skip(n as int) =~= Seq::<SpecDeclarator>::empty());
    }
    false
}

/// Does the module already hold a wrapper call, in a top-level expression
/// statement or in a variable declaration's initializer.
pub fn module_contains_wrapped_function(m: &Module, observer_name: &str) -> (r: bool)
    ensures
        r == module_has_wrapped_call(m@.body, observer_name@),
{
    let ghost s: Seq<SpecItem> = items_view(m.body@);
    proof {
        assert(s.skip(0) =~= s);
    }
    let n = m.body.len();
    let mut i: usize = 0;
    while i < n
        invariant
            n == m.body@.len(),
            s == items_view(m.body@),
            s.len() == n,
            0 <= i <= n,
            module_has_wrapped_call(s, observer_name@) == module_has_wrapped_call(
                s.skip(i as int),
                observer_name@,
            ),
        decreases n - i,
    {
        let found = match &m.body[i] {
            ModuleItem::Stmt(Stmt::ExprStmt { expr, .. }) => is_already_wrapped(
                expr,
                observer_name,
            ),
            ModuleItem::Stmt(Stmt::Decl(Decl::VarDecl(v))) => decls_contain_wrapped(
                &v.decls,
                observer_name,
            ),
            ModuleItem::ExportDecl { decl: Decl::VarDecl(v), .. } => decls_contain_wrapped(
                &v.decls,
                observer_name,
            ),
            _ => false,
        };
        proof {
            assert(s[i as int] == m.body@[i as int]@);
            assert(found == item_has_wrapped_call(s[i as int], observer_name@));
            assert(s.skip(i as int)[0] == s[i as int]);
            assert(s.skip(i as int).drop_first() =~= s.skip(i as int + 1));
        }
        if found {
            return true;
        }
        i += 1;
    }
    proof {
        assert(s.skip(n as int) =~= Seq::<SpecItem>::empty());
    }
    false
}

/// The local name of the first specifier of this import that imports the
/// wrapper name.
fn find_alias_in_specifiers(specifiers: &Vec<ImportSpecifier>, name: &str) -> (r: Option<String>)
    ensures
        name_view(r) == alias_in_specifiers(specifiers_view(specifiers@), name@),
{
    let ghost s: Seq<SpecImportSpecifier> = specifiers_view(specifiers@);
    proof {
        assert(s.skip(0) =~= s);
    }
    let n = specifiers.len();
    let mut i: usize = 0;
    while i < n
        invariant
            n == specifiers@.len(),
            s == specifiers_view(specifiers@),
            s.len() == n,
            0 <= i <= n,
            alias_in_specifiers(s, name@) == alias_in_specifiers(s.skip(i as int), name@),
        decreases n - i,
    {
        proof {
            assert(s[i as int] == specifiers@[i as int]@);
            assert(s.skip(i as int)[0] == s[i as int]);
            assert(s.skip(i as int).drop_first() =~= s.skip(i as int + 1));
        }
        match &specifiers[i] {
            ImportSpecifier::Named { local, imported, .. } => {
                let imp: &String = match imported {
                    Some(n0) => n0,
                    None => local,
                };
                if str_eq(imp.as_str(), name) {
                    return Some(local.clone());
                }
            },
            ImportSpecifier::Other(_) => {},
        }
        i += 1;
    }
    proof {
        assert(s.skip(n as int) =~= Seq::<SpecImportSpecifier>::empty());
    }
    None
}

/// The wrapper alias resolved from the first matching named import
/// specifier in source order, if any import of the wrapper exists.
pub fn find_wrapper_alias(m: &Module, name: &str) -> (r: Option<String>)
    ensures
        name_view(r) == alias_in_items(m@.body, name@),
{
    let ghost s: Seq<SpecItem> = items_view(m.body@);
    proof {
        assert(s.skip(0) =~= s);
    }
    let n = m.body.len();
    let mut i: usize = 0;
    while i < n
        invariant
            n == m.body@.len(),
            s == items_view(m.body@),
            s.len() == n,
            0 <= i <= n,
            alias_in_items(s, name@) == alias_in_items(s.skip(i as int), name@),
        decreases n - i,
    {
        proof {
            assert(s[i as int] == m.body@[i as int]@);
            assert(s.skip(i as int)[0] == s[i as int]);
            assert(s.skip(i as int).drop_first() =~= s.skip(i as int + 1));
        }
        if let ModuleItem::Import(imp) = &m.body[i] {
            let found = find_alias_in_specifiers(&imp.specifiers, name);
            if found.is_some() {
                return found;
            }
        }
        i += 1;
    }
    proof {
        assert(s.skip(n as int) =~= Seq::<SpecItem>::empty());
    }
    None
}

/// A call to the wrapper alias with the given expression as sole argument.
fn build_wrap_call(e: Expr, alias: &str) -> (r: Expr)
    ensures
        r@ == wrap_with(e@, alias@),
{
    let ghost ev: SpecExpr = e@;
    let mut args: Vec<Arg> = Vec::new();
    args.push(Arg { spread: false, expr: e });
    proof {
        assert(crate::ast::args_view(args@) =~= seq![SpecArg { spread: false, expr: ev }]);
    }
    let ident = Expr::Ident { name: String::from_str(alias), extra: 0 };
    proof {
        assert(ident@ == SpecExpr::Ident { name: alias@, extra: 0 });
    }
    let callee = Callee::CalleeExpr(Box::new(ident));
    proof {
        assert(callee@ == SpecCallee::CalleeExpr(
            Box::new(SpecExpr::Ident { name: alias@, extra: 0 }),
        ));
    }
    let r = Expr::Call { callee, args, extra: 0 };
    proof {
        assert(r@ =~~= wrap_with(ev, alias@));
    }
    r
}

/// The rewrite of one variable binding.
fn rewrite_declarator_exec(d: VarDeclarator, alias: &str) -> (r: VarDeclarator)
    ensures
        r@ == rewrite_declarator(d@, alias@),
{
    let ghost dv: SpecDeclarator = d@;
    let VarDeclarator { name, init, extra } = d;
    let ghost namev: SpecPat = crate::ast::view_pat(name);
    match init {
        None => VarDeclarator { name, init: None, extra },
        Some(init_e) => {
            let ghost initv: SpecExpr = init_e@;
            proof {
                assert(dv == SpecDeclarator { name: namev, init: Some(initv), extra });
            }
            if is_already_wrapped(&init_e, alias) {
                return VarDeclarator { name, init: Some(init_e), extra };
            }
            let comp = match &name {
                Pat::Ident { name: id, .. } => is_component_name(id.as_str()),
                _ => false,
            };
            let is_shape = match &init_e {
                Expr::FnExpr { .. } => {
                    proof {
                        assert(fn_or_arrow(initv));
                    }
                    true
                },
                Expr::Arrow { .. } => {
                    proof {
                        assert(fn_or_arrow(initv));
                    }
                    true
                },
                _ => {
                    proof {
                        assert(!fn_or_arrow(initv));
                    }
                    false
                },
            };
            if comp && is_shape && contains_jsx_in_expr(&init_e) {
                let wrapped = build_wrap_call(init_e, alias);
                let r = VarDeclarator { name, init: Some(wrapped), extra };
                proof {
                    assert(r@ =~~= rewrite_declarator(dv, alias@));
                }
                return r;
            }
            match init_e {
                Expr::Call { callee, mut args, extra: call_extra } => {
                    let ghost argsv = crate::ast::args_view(args@);
                    let ghost calleev = callee@;
                    proof {
                        assert(initv == SpecExpr::Call {
                            callee: calleev,
                            args: argsv,
                            extra: call_extra,
                        });
                    }
                    let fire = if args.len() > 0 {
                        let shape0 = match &args[0].expr {
                            Expr::FnExpr { .. } => {
                                proof {
                                    assert(fn_or_arrow(args@[0]@.expr));
                                }
                                true
                            },
                            Expr::Arrow { .. } => {
                                proof {
                                    assert(fn_or_arrow(args@[0]@.expr));
                                }
                                true
                            },
                            _ => {
                                proof {
                                    assert(!fn_or_arrow(args@[0]@.expr));
                                }
                                false
                            },
                        };
                        if shape0 {
                            contains_jsx_in_expr(&args[0].expr)
                        } else {
                            false
                        }
                    } else {
                        false
                    };
                    proof {
                        if args@.len() > 0 {
                            assert(argsv[0] == args@[0]@);
                        }
                    }
                    if fire {
                        let ghost args0 = args@;
                        let first = args.remove(0);
                        let ghost firstv: SpecArg = first@;
                        let spread = first.spread;
                        let wrapped_arg = build_wrap_call(first.expr, alias);
                        let new_first = Arg { spread, expr: wrapped_arg };
                        args.insert(0, new_first);
                        proof {
                            assert forall|j: int| 0 <= j < args@.len() implies crate::ast::args_view(
                                args@,
                            )[j] == argsv.update(
                                0,
                                SpecArg { spread: firstv.spread, expr: wrap_with(firstv.expr, alias@) },
                            )[j] by {
                                if j == 0 {
                                    assert(crate::ast::args_view(args@)[0] == args@[0]@);
                                } else {
                                    assert(args@[j] == args0[j]);
                                    assert(crate::ast::args_view(args@)[j] == args@[j]@);
                                    assert(argsv[j] == args0[j]@);
                                }
                            }
                            assert(crate::ast::args_view(args@) =~= argsv.update(
                                0,
                                SpecArg { spread: firstv.spread, expr: wrap_with(firstv.expr, alias@) },
                            ));
                        }
                        let r = VarDeclarator {
                            name,
                            init: Some(Expr::Call { callee, args, extra: call_extra }),
                            extra,
                        };
                        proof {
                            assert(r@ =~~= rewrite_declarator(dv, alias@));
                        }
                        r
                    } else {
                        let r = VarDeclarator {
                            name,
                            init: Some(Expr::Call { callee, args, extra: call_extra }),
                            extra,
                        };
                        proof {
                            assert(r@ =~~= dv);
                            assert(rewrite_declarator(dv, alias@) == dv);
                        }
                        r
                    }
                },
                other => VarDeclarator { name, init: Some(other), extra },
            }
        },
    }
}

/// The rewrite of a whole declarator list.
fn rewrite_decls_exec(decls: Vec<VarDeclarator>, alias: &str) -> (r: Vec<VarDeclarator>)
    ensures
        decls_view(r@) == rewrite_decls(decls_view(decls@), alias@),
{
    let ghost s: Seq<SpecDeclarator> = decls_view(decls@);
    let mut input = decls;
    let mut out: Vec<VarDeclarator> = Vec::new();
    let ghost k: int = 0;
    proof {
        assert(s.take(0) =~= Seq::<SpecDeclarator>::empty());
        assert(decls_view(out@) =~= Seq::<SpecDeclarator>::empty());
        assert(decls_view(input@) =~= s.skip(0));
    }
    while input.len() > 0
        invariant
            0 <= k <= s.len(),
            k == out@.len(),
            input@.len() == s.len() - k,
            decls_view(input@) == s.skip(k),
            decls_view(out@) == rewrite_decls(s.take(k), alias@),
        decreases input.len(),
    {
        let ghost input0 = input@;
        let d = input.remove(0);
        proof {
            assert(decls_view(input0)[0] == d@);
            assert(d@ == s.skip(k)[0]);
            assert(d@ == s[k]);
            assert forall|j: int| 0 <= j < input@.len() implies decls_view(input@)[j] == s.skip(
                k + 1,
            )[j] by {
                assert(decls_view(input@)[j] == input@[j]@);
                assert(decls_view(input0)[j + 1] == input0[j + 1]@);
            }
            assert(decls_view(input@) =~= s.skip(k + 1));
        }
        let nd = rewrite_declarator_exec(d, alias);
        let ghost out0 = out@;
        out.push(nd);
        proof {
            assert(s.take(k + 1).drop_last() =~= s.take(k));
            assert(s.take(k + 1).last() == s[k]);
            assert forall|j: int| 0 <= j < out@.len() implies decls_view(out@)[j] == rewrite_decls(
                s.take(k),
                alias@,
            ).push(nd@)[j] by {
                assert(decls_view(out@)[j] == out@[j]@);
                if j < k {
                    assert(out@[j] == out0[j]);
                    assert(decls_view(out0)[j] == out0[j]@);
                }
            }
            assert(decls_view(out@) =~= rewrite_decls(s.take(k), alias@).push(nd@));
            assert(rewrite_decls(s.take(k + 1), alias@) == rewrite_decls(s.take(k), alias@).push(
                rewrite_declarator(s[k], alias@),
            ));
        }
        proof {
            k = k + 1;
        }
    }
    proof {
        assert(s.take(k) =~= s);
    }
    out
}

/// The rewrite of one top-level item.
fn rewrite_module_item(it: ModuleItem, alias: &str) -> (r: ModuleItem)
    ensures
        r@ == rewrite_item(it@, alias@),
{
    let ghost itv: SpecItem = it@;
    match it {
        ModuleItem::Stmt(Stmt::Decl(Decl::FnDecl { name, function })) => {
            if contains_jsx_in_function(&function) && is_component_name(name.as_str()) {
                let ghost namev: Seq<char> = name@;
                let ghost fv: SpecFunction = view_function(function);
                let f_extra = function.extra;
                let fn_expr = Expr::FnExpr { name: Some(name.clone()), function };
                proof {
                    assert(fn_expr@ == SpecExpr::FnExpr { name: Some(namev), function: fv });
                }
                let wrapped = build_wrap_call(fn_expr, alias);
                let declarator = VarDeclarator {
                    name: Pat::Ident { name, extra: 0 },
                    init: Some(wrapped),
                    extra: f_extra,
                };
                proof {
                    assert(declarator@ == wrap_fn_decl(namev, fv, alias@).decls[0]);
                }
                let mut ds: Vec<VarDeclarator> = Vec::new();
                ds.push(declarator);
                let vd = VarDecl { kind: VarKind::ConstKw, decls: ds, extra: f_extra };
                proof {
                    assert(decls_view(ds@) =~= wrap_fn_decl(namev, fv, alias@).decls);
                    assert(vd@ =~~= wrap_fn_decl(namev, fv, alias@));
                }
                let r = ModuleItem::Stmt(Stmt::Decl(Decl::VarDecl(vd)));
                proof {
                    assert(r@ =~~= rewrite_item(itv, alias@));
                }
                r
            } else {
                ModuleItem::Stmt(Stmt::Decl(Decl::FnDecl { name, function }))
            }
        },
        ModuleItem::Stmt(Stmt::Decl(Decl::VarDecl(v))) => {
            let VarDecl { kind, decls, extra } = v;
            let new_decls = rewrite_decls_exec(decls, alias);
            let r = ModuleItem::Stmt(
                Stmt::Decl(Decl::VarDecl(VarDecl { kind, decls: new_decls, extra })),
            );
            proof {
                assert(r@ =~~= rewrite_item(itv, alias@));
            }
            r
        },
        ModuleItem::ExportDecl { decl: Decl::FnDecl { name, function }, extra } => {
            if contains_jsx_in_function(&function) && is_component_name(name.as_str()) {
                let ghost namev: Seq<char> = name@;
                let ghost fv: SpecFunction = view_function(function);
                let f_extra = function.extra;
                let fn_expr = Expr::FnExpr { name: Some(name.clone()), function };
                proof {
                    assert(fn_expr@ == SpecExpr::FnExpr { name: Some(namev), function: fv });
                }
                let wrapped = build_wrap_call(fn_expr, alias);
                let declarator = VarDeclarator {
                    name: Pat::Ident { name, extra: 0 },
                    init: Some(wrapped),
                    extra: f_extra,
                };
                proof {
                    assert(declarator@ == wrap_fn_decl(namev, fv, alias@).decls[0]);
                }
                let mut ds: Vec<VarDeclarator> = Vec::new();
                ds.push(declarator);
                let vd = VarDecl { kind: VarKind::ConstKw, decls: ds, extra: f_extra };
                proof {
                    assert(decls_view(ds@) =~= wrap_fn_decl(namev, fv, alias@).decls);
                    assert(vd@ =~~= wrap_fn_decl(namev, fv, alias@));
                }
                let r = ModuleItem::ExportDecl { decl: Decl::VarDecl(vd), extra };
                proof {
                    assert(r@ =~~= rewrite_item(itv, alias@));
                }
                r
            } else {
                ModuleItem::ExportDecl { decl: Decl::FnDecl { name, function }, extra }
            }
        },
        ModuleItem::ExportDecl { decl: Decl::VarDecl(v), extra } => {
            let VarDecl { kind, decls, extra: v_extra } = v;
            let new_decls = rewrite_decls_exec(decls, alias);
            let r = ModuleItem::ExportDecl {
                decl: Decl::VarDecl(VarDecl { kind, decls: new_decls, extra: v_extra }),
                extra,
            };
            proof {
                assert(r@ =~~= rewrite_item(itv, alias@));
            }
            r
        },
        ModuleItem::ExportDefaultDecl { decl, extra } => match decl {
            DefaultDecl::Fn { name, function } => {
                if contains_jsx_in_function(&function) {
                    let ghost nv: Option<Seq<char>> = name_view(name);
                    let ghost fv: SpecFunction = view_function(function);
                    let fn_expr = Expr::FnExpr { name, function };
                    proof {
                        assert(fn_expr@ == SpecExpr::FnExpr { name: nv, function: fv });
                    }
                    let wrapped = build_wrap_call(fn_expr, alias);
                    let r = ModuleItem::ExportDefaultExpr { expr: wrapped, extra };
                    proof {
                        assert(r@ =~~= rewrite_item(itv, alias@));
                    }
                    r
                } else {
                    ModuleItem::ExportDefaultDecl {
                        decl: DefaultDecl::Fn { name, function },
                        extra,
                    }
                }
            },
            DefaultDecl::Other(x) => ModuleItem::ExportDefaultDecl {
                decl: DefaultDecl::Other(x),
                extra,
            },
        },
        ModuleItem::ExportDefaultExpr { expr, extra } => {
            if contains_jsx_in_expr(&expr) {
                let wrapped = build_wrap_call(expr, alias);
                let r = ModuleItem::ExportDefaultExpr { expr: wrapped, extra };
                proof {
                    assert(r@ =~~= rewrite_item(itv, alias@));
                }
                r
            } else {
                ModuleItem::ExportDefaultExpr { expr, extra }
            }
        },
        other => other,
    }
}

/// The whole pass over one module: resolve the wrapper alias, insert the
/// wrapper import when one is owed, and rewrite every top-level item.
pub fn observer_transform(config: &Config, module: Module) -> (r: Module)
    ensures
        r@ == transform_module(module@, config@),
{
    let ghost mv: SpecModule = module@;
    let ghost cv: SpecConfig = config@;
    let ghost namev: Seq<char> = crate::config::wrapper_name(cv);
    let observer_name = config.get_import_name();
    let alias_opt = find_wrapper_alias(&module, observer_name.as_str());
    let has_wrapped = module_contains_wrapped_function(&module, observer_name.as_str());
    let has_jsx = contains_jsx_in_module(&module);
    let Module { mut body, extra } = module;
    let (alias, insert): (String, bool) = match alias_opt {
        Some(a) => (a, false),
        None => (observer_name.clone(), !has_wrapped && has_jsx),
    };
    let ghost aliasv: Seq<char> = alias@;
    let ghost body0v: Seq<SpecItem> = if insert {
        seq![new_import_item(cv, namev)] + mv.body
    } else {
        mv.body
    };
    if insert {
        let mut specifiers: Vec<ImportSpecifier> = Vec::new();
        specifiers.push(ImportSpecifier::Named { local: observer_name, imported: None, extra: 0 });
        let import_decl = ImportDecl { specifiers, src: config.import_path.clone(), extra: 0 };
        body.insert(0, ModuleItem::Import(import_decl));
        proof {
            assert(body@[0]@ =~~= new_import_item(cv, namev));
            assert(items_view(body@) =~= body0v);
        }
    } else {
        proof {
            assert(items_view(body@) =~= body0v);
        }
    }
    let ghost s: Seq<SpecItem> = body0v;
    let mut input = body;
    let mut out: Vec<ModuleItem> = Vec::new();
    let ghost k: int = 0;
    proof {
        assert(s.take(0) =~= Seq::<SpecItem>::empty());
        assert(items_view(out@) =~= Seq::<SpecItem>::empty());
        assert(items_view(input@) =~= s.skip(0));
    }
    while input.len() > 0
        invariant
            0 <= k <= s.len(),
            k == out@.len(),
            input@.len() == s.len() - k,
            items_view(input@) == s.skip(k),
            items_view(out@) == rewrite_items(s.take(k), aliasv),
            alias@ == aliasv,
        decreases input.len(),
    {
        let ghost input0 = input@;
        let it = input.remove(0);
        proof {
            assert(items_view(input0)[0] == it@);
            assert(it@ == s.skip(k)[0]);
            assert(it@ == s[k]);
            assert forall|j: int| 0 <= j < input@.len() implies items_view(input@)[j] == s.skip(
                k + 1,
            )[j] by {
                assert(items_view(input@)[j] == input@[j]@);
                assert(items_view(input0)[j + 1] == input0[j + 1]@);
            }
            assert(items_view(input@) =~= s.skip(k + 1));
        }
        let nit = rewrite_module_item(it, alias.as_str());
        let ghost out0 = out@;
        out.push(nit);
        proof {
            assert(s.take(k + 1).drop_last() =~= s.take(k));
            assert(s.take(k + 1).last() == s[k]);
            assert forall|j: int| 0 <= j < out@.len() implies items_view(out@)[j] == rewrite_items(
                s.take(k),
                aliasv,
            ).push(nit@)[j] by {
                assert(items_view(out@)[j] == out@[j]@);
                if j < k {
                    assert(out@[j] == out0[j]);
                    assert(items_view(out0)[j] == out0[j]@);
                }
            }
            assert(items_view(out@) =~= rewrite_items(s.take(k), aliasv).push(nit@));
            assert(rewrite_items(s.take(k + 1), aliasv) == rewrite_items(s.take(k), aliasv).push(
                rewrite_item(s[k], aliasv),
            ));
        }
        proof {
            k = k + 1;
        }
    }
    let result = Module { body: out, extra };
    proof {
        assert(s.take(k) =~= s);
        assert(result@ =~~= transform_module(mv, cv));
    }
    result
}

} // verus!
