//! Module-level laws of the wrap transform, stated over the model and
//! proved once and for all: the rewrite leaves JSX-free modules untouched,
//! inserts exactly one wrapper import where one is owed, wraps call
//! arguments whatever the binding's name, gates function declarations on
//! their name, and is idempotent.

use vstd::prelude::*;

use crate::classify::component_name;
use crate::config::wrapper_name;
use crate::jsx::{
    jsx_in_args, jsx_in_decls, jsx_in_declarator, jsx_in_expr, jsx_in_function, jsx_in_item,
    jsx_in_items,
};
use crate::model::{
    SpecArg, SpecCallee, SpecConfig, SpecDecl, SpecDeclarator, SpecDefaultDecl, SpecExpr,
    SpecFunction, SpecImportSpecifier, SpecItem, SpecModule, SpecPat, SpecStmt,
};
use crate::transform::{
    alias_in_items, alias_in_specifiers, decls_have_wrapped, fn_or_arrow, imported_name,
    item_has_wrapped_call, module_has_wrapped_call, new_import_item, rewrite_decls,
    rewrite_declarator, rewrite_item, rewrite_items, transform_module, wrap_fn_decl, wrap_with,
    wrapped_call,
};

verus! {

// ---------------------------------------------------------------------------
// Pointwise descriptions of the item and binding maps
// ---------------------------------------------------------------------------

pub proof fn lemma_rewrite_decls_props(decls: Seq<SpecDeclarator>, alias: Seq<char>)
    ensures
        rewrite_decls(decls, alias).len() == decls.len(),
        forall|i: int| 0 <= i < decls.len() ==> rewrite_decls(decls, alias)[i]
            == rewrite_declarator(#[trigger] decls[i], alias),
    decreases decls.len(),
{
    if decls.len() > 0 {
        lemma_rewrite_decls_props(decls.drop_last(), alias);
        assert forall|i: int| 0 <= i < decls.len() implies rewrite_decls(decls, alias)[i]
            == rewrite_declarator(#[trigger] decls[i], alias) by {
            if i < decls.len() - 1 {
                assert(decls.drop_last()[i] == decls[i]);
            }
        }
    }
}

pub proof fn lemma_rewrite_items_props(items: Seq<SpecItem>, alias: Seq<char>)
    ensures
        rewrite_items(items, alias).len() == items.len(),
        forall|i: int| 0 <= i < items.len() ==> rewrite_items(items, alias)[i] == rewrite_item(
            #[trigger] items[i],
            alias,
        ),
    decreases items.len(),
{
    if items.len() > 0 {
        lemma_rewrite_items_props(items.drop_last(), alias);
        assert forall|i: int| 0 <= i < items.len() implies rewrite_items(items, alias)[i]
            == rewrite_item(#[trigger] items[i], alias) by {
            if i < items.len() - 1 {
                assert(items.drop_last()[i] == items[i]);
            }
        }
    }
}

// ---------------------------------------------------------------------------
// Naming gate
// ---------------------------------------------------------------------------

/// A non-exported function declaration is wrapped exactly when its name is
/// a component name and its body contains JSX: a lowercase name is left as
/// a function declaration, a component name with JSX becomes a
/// single-binding constant holding a wrapper call.
pub proof fn lemma_naming_gate(name: Seq<char>, function: SpecFunction, alias: Seq<char>)
    ensures
        !component_name(name) ==> rewrite_item(
            SpecItem::Stmt(SpecStmt::Decl(SpecDecl::FnDecl { name, function })),
            alias,
        ) == SpecItem::Stmt(SpecStmt::Decl(SpecDecl::FnDecl { name, function })),
        component_name(name) && jsx_in_function(function) ==> rewrite_item(
            SpecItem::Stmt(SpecStmt::Decl(SpecDecl::FnDecl { name, function })),
            alias,
        ) == SpecItem::Stmt(SpecStmt::Decl(SpecDecl::VarDecl(wrap_fn_decl(name, function, alias)))),
{
}

// ---------------------------------------------------------------------------
// Call-argument wrapping
// ---------------------------------------------------------------------------

/// A binding whose initializer is a call whose first argument is a
/// JSX-bearing function or arrow has that argument wrapped in place,
/// whatever the binding's name — the rule is not gated on the component
/// naming convention.
pub proof fn lemma_call_argument_wrapping(
    d: SpecDeclarator,
    callee: SpecCallee,
    args: Seq<SpecArg>,
    extra: u64,
    alias: Seq<char>,
)
    requires
        d.init == Some(SpecExpr::Call { callee, args, extra }),
        !wrapped_call(SpecExpr::Call { callee, args, extra }, alias),
        args.len() > 0,
        fn_or_arrow(args[0].expr),
        jsx_in_expr(args[0].expr),
    ensures
        rewrite_declarator(d, alias) == (SpecDeclarator {
            name: d.name,
            init: Some(
                SpecExpr::Call {
                    callee,
                    args: args.update(
                        0,
                        SpecArg { spread: args[0].spread, expr: wrap_with(args[0].expr, alias) },
                    ),
                    extra,
                },
            ),
            extra: d.extra,
        }),
{
    assert(!fn_or_arrow(SpecExpr::Call { callee, args, extra }));
}

// ---------------------------------------------------------------------------
// No-JSX invariance
// ---------------------------------------------------------------------------

pub proof fn lemma_rewrite_declarator_no_jsx(d: SpecDeclarator, alias: Seq<char>)
    requires
        !jsx_in_declarator(d),
    ensures
        rewrite_declarator(d, alias) == d,
{
    match d.init {
        Some(init) => {
            match init {
                SpecExpr::Call { callee, args, extra } => {
                    if args.len() > 0 {
                        assert(!jsx_in_args(args));
                        assert(args.drop_first().len() < args.len());
                        assert(!jsx_in_expr(args[0].expr));
                    }
                },
                _ => {},
            }
        },
        None => {},
    }
}

pub proof fn lemma_jsx_in_decls_index(decls: Seq<SpecDeclarator>, i: int)
    requires
        !jsx_in_decls(decls),
        0 <= i < decls.len(),
    ensures
        !jsx_in_declarator(decls[i]),
    decreases i,
{
    if i > 0 {
        lemma_jsx_in_decls_index(decls.drop_first(), i - 1);
    }
}

pub proof fn lemma_rewrite_decls_no_jsx(decls: Seq<SpecDeclarator>, alias: Seq<char>)
    requires
        !jsx_in_decls(decls),
    ensures
        rewrite_decls(decls, alias) == decls,
{
    lemma_rewrite_decls_props(decls, alias);
    assert forall|i: int| 0 <= i < decls.len() implies rewrite_decls(decls, alias)[i]
        == decls[i] by {
        lemma_jsx_in_decls_index(decls, i);
        lemma_rewrite_declarator_no_jsx(decls[i], alias);
    }
    assert(rewrite_decls(decls, alias) =~= decls);
}

pub proof fn lemma_rewrite_item_no_jsx(it: SpecItem, alias: Seq<char>)
    requires
        !jsx_in_item(it),
    ensures
        rewrite_item(it, alias) == it,
{
    match it {
        SpecItem::Stmt(SpecStmt::Decl(SpecDecl::VarDecl(v))) => {
            lemma_rewrite_decls_no_jsx(v.decls, alias);
            assert(rewrite_item(it, alias) =~~= it);
        },
        SpecItem::ExportDecl { decl: SpecDecl::VarDecl(v), extra } => {
            lemma_rewrite_decls_no_jsx(v.decls, alias);
            assert(rewrite_item(it, alias) =~~= it);
        },
        _ => {},
    }
}

pub proof fn lemma_jsx_in_items_index(items: Seq<SpecItem>, i: int)
    requires
        !jsx_in_items(items),
        0 <= i < items.len(),
    ensures
        !jsx_in_item(items[i]),
    decreases i,
{
    if i > 0 {
        lemma_jsx_in_items_index(items.drop_first(), i - 1);
    }
}

/// For a module in which the detector finds no JSX, the transform is the
/// identity: no import is inserted and no item is rewritten.
pub proof fn lemma_no_jsx_invariance(m: SpecModule, c: SpecConfig)
    requires
        !jsx_in_items(m.body),
    ensures
        transform_module(m, c) == m,
{
    let name = wrapper_name(c);
    let alias_opt = alias_in_items(m.body, name);
    let alias = match alias_opt {
        Some(a) => a,
        None => name,
    };
    lemma_rewrite_items_props(m.body, alias);
    assert forall|i: int| 0 <= i < m.body.len() implies rewrite_items(m.body, alias)[i]
        == m.body[i] by {
        lemma_jsx_in_items_index(m.body, i);
        lemma_rewrite_item_no_jsx(m.body[i], alias);
    }
    assert(rewrite_items(m.body, alias) =~= m.body);
    assert(transform_module(m, c) =~~= m);
}

// ---------------------------------------------------------------------------
// Import cardinality
// ---------------------------------------------------------------------------

/// Whether a specifier is a named import of the wrapper.
pub open spec fn specifier_imports(s: SpecImportSpecifier, name: Seq<char>) -> bool {
    match s {
        SpecImportSpecifier::Named { local, imported, .. } => imported_name(local, imported)
            == name,
        SpecImportSpecifier::Other(_) => false,
    }
}

/// How many specifiers of the sequence import the wrapper.
pub open spec fn count_specs(specs: Seq<SpecImportSpecifier>, name: Seq<char>) -> nat
    decreases specs.len(),
{
    if specs.len() == 0 {
        0
    } else {
        (if specifier_imports(specs[0], name) {
            1nat
        } else {
            0nat
        }) + count_specs(specs.drop_first(), name)
    }
}

/// How many wrapper-import specifiers the module holds in all.
pub open spec fn count_wrapper_imports(items: Seq<SpecItem>, name: Seq<char>) -> nat
    decreases items.len(),
{
    if items.len() == 0 {
        0
    } else {
        (match items[0] {
            SpecItem::Import(imp) => count_specs(imp.specifiers, name),
            _ => 0,
        }) + count_wrapper_imports(items.drop_first(), name)
    }
}

pub proof fn lemma_count_specs_zero(specs: Seq<SpecImportSpecifier>, name: Seq<char>)
    requires
        count_specs(specs, name) == 0,
    ensures
        alias_in_specifiers(specs, name) is None,
    decreases specs.len(),
{
    if specs.len() > 0 {
        lemma_count_specs_zero(specs.drop_first(), name);
    }
}

pub proof fn lemma_count_zero_no_alias(items: Seq<SpecItem>, name: Seq<char>)
    requires
        count_wrapper_imports(items, name) == 0,
    ensures
        alias_in_items(items, name) is None,
    decreases items.len(),
{
    if items.len() > 0 {
        match items[0] {
            SpecItem::Import(imp) => {
                lemma_count_specs_zero(imp.specifiers, name);
            },
            _ => {},
        }
        lemma_count_zero_no_alias(items.drop_first(), name);
    }
}

/// The rewrite leaves import items exactly as they are and never turns
/// another item into an import.
pub proof fn lemma_rewrite_item_imports(it: SpecItem, alias: Seq<char>)
    ensures
        it is Import ==> rewrite_item(it, alias) == it,
        !(it is Import) ==> !(rewrite_item(it, alias) is Import),
{
}

pub proof fn lemma_rewrite_preserves_count(items: Seq<SpecItem>, alias: Seq<char>, name: Seq<char>)
    ensures
        count_wrapper_imports(rewrite_items(items, alias), name) == count_wrapper_imports(
            items,
            name,
        ),
    decreases items.len(),
{
    lemma_rewrite_items_props(items, alias);
    if items.len() > 0 {
        let rw = rewrite_items(items, alias);
        lemma_rewrite_preserves_count(items.drop_first(), alias, name);
        lemma_rewrite_items_props(items.drop_first(), alias);
        assert forall|i: int| 0 <= i < items.drop_first().len() implies rw.drop_first()[i]
            == rewrite_items(items.drop_first(), alias)[i] by {
            assert(items.drop_first()[i] == items[i + 1]);
        }
        assert(rw.drop_first() =~= rewrite_items(items.drop_first(), alias));
        lemma_rewrite_item_imports(items[0], alias);
    }
}

/// For a module that contains JSX, holds no wrapper import, and holds no
/// wrapper call, the output holds exactly one wrapper-import specifier, in
/// the import declaration inserted at position zero.
pub proof fn lemma_import_cardinality(m: SpecModule, c: SpecConfig)
    requires
        jsx_in_items(m.body),
        count_wrapper_imports(m.body, wrapper_name(c)) == 0,
        !module_has_wrapped_call(m.body, wrapper_name(c)),
    ensures
        transform_module(m, c).body.len() == m.body.len() + 1,
        transform_module(m, c).body[0] == new_import_item(c, wrapper_name(c)),
        count_wrapper_imports(transform_module(m, c).body, wrapper_name(c)) == 1,
{
    let name = wrapper_name(c);
    lemma_count_zero_no_alias(m.body, name);
    let body0 = seq![new_import_item(c, name)] + m.body;
    lemma_rewrite_items_props(body0, name);
    assert(body0[0] == new_import_item(c, name));
    lemma_rewrite_item_imports(body0[0], name);
    assert(transform_module(m, c).body[0] == new_import_item(c, name));
    lemma_rewrite_preserves_count(body0, name, name);
    // The inserted import holds exactly one specifier for the wrapper.
    let spec0 = SpecImportSpecifier::Named { local: name, imported: None, extra: 0 };
    assert(specifier_imports(spec0, name));
    assert(count_specs(seq![spec0].drop_first(), name) == 0);
    assert(count_specs(seq![spec0], name) == 1);
    assert(body0.drop_first() =~= m.body);
    assert(count_wrapper_imports(body0, name) == 1);
}

// ---------------------------------------------------------------------------
// Idempotence
// ---------------------------------------------------------------------------

/// The default exports on which a second pass would wrap again: a
/// JSX-bearing default-exported expression or function declaration.
pub open spec fn jsx_default_export(it: SpecItem) -> bool {
    match it {
        SpecItem::ExportDefaultExpr { expr, .. } => jsx_in_expr(expr),
        SpecItem::ExportDefaultDecl { decl: SpecDefaultDecl::Fn { function, .. }, .. } =>
            jsx_in_function(function),
        _ => false,
    }
}

pub proof fn lemma_rewrite_declarator_idempotent(d: SpecDeclarator, alias: Seq<char>)
    ensures
        rewrite_declarator(rewrite_declarator(d, alias), alias) == rewrite_declarator(d, alias),
{
    let d1 = rewrite_declarator(d, alias);
    match d.init {
        None => {},
        Some(init) => {
            if wrapped_call(init, alias) {
            } else {
                let comp = match d.name {
                    SpecPat::Ident { name, .. } => component_name(name),
                    _ => false,
                };
                if comp && fn_or_arrow(init) && jsx_in_expr(init) {
                    assert(wrapped_call(wrap_with(init, alias), alias));
                } else {
                    match init {
                        SpecExpr::Call { callee, args, extra } => {
                            if args.len() > 0 && fn_or_arrow(args[0].expr) && jsx_in_expr(
                                args[0].expr,
                            ) {
                                let new_args = args.update(
                                    0,
                                    SpecArg {
                                        spread: args[0].spread,
                                        expr: wrap_with(args[0].expr, alias),
                                    },
                                );
                                let init1 = SpecExpr::Call { callee, args: new_args, extra };
                                assert(!wrapped_call(init1, alias));
                                assert(!fn_or_arrow(new_args[0].expr));
                            }
                        },
                        _ => {},
                    }
                }
            }
        },
    }
}

pub proof fn lemma_rewrite_decls_idempotent(decls: Seq<SpecDeclarator>, alias: Seq<char>)
    ensures
        rewrite_decls(rewrite_decls(decls, alias), alias) == rewrite_decls(decls, alias),
{
    let d1 = rewrite_decls(decls, alias);
    lemma_rewrite_decls_props(decls, alias);
    lemma_rewrite_decls_props(d1, alias);
    assert forall|i: int| 0 <= i < d1.len() implies rewrite_decls(d1, alias)[i] == d1[i] by {
        lemma_rewrite_declarator_idempotent(decls[i], alias);
    }
    assert(rewrite_decls(d1, alias) =~= d1);
}

/// One application of the item rewrite is a fixed point of a second, for
/// every item that is not a JSX-bearing default export.
pub proof fn lemma_rewrite_item_idempotent(it: SpecItem, alias: Seq<char>)
    requires
        !jsx_default_export(it),
    ensures
        rewrite_item(rewrite_item(it, alias), alias) == rewrite_item(it, alias),
{
    let it1 = rewrite_item(it, alias);
    match it {
        SpecItem::Stmt(SpecStmt::Decl(SpecDecl::FnDecl { name, function })) => {
            if jsx_in_function(function) && component_name(name) {
                let vd = wrap_fn_decl(name, function, alias);
                let d0 = vd.decls[0];
                assert(wrapped_call(d0.init->Some_0, alias));
                assert(rewrite_declarator(d0, alias) == d0);
                assert(rewrite_decls(vd.decls.drop_last(), alias) =~= Seq::<
                    SpecDeclarator,
                >::empty());
                assert(vd.decls.last() == d0);
                assert(rewrite_decls(vd.decls, alias) =~= vd.decls);
                assert(rewrite_item(it1, alias) =~~= it1);
            }
        },
        SpecItem::ExportDecl { decl: SpecDecl::FnDecl { name, function }, extra } => {
            if jsx_in_function(function) && component_name(name) {
                let vd = wrap_fn_decl(name, function, alias);
                let d0 = vd.decls[0];
                assert(wrapped_call(d0.init->Some_0, alias));
                assert(rewrite_declarator(d0, alias) == d0);
                assert(rewrite_decls(vd.decls.drop_last(), alias) =~= Seq::<
                    SpecDeclarator,
                >::empty());
                assert(vd.decls.last() == d0);
                assert(rewrite_decls(vd.decls, alias) =~= vd.decls);
                assert(rewrite_item(it1, alias) =~~= it1);
            }
        },
        SpecItem::Stmt(SpecStmt::Decl(SpecDecl::VarDecl(v))) => {
            lemma_rewrite_decls_idempotent(v.decls, alias);
            assert(rewrite_item(it1, alias) =~~= it1);
        },
        SpecItem::ExportDecl { decl: SpecDecl::VarDecl(v), extra } => {
            lemma_rewrite_decls_idempotent(v.decls, alias);
            assert(rewrite_item(it1, alias) =~~= it1);
        },
        _ => {},
    }
}

pub proof fn lemma_alias_preserved(items: Seq<SpecItem>, alias: Seq<char>, name: Seq<char>)
    ensures
        alias_in_items(rewrite_items(items, alias), name) == alias_in_items(items, name),
    decreases items.len(),
{
    lemma_rewrite_items_props(items, alias);
    if items.len() > 0 {
        let rw = rewrite_items(items, alias);
        lemma_alias_preserved(items.drop_first(), alias, name);
        lemma_rewrite_items_props(items.drop_first(), alias);
        assert forall|i: int| 0 <= i < items.drop_first().len() implies rw.drop_first()[i]
            == rewrite_items(items.drop_first(), alias)[i] by {
            assert(items.drop_first()[i] == items[i + 1]);
        }
        assert(rw.drop_first() =~= rewrite_items(items.drop_first(), alias));
        lemma_rewrite_item_imports(items[0], alias);
    }
}

/// The rewrite keeps every wrapper call the module-level scan looks at.
pub proof fn lemma_wrapped_preserved(items: Seq<SpecItem>, name: Seq<char>)
    requires
        module_has_wrapped_call(items, name),
    ensures
        module_has_wrapped_call(rewrite_items(items, name), name),
    decreases items.len(),
{
    lemma_rewrite_items_props(items, name);
    let rw = rewrite_items(items, name);
    if items.len() > 0 {
        lemma_rewrite_items_props(items.drop_first(), name);
        assert forall|i: int| 0 <= i < items.drop_first().len() implies rw.drop_first()[i]
            == rewrite_items(items.drop_first(), name)[i] by {
            assert(items.drop_first()[i] == items[i + 1]);
        }
        assert(rw.drop_first() =~= rewrite_items(items.drop_first(), name));
        if item_has_wrapped_call(items[0], name) {
            lemma_item_wrapped_preserved(items[0], name);
        } else {
            lemma_wrapped_preserved(items.drop_first(), name);
        }
    }
}

pub proof fn lemma_decls_wrapped_preserved(decls: Seq<SpecDeclarator>, name: Seq<char>)
    requires
        decls_have_wrapped(decls, name),
    ensures
        decls_have_wrapped(rewrite_decls(decls, name), name),
    decreases decls.len(),
{
    lemma_rewrite_decls_props(decls, name);
    let rw = rewrite_decls(decls, name);
    if decls.len() > 0 {
        lemma_rewrite_decls_props(decls.drop_first(), name);
        assert forall|i: int| 0 <= i < decls.drop_first().len() implies rw.drop_first()[i]
            == rewrite_decls(decls.drop_first(), name)[i] by {
            assert(decls.drop_first()[i] == decls[i + 1]);
        }
        assert(rw.drop_first() =~= rewrite_decls(decls.drop_first(), name));
        let wrapped0 = match decls[0].init {
            Some(e) => wrapped_call(e, name),
            None => false,
        };
        if wrapped0 {
            assert(rewrite_declarator(decls[0], name) == decls[0]);
        } else {
            lemma_decls_wrapped_preserved(decls.drop_first(), name);
        }
    }
}

pub proof fn lemma_item_wrapped_preserved(it: SpecItem, name: Seq<char>)
    requires
        item_has_wrapped_call(it, name),
    ensures
        item_has_wrapped_call(rewrite_item(it, name), name),
{
    match it {
        SpecItem::Stmt(SpecStmt::Decl(SpecDecl::VarDecl(v))) => {
            lemma_decls_wrapped_preserved(v.decls, name);
        },
        SpecItem::ExportDecl { decl: SpecDecl::VarDecl(v), .. } => {
            lemma_decls_wrapped_preserved(v.decls, name);
        },
        _ => {},
    }
}

/// Applying the transform twice, with the same configuration, yields the
/// same module as applying it once. Default exports whose body carries JSX
/// are left out: the rewrite turns them into wrapper calls that still carry
/// JSX, which a second pass wraps again.
pub proof fn lemma_transform_idempotent(m: SpecModule, c: SpecConfig)
    requires
        forall|i: int| 0 <= i < m.body.len() ==> !jsx_default_export(#[trigger] m.body[i]),
    ensures
        transform_module(transform_module(m, c), c) == transform_module(m, c),
{
    let name = wrapper_name(c);
    let alias_opt = alias_in_items(m.body, name);
    let alias = match alias_opt {
        Some(a) => a,
        None => name,
    };
    let insert = alias_opt is None && !module_has_wrapped_call(m.body, name) && jsx_in_items(
        m.body,
    );
    let body0 = if insert {
        seq![new_import_item(c, name)] + m.body
    } else {
        m.body
    };
    let m1 = transform_module(m, c);
    assert(m1.body == rewrite_items(body0, alias));
    lemma_rewrite_items_props(body0, alias);

    // Every item of body0 is either the inserted import or an item of the
    // module, so none is a JSX-bearing default export.
    assert forall|i: int| 0 <= i < body0.len() implies !jsx_default_export(
        #[trigger] body0[i],
    ) by {
        if insert {
            if i > 0 {
                assert(body0[i] == m.body[i - 1]);
            }
        } else {
            assert(body0[i] == m.body[i]);
        }
    }

    // The alias the second pass resolves, and whether it inserts.
    lemma_alias_preserved(body0, alias, name);
    let alias2_opt = alias_in_items(m1.body, name);
    if insert {
        let imp0 = new_import_item(c, name);
        let spec0 = SpecImportSpecifier::Named { local: name, imported: None, extra: 0 };
        assert(imported_name(name, Option::<Seq<char>>::None) == name);
        assert(alias_in_specifiers(seq![spec0], name) == Some(name));
        assert(alias_in_items(body0, name) == Some(name));
        assert(alias2_opt == Some(name));
    } else {
        assert(alias2_opt == alias_opt);
    }
    match alias2_opt {
        Some(a2) => {
            assert(a2 == alias);
            // No insertion in the second pass.
            assert(transform_module(m1, c).body == rewrite_items(m1.body, alias));
        },
        None => {
            // First pass found no alias and inserted nothing, so either a
            // wrapper call was present or the module holds no JSX.
            assert(alias_opt is None);
            assert(!insert);
            assert(alias == name);
            if module_has_wrapped_call(m.body, name) {
                lemma_wrapped_preserved(m.body, name);
                assert(transform_module(m1, c).body == rewrite_items(m1.body, alias));
            } else {
                assert(!jsx_in_items(m.body));
                lemma_no_jsx_invariance(m, c);
                assert(m1 == m);
            }
        },
    }
    if transform_module(m1, c).body == rewrite_items(m1.body, alias) {
        lemma_rewrite_items_props(m1.body, alias);
        assert forall|i: int| 0 <= i < m1.body.len() implies rewrite_items(m1.body, alias)[i]
            == m1.body[i] by {
            lemma_rewrite_item_idempotent(body0[i], alias);
        }
        assert(rewrite_items(m1.body, alias) =~= m1.body);
        assert(transform_module(m1, c) =~~= m1);
    } else {
        assert(m1 == m);
        assert(transform_module(m1, c) == m1);
    }
}

} // verus!
