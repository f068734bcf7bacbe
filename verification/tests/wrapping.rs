//! Tests of the wrap transform: naming gate, import management,
//! call-argument wrapping, default exports, no-JSX invariance, and
//! idempotence on concrete modules.

use wrap_components_with_observer::{
    contains_jsx_in_expr, is_already_wrapped, is_component_name, observer_transform, Arg,
    ArrowBody, Block, Callee, Config, Expr, Function, ImportDecl, ImportSpecifier, Module,
    ModuleItem, Pat, Stmt, VarDecl, VarDeclarator, VarKind,
};

fn config(import_name: Option<&str>, import_path: &str) -> Config {
    Config {
        import_name: import_name.map(|s| s.to_string()),
        import_path: import_path.to_string(),
        exclude: vec![],
    }
}

/// `function <name>(...) { return <jsx/>; }` as a `Function` body.
fn jsx_function() -> Function {
    Function {
        body: Some(Block { stmts: vec![Stmt::Return { arg: Some(Expr::Jsx(1)), extra: 0 }], extra: 0 }),
        extra: 0,
    }
}

/// `function <name>(...) { return other; }`: no JSX.
fn plain_function() -> Function {
    Function {
        body: Some(Block {
            stmts: vec![Stmt::Return { arg: Some(Expr::Other(9)), extra: 0 }],
            extra: 0,
        }),
        extra: 0,
    }
}

/// `() => <jsx/>`.
fn jsx_arrow() -> Expr {
    Expr::Arrow { body: ArrowBody::ExprBody(Box::new(Expr::Jsx(1))), extra: 0 }
}

/// `<alias>(<arg>)`.
fn wrapper_call(alias: &str, arg: Expr) -> Expr {
    Expr::Call {
        callee: Callee::CalleeExpr(Box::new(Expr::Ident { name: alias.to_string(), extra: 0 })),
        args: vec![Arg { spread: false, expr: arg }],
        extra: 0,
    }
}

/// `import { observer } from '<src>';` as the pass inserts it.
fn observer_import(src: &str) -> ModuleItem {
    ModuleItem::Import(ImportDecl {
        specifiers: vec![ImportSpecifier::Named {
            local: "observer".to_string(),
            imported: None,
            extra: 0,
        }],
        src: src.to_string(),
        extra: 0,
    })
}

/// `const <name> = <init>;`, or with another variable kind.
fn var_item(kind: VarKind, name: &str, init: Expr) -> ModuleItem {
    ModuleItem::Stmt(Stmt::Decl(wrap_components_with_observer::Decl::VarDecl(VarDecl {
        kind,
        decls: vec![VarDeclarator {
            name: Pat::Ident { name: name.to_string(), extra: 0 },
            init: Some(init),
            extra: 0,
        }],
        extra: 0,
    })))
}

fn fn_item(name: &str, function: Function) -> ModuleItem {
    ModuleItem::Stmt(Stmt::Decl(wrap_components_with_observer::Decl::FnDecl {
        name: name.to_string(),
        function,
    }))
}

#[test]
fn test_naming_gate_scenario() {
    // `function helper() { return <jsx/>; }` stays a function declaration;
    // `function Card() { return <jsx/>; }` becomes
    // `const Card = observer(function Card() { ... });`.
    let module = Module {
        body: vec![fn_item("helper", jsx_function()), fn_item("Card", jsx_function())],
        extra: 0,
    };
    let out = observer_transform(&config(None, "mobx-react"), module);
    assert_eq!(out.body.len(), 3);
    assert_eq!(out.body[0], observer_import("mobx-react"));
    assert_eq!(out.body[1], fn_item("helper", jsx_function()));
    let expected_card = ModuleItem::Stmt(Stmt::Decl(
        wrap_components_with_observer::Decl::VarDecl(VarDecl {
            kind: VarKind::ConstKw,
            decls: vec![VarDeclarator {
                name: Pat::Ident { name: "Card".to_string(), extra: 0 },
                init: Some(wrapper_call(
                    "observer",
                    Expr::FnExpr { name: Some("Card".to_string()), function: jsx_function() },
                )),
                extra: 0,
            }],
            extra: 0,
        }),
    ));
    assert_eq!(out.body[2], expected_card);
}

#[test]
fn test_component_classifier() {
    assert!(is_component_name("Card"));
    assert!(!is_component_name("helper"));
    assert!(!is_component_name(""));
}

#[test]
fn test_jsx_detector_through_calls() {
    // JSX inside a call argument is found; a bare identifier holds none.
    let call = Expr::Call {
        callee: Callee::CalleeExpr(Box::new(Expr::Ident { name: "connect".to_string(), extra: 0 })),
        args: vec![Arg { spread: false, expr: jsx_arrow() }],
        extra: 0,
    };
    assert!(contains_jsx_in_expr(&call));
    assert!(!contains_jsx_in_expr(&Expr::Ident { name: "x".to_string(), extra: 0 }));
}

#[test]
fn test_already_wrapped_detector() {
    let wrapped = wrapper_call("observer", jsx_arrow());
    assert!(is_already_wrapped(&wrapped, "observer"));
    assert!(!is_already_wrapped(&wrapped, "obs"));
    assert!(!is_already_wrapped(&jsx_arrow(), "observer"));
}

#[test]
fn test_import_inserted_once_at_position_zero() {
    let module = Module { body: vec![var_item(VarKind::ConstKw, "App", jsx_arrow())], extra: 0 };
    let out = observer_transform(&config(None, "mobx-react"), module);
    assert_eq!(out.body.len(), 2);
    assert_eq!(out.body[0], observer_import("mobx-react"));
    assert_eq!(
        out.body[1],
        var_item(VarKind::ConstKw, "App", wrapper_call("observer", jsx_arrow()))
    );
}

#[test]
fn test_no_jsx_module_is_unchanged() {
    let build = || Module {
        body: vec![
            fn_item("Card", plain_function()),
            var_item(VarKind::LetKw, "x", Expr::Other(3)),
        ],
        extra: 7,
    };
    let out = observer_transform(&config(None, "mobx-react"), build());
    assert_eq!(out, build());
}

#[test]
fn test_call_argument_wrapping_scenario() {
    // `const Page = withLayout(() => <jsx/>)` becomes
    // `const Page = withLayout(observer(() => <jsx/>))`: the wrapper goes
    // around the inner function argument, not the outer call.
    let outer = |inner: Expr| Expr::Call {
        callee: Callee::CalleeExpr(Box::new(Expr::Ident {
            name: "withLayout".to_string(),
            extra: 0,
        })),
        args: vec![Arg { spread: false, expr: inner }],
        extra: 0,
    };
    let module = Module { body: vec![var_item(VarKind::ConstKw, "Page", outer(jsx_arrow()))], extra: 0 };
    let out = observer_transform(&config(None, "mobx-react"), module);
    assert_eq!(out.body.len(), 2);
    assert_eq!(
        out.body[1],
        var_item(VarKind::ConstKw, "Page", outer(wrapper_call("observer", jsx_arrow())))
    );

    // The rule fires regardless of the binding's capitalization.
    let module = Module { body: vec![var_item(VarKind::ConstKw, "page", outer(jsx_arrow()))], extra: 0 };
    let out = observer_transform(&config(None, "mobx-react"), module);
    assert_eq!(
        out.body[1],
        var_item(VarKind::ConstKw, "page", outer(wrapper_call("observer", jsx_arrow())))
    );
}

#[test]
fn test_existing_aliased_import_is_reused() {
    // `import { observer as obs } from 'mobx-react';` resolves the alias:
    // no new import, and rewrites use `obs`.
    let build_import = || ModuleItem::Import(ImportDecl {
        specifiers: vec![ImportSpecifier::Named {
            local: "obs".to_string(),
            imported: Some("observer".to_string()),
            extra: 0,
        }],
        src: "mobx-react".to_string(),
        extra: 0,
    });
    let module = Module {
        body: vec![build_import(), var_item(VarKind::ConstKw, "App", jsx_arrow())],
        extra: 0,
    };
    let out = observer_transform(&config(None, "mobx-react"), module);
    assert_eq!(out.body.len(), 2);
    assert_eq!(out.body[0], build_import());
    assert_eq!(out.body[1], var_item(VarKind::ConstKw, "App", wrapper_call("obs", jsx_arrow())));
}

#[test]
fn test_wrapped_module_gets_no_import() {
    // A module that already holds a wrapper call is not given an import,
    // and the wrapped binding is not wrapped twice.
    let build = || Module {
        body: vec![var_item(VarKind::ConstKw, "App", wrapper_call("observer", jsx_arrow()))],
        extra: 0,
    };
    let out = observer_transform(&config(None, "mobx-react"), build());
    assert_eq!(out, build());
}

#[test]
fn test_default_export_expression_is_wrapped() {
    let module = Module {
        body: vec![ModuleItem::ExportDefaultExpr { expr: Expr::Jsx(5), extra: 2 }],
        extra: 0,
    };
    let out = observer_transform(&config(None, "mobx-react"), module);
    assert_eq!(out.body.len(), 2);
    assert_eq!(out.body[0], observer_import("mobx-react"));
    assert_eq!(
        out.body[1],
        ModuleItem::ExportDefaultExpr { expr: wrapper_call("observer", Expr::Jsx(5)), extra: 2 }
    );
}

#[test]
fn test_default_export_function_becomes_expression() {
    let module = Module {
        body: vec![ModuleItem::ExportDefaultDecl {
            decl: wrap_components_with_observer::DefaultDecl::Fn {
                name: None,
                function: jsx_function(),
            },
            extra: 4,
        }],
        extra: 0,
    };
    let out = observer_transform(&config(None, "mobx-react"), module);
    assert_eq!(out.body.len(), 2);
    assert_eq!(
        out.body[1],
        ModuleItem::ExportDefaultExpr {
            expr: wrapper_call("observer", Expr::FnExpr { name: None, function: jsx_function() }),
            extra: 4,
        }
    );
}

#[test]
fn test_exported_function_declaration_is_wrapped() {
    let module = Module {
        body: vec![ModuleItem::ExportDecl {
            decl: wrap_components_with_observer::Decl::FnDecl {
                name: "Card".to_string(),
                function: jsx_function(),
            },
            extra: 3,
        }],
        extra: 0,
    };
    let out = observer_transform(&config(None, "mobx-react"), module);
    let expected = ModuleItem::ExportDecl {
        decl: wrap_components_with_observer::Decl::VarDecl(VarDecl {
            kind: VarKind::ConstKw,
            decls: vec![VarDeclarator {
                name: Pat::Ident { name: "Card".to_string(), extra: 0 },
                init: Some(wrapper_call(
                    "observer",
                    Expr::FnExpr { name: Some("Card".to_string()), function: jsx_function() },
                )),
                extra: 0,
            }],
            extra: 0,
        }),
        extra: 3,
    };
    assert_eq!(out.body.len(), 2);
    assert_eq!(out.body[1], expected);
}

#[test]
fn test_configured_wrapper_name_is_used() {
    let module = Module { body: vec![var_item(VarKind::ConstKw, "App", jsx_arrow())], extra: 0 };
    let out = observer_transform(&config(Some("track"), "my-lib"), module);
    let expected_import = ModuleItem::Import(ImportDecl {
        specifiers: vec![ImportSpecifier::Named {
            local: "track".to_string(),
            imported: None,
            extra: 0,
        }],
        src: "my-lib".to_string(),
        extra: 0,
    });
    assert_eq!(out.body[0], expected_import);
    assert_eq!(out.body[1], var_item(VarKind::ConstKw, "App", wrapper_call("track", jsx_arrow())));
}

#[test]
fn test_transform_is_idempotent_on_concrete_module() {
    let build = || Module {
        body: vec![
            fn_item("helper", jsx_function()),
            fn_item("Card", jsx_function()),
            var_item(VarKind::ConstKw, "App", jsx_arrow()),
        ],
        extra: 0,
    };
    let c = config(None, "mobx-react");
    let once = observer_transform(&c, build());
    let twice = observer_transform(&c, observer_transform(&c, build()));
    assert_eq!(twice, once);
}
