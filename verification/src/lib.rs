//! A source-to-source pass over JavaScript/TypeScript module trees: every
//! eligible component declaration is wrapped by a call to a configurable
//! higher-order function, exactly one import of that wrapper is ensured per
//! module, and a layered glob matcher decides from a file path and a list
//! of exclusion patterns whether a file is skipped entirely.

pub mod ast;
pub mod classify;
pub mod config;
pub mod exclude;
pub mod globs;
pub mod jsx;
pub mod laws;
pub mod model;
pub mod text;
pub mod transform;

pub use ast::{
    Arg, ArrowBody, Block, Callee, Decl, DefaultDecl, Expr, Function, ImportDecl, ImportSpecifier,
    Module, ModuleItem, Pat, Stmt, VarDecl, VarDeclarator, VarKind,
};
pub use classify::is_component_name;
pub use config::Config;
pub use exclude::{path_components_match, should_exclude, should_process_file};
pub use jsx::{
    contains_jsx_in_block, contains_jsx_in_expr, contains_jsx_in_function, contains_jsx_in_module,
    contains_jsx_in_stmt,
};
pub use text::{split_str, str_contains, to_lowercase};
pub use transform::{
    find_wrapper_alias, is_already_wrapped, module_contains_wrapped_function, observer_transform,
};
