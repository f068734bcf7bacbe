//! The pass configuration: the wrapper's name, the module specifier to
//! import it from, and the glob exclusion patterns.

use vstd::prelude::*;

use crate::ast::name_view;
use crate::model::SpecConfig;

verus! {

/// Raw configuration for one pass invocation, supplied once by the host and
/// immutable for the lifetime of the pass.
pub struct Config {
    /// The wrapper's local and import name; `observer` when absent.
    pub import_name: Option<String>,
    /// The module specifier the wrapper is imported from.
    pub import_path: String,
    /// Glob patterns of files the pass must skip.
    pub exclude: Vec<String>,
}

/// The views of a list of strings.
pub open spec fn strings_view(v: Seq<String>) -> Seq<Seq<char>> {
    Seq::new(v.len(), |i: int| if 0 <= i < v.len() { v[i]@ } else { Seq::<char>::empty() })
}

impl View for Config {
    type V = SpecConfig;

    open spec fn view(&self) -> SpecConfig {
        SpecConfig {
            import_name: name_view(self.import_name),
            import_path: self.import_path@,
            exclude: strings_view(self.exclude@),
        }
    }
}

/// The wrapper's resolved name: the configured import name, or `observer`.
pub open spec fn wrapper_name(c: SpecConfig) -> Seq<char> {
    match c.import_name {
        Some(n) => n,
        None => "observer"@,
    }
}

impl Config {
    /// The configured wrapper name, with its default applied.
    pub fn get_import_name(&self) -> (r: String)
        ensures
            r@ == wrapper_name(self@),
    {
        match &self.import_name {
            Some(n) => n.clone(),
            None => String::from_str("observer"),
        }
    }
}

} // verus!
