//! Trusted boundary to the `globset` crate: compiling glob patterns into a
//! matcher set and testing strings against it.
//!
//! What a glob matches takes pages to state, so the results are named:
//! `glob_ok` (whether a pattern compiles), `globset_builds` (whether a set of
//! compiled patterns builds), and `glob_match` (what the built set matches).
//! Each depends on its arguments alone.

use vstd::prelude::*;

verus! {

#[verifier::external_type_specification]
#[verifier::external_body]
pub struct ExGlob(globset::Glob);

#[verifier::external_type_specification]
#[verifier::external_body]
pub struct ExGlobSet(globset::GlobSet);

#[verifier::external_type_specification]
#[verifier::external_body]
pub struct ExGlobSetBuilder(globset::GlobSetBuilder);

/// Whether the pattern compiles as a glob: what `Glob::new` decides.
pub uninterp spec fn glob_ok(pattern: Seq<char>) -> bool;

/// The pattern a compiled glob was made from.
pub uninterp spec fn glob_pattern(g: globset::Glob) -> Seq<char>;

/// The patterns added to a builder so far, in order.
pub uninterp spec fn builder_patterns(b: globset::GlobSetBuilder) -> Seq<Seq<char>>;

/// The patterns a built set was compiled from, in order.
pub uninterp spec fn globset_patterns(s: globset::GlobSet) -> Seq<Seq<char>>;

/// Whether a set of compiled patterns builds: what `GlobSetBuilder::build`
/// decides.
pub uninterp spec fn globset_builds(patterns: Seq<Seq<char>>) -> bool;

/// What the built set matches: the result of `GlobSet::is_match` on a text,
/// a function of the set's patterns and the text alone.
pub uninterp spec fn glob_match(patterns: Seq<Seq<char>>, text: Seq<char>) -> bool;

/// Relies on `globset::Glob::new`: compiling one pattern succeeds or fails
/// on the pattern text alone, and the compiled glob carries that pattern.
#[verifier::external_body]
pub fn glob_new(pattern: &str) -> (r: Option<globset::Glob>)
    ensures
        r is Some <==> glob_ok(pattern@),
        r is Some ==> glob_pattern(r->Some_0) == pattern@,
{
    match globset::Glob::new(pattern) {
        Ok(g) => Some(g),
        Err(_) => None,
    }
}

/// Relies on `globset::GlobSetBuilder::new`: a fresh builder holds no
/// patterns.
#[verifier::external_body]
pub fn globset_builder_new() -> (r: globset::GlobSetBuilder)
    ensures
        builder_patterns(r) == Seq::<Seq<char>>::empty(),
{
    globset::GlobSetBuilder::new()
}

/// Relies on `globset::GlobSetBuilder::add`: adding a glob appends its
/// pattern to the builder.
#[verifier::external_body]
pub fn globset_builder_add(b: &mut globset::GlobSetBuilder, g: globset::Glob)
    ensures
        builder_patterns(*final(b)) == builder_patterns(*old(b)).push(glob_pattern(g)),
{
    b.add(g);
}

/// Relies on `globset::GlobSetBuilder::build`: building succeeds or fails on
/// the added patterns alone, and the built set holds exactly them.
#[verifier::external_body]
pub fn globset_builder_build(b: &globset::GlobSetBuilder) -> (r: Option<globset::GlobSet>)
    ensures
        r is Some <==> globset_builds(builder_patterns(*b)),
        r is Some ==> globset_patterns(r->Some_0) == builder_patterns(*b),
{
    match b.build() {
        Ok(s) => Some(s),
        Err(_) => None,
    }
}

/// Relies on `globset::GlobSet::is_match`: whether any pattern of the set
/// matches the text, a pure function of the set's patterns and the text.
#[verifier::external_body]
pub fn globset_is_match(s: &globset::GlobSet, text: &str) -> (r: bool)
    ensures
        r == glob_match(globset_patterns(*s), text@),
{
    s.is_match(text)
}

} // verus!
