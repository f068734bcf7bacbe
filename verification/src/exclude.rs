//! The path-exclusion matcher: decides, from a file path and a list of glob
//! exclusion patterns, whether the pass must skip the file.
//!
//! The matching is layered: the compiled glob set is tried on the whole
//! path, then on the file name; then each raw pattern is tried as a
//! case-insensitive subsequence of the path components; then the glob set is
//! tried on every suffix of the path, as if the pattern were relative to
//! some project root. Patterns that do not compile are discarded, and a glob
//! set that fails to build disables the matcher for that query entirely.

use vstd::prelude::*;

use crate::config::strings_view;
use crate::globs::{
    builder_patterns, glob_match, glob_new, glob_ok, globset_builder_add, globset_builder_build,
    globset_builder_new, globset_builds, globset_is_match, globset_patterns,
};
use crate::text::{
    contains_sub, join_seq, join_slash_from, lemma_split_seq_len, lower_of, split_seq, split_str,
    str_contains, to_lowercase,
};

verus! {

/// The patterns that compile as globs, in order.
pub open spec fn compiled_patterns(pats: Seq<Seq<char>>) -> Seq<Seq<char>> {
    pats.filter(|p: Seq<char>| glob_ok(p))
}

/// The path split into components on the path separator.
pub open spec fn path_parts(path: Seq<char>) -> Seq<Seq<char>> {
    split_seq(path, '/')
}

/// The final path component.
pub open spec fn file_name_of(path: Seq<char>) -> Seq<char> {
    path_parts(path).last()
}

/// Whether the pattern components occur, in order but not necessarily
/// contiguously, among the path components, compared case-insensitively.
pub open spec fn subseq_match_ci(path_cs: Seq<Seq<char>>, pat_cs: Seq<Seq<char>>) -> bool
    decreases path_cs.len(),
{
    if pat_cs.len() == 0 {
        true
    } else if path_cs.len() == 0 {
        false
    } else if lower_of(path_cs[0]) == lower_of(pat_cs[0]) {
        subseq_match_ci(path_cs.drop_first(), pat_cs.drop_first())
    } else {
        subseq_match_ci(path_cs.drop_first(), pat_cs)
    }
}

/// Whether any raw pattern, split on `/`, matches the path components as a
/// case-insensitive subsequence.
pub open spec fn subseq_any(path_cs: Seq<Seq<char>>, pats: Seq<Seq<char>>) -> bool
    decreases pats.len(),
{
    if pats.len() == 0 {
        false
    } else {
        subseq_match_ci(path_cs, split_seq(pats[0], '/')) || subseq_any(
            path_cs,
            pats.drop_first(),
        )
    }
}

/// Whether the glob set matches the path suffix starting at any component
/// index at or after `i`.
pub open spec fn suffix_match_from(cs: Seq<Seq<char>>, cpats: Seq<Seq<char>>, i: int) -> bool
    decreases cs.len() - i,
    when 0 <= i <= cs.len()
{
    if i >= cs.len() {
        false
    } else {
        glob_match(cpats, join_seq(cs.skip(i), '/')) || suffix_match_from(cs, cpats, i + 1)
    }
}

/// Whether the file path is excluded by the patterns: an empty pattern list
/// excludes nothing; a glob set that fails to build excludes nothing; else
/// the path is excluded when the set matches the whole path or the file
/// name, when some raw pattern is a case-insensitive subsequence of the
/// path components, or when the set matches some suffix of the path.
pub open spec fn should_exclude_spec(path: Seq<char>, pats: Seq<Seq<char>>) -> bool {
    if pats.len() == 0 {
        false
    } else {
        let cp = compiled_patterns(pats);
        if !globset_builds(cp) {
            false
        } else {
            glob_match(cp, path) || glob_match(cp, file_name_of(path)) || subseq_any(
                path_parts(path),
                pats,
            ) || suffix_match_from(path_parts(path), cp, 0)
        }
    }
}

/// Do the pattern components occur, in order, as a case-insensitive
/// subsequence of the path components. An empty pattern matches anything.
pub fn path_components_match(
    path_components: &Vec<String>,
    pattern_components: &Vec<String>,
) -> (r: bool)
    ensures
        r == subseq_match_ci(strings_view(path_components@), strings_view(pattern_components@)),
{
    let ghost pv: Seq<Seq<char>> = strings_view(path_components@);
    let ghost qv: Seq<Seq<char>> = strings_view(pattern_components@);
    let n = path_components.len();
    let m = pattern_components.len();
    if m == 0 {
        return true;
    }
    let mut pi: usize = 0;
    let mut qi: usize = 0;
    proof {
        assert(pv.skip(0) =~= pv);
        assert(qv.skip(0) =~= qv);
    }
    while pi < n
        invariant
            n == path_components@.len(),
            m == pattern_components@.len(),
            pv == strings_view(path_components@),
            qv == strings_view(pattern_components@),
            0 <= pi <= n,
            0 <= qi < m,
            subseq_match_ci(pv, qv) == subseq_match_ci(pv.skip(pi as int), qv.skip(qi as int)),
        decreases n - pi,
    {
        let la = to_lowercase(path_components[pi].as_str());
        let lb = to_lowercase(pattern_components[qi].as_str());
        proof {
            assert(pv[pi as int] == path_components@[pi as int]@);
            assert(qv[qi as int] == pattern_components@[qi as int]@);
            assert(pv.skip(pi as int)[0] == pv[pi as int]);
            assert(qv.skip(qi as int)[0] == qv[qi as int]);
            assert(pv.skip(pi as int).drop_first() =~= pv.skip(pi as int + 1));
            assert(qv.skip(qi as int).drop_first() =~= qv.skip(qi as int + 1));
        }
        if la == lb {
            proof {
                assert(lower_of(pv.skip(pi as int)[0]) == lower_of(qv.skip(qi as int)[0]));
                assert(subseq_match_ci(pv.skip(pi as int), qv.skip(qi as int))
                    == subseq_match_ci(pv.skip(pi as int + 1), qv.skip(qi as int + 1)));
            }
            qi += 1;
            if qi == m {
                proof {
                    assert(qv.skip(qi as int).len() == 0);
                    assert(subseq_match_ci(pv.skip(pi as int + 1), qv.skip(qi as int)));
                }
                return true;
            }
        } else {
            proof {
                assert(subseq_match_ci(pv.skip(pi as int), qv.skip(qi as int))
                    == subseq_match_ci(pv.skip(pi as int + 1), qv.skip(qi as int)));
            }
        }
        pi += 1;
    }
    proof {
        assert(pv.skip(n as int) =~= Seq::<Seq<char>>::empty());
    }
    false
}

/// Should the file at this path be skipped, per the exclusion patterns.
#[verifier::loop_isolation(false)]
pub fn should_exclude(file_path: &str, exclude_patterns: &[String]) -> (r: bool)
    ensures
        r == should_exclude_spec(file_path@, strings_view(exclude_patterns@)),
{
    let ghost pv: Seq<Seq<char>> = strings_view(exclude_patterns@);
    let np = exclude_patterns.len();
    if np == 0 {
        return false;
    }
    // Compile the patterns, discarding any that is not a valid glob.
    let mut builder = globset_builder_new();
    let mut i: usize = 0;
    proof {
        reveal(Seq::filter);
        assert(pv.take(0) =~= Seq::<Seq<char>>::empty());
        assert(builder_patterns(builder) =~= compiled_patterns(pv.take(0)));
    }
    while i < np
        invariant
            np == exclude_patterns@.len(),
            pv == strings_view(exclude_patterns@),
            0 <= i <= np,
            builder_patterns(builder) == compiled_patterns(pv.take(i as int)),
        decreases np - i,
    {
        proof {
            assert(pv[i as int] == exclude_patterns@[i as int]@);
        }
        match glob_new(exclude_patterns[i].as_str()) {
            Some(g) => {
                globset_builder_add(&mut builder, g);
            },
            None => {},
        }
        proof {
            reveal(Seq::filter);
            assert(pv.take(i as int + 1).drop_last() =~= pv.take(i as int));
            assert(pv.take(i as int + 1).last() == pv[i as int]);
        }
        i += 1;
    }
    proof {
        assert(pv.take(np as int) =~= pv);
    }
    let ghost cp: Seq<Seq<char>> = compiled_patterns(pv);
    let set = match globset_builder_build(&builder) {
        Some(s0) => s0,
        None => {
            return false;
        },
    };
    // Whole path.
    if globset_is_match(&set, file_path) {
        return true;
    }
    // File name alone.
    let components = split_str(file_path, '/');
    let ghost csv: Seq<Seq<char>> = path_parts(file_path@);
    proof {
        assert(strings_view(components@) == csv);
        lemma_split_seq_len(file_path@, '/');
    }
    let last_idx = components.len() - 1;
    proof {
        assert(strings_view(components@)[last_idx as int] == components@[last_idx as int]@);
        assert(file_name_of(file_path@) == csv[last_idx as int]);
    }
    if globset_is_match(&set, components[last_idx].as_str()) {
        return true;
    }
    // Each raw pattern as a case-insensitive subsequence of the components.
    let mut j: usize = 0;
    proof {
        assert(pv.skip(0) =~= pv);
    }
    while j < np
        invariant
            np == exclude_patterns@.len(),
            pv == strings_view(exclude_patterns@),
            csv == strings_view(components@),
            0 <= j <= np,
            subseq_any(csv, pv) == subseq_any(csv, pv.skip(j as int)),
        decreases np - j,
    {
        proof {
            assert(pv[j as int] == exclude_patterns@[j as int]@);
            assert(pv.skip(j as int)[0] == pv[j as int]);
            assert(pv.skip(j as int).drop_first() =~= pv.skip(j as int + 1));
        }
        let pattern_components = split_str(exclude_patterns[j].as_str(), '/');
        if path_components_match(&components, &pattern_components) {
            proof {
                assert(subseq_match_ci(csv, split_seq(pv[j as int], '/')));
                assert(subseq_any(csv, pv.skip(j as int)));
                assert(subseq_any(csv, pv));
                assert(csv == path_parts(file_path@));
                assert(globset_builds(cp));
                assert(pv.len() > 0);
                assert(should_exclude_spec(file_path@, pv));
            }
            return true;
        }
        j += 1;
    }
    proof {
        assert(pv.skip(np as int) =~= Seq::<Seq<char>>::empty());
    }
    // Every suffix of the path, as if relative to some project root.
    let ncs = components.len();
    let mut k: usize = 0;
    while k < ncs
        invariant
            ncs == components@.len(),
            csv == strings_view(components@),
            globset_patterns(set) == cp,
            cp == compiled_patterns(pv),
            pv == strings_view(exclude_patterns@),
            0 <= k <= ncs,
            suffix_match_from(csv, cp, 0) == suffix_match_from(csv, cp, k as int),
        decreases ncs - k,
    {
        let suffix = join_slash_from(&components, k);
        proof {
            assert(csv.skip(k as int) =~= strings_view(components@).skip(k as int));
        }
        if globset_is_match(&set, suffix.as_str()) {
            proof {
                assert(glob_match(cp, join_seq(csv.skip(k as int), '/')));
                assert(suffix_match_from(csv, cp, k as int));
                assert(suffix_match_from(csv, cp, 0));
                assert(should_exclude_spec(file_path@, pv));
            }
            return true;
        }
        k += 1;
    }
    false
}

/// Should the pass process the file at all: paths inside a vendored
/// dependency directory are always skipped, then the configured exclusion
/// patterns decide.
pub fn should_process_file(file_path: &str, exclude_patterns: &[String]) -> (r: bool)
    ensures
        r == (!contains_sub(file_path@, "node_modules"@) && !should_exclude_spec(
            file_path@,
            strings_view(exclude_patterns@),
        )),
{
    if str_contains(file_path, "node_modules") {
        return false;
    }
    let excluded = should_exclude(file_path, exclude_patterns);
    !excluded
}

} // verus!
