//! Plain string work for the exclusion matcher: splitting on a separator,
//! joining path components, substring search, and Unicode lowercasing.

use vstd::prelude::*;

use crate::config::strings_view;

verus! {

/// What `str::to_lowercase` returns: a function of the characters alone.
pub uninterp spec fn lower_of(s: Seq<char>) -> Seq<char>;

/// Relies on `str::to_lowercase`: Unicode lowercasing, which depends on the
/// input characters alone, and maps the empty string to itself.
#[verifier::external_body]
pub fn to_lowercase(s: &str) -> (r: String)
    ensures
        r@ == lower_of(s@),
        s@.len() == 0 ==> r@.len() == 0,
{
    s.to_lowercase()
}

/// The components of a string split on a separator: always one more
/// component than there are separators, so never empty.
pub open spec fn split_seq(s: Seq<char>, sep: char) -> Seq<Seq<char>>
    decreases s.len(),
{
    if s.len() == 0 {
        seq![Seq::<char>::empty()]
    } else if s.last() == sep {
        split_seq(s.drop_last(), sep).push(Seq::<char>::empty())
    } else {
        let rest = split_seq(s.drop_last(), sep);
        rest.update(rest.len() - 1, rest.last().push(s.last()))
    }
}

pub proof fn lemma_split_seq_len(s: Seq<char>, sep: char)
    ensures
        split_seq(s, sep).len() >= 1,
    decreases s.len(),
{
    if s.len() > 0 {
        lemma_split_seq_len(s.drop_last(), sep);
    }
}

/// Splits a string into the components between occurrences of a separator.
pub fn split_str(s: &str, sep: char) -> (r: Vec<String>)
    ensures
        strings_view(r@) == split_seq(s@, sep),
        r@.len() >= 1,
{
    let n = s.unicode_len();
    let mut out: Vec<String> = Vec::new();
    let mut start: usize = 0;
    let mut i: usize = 0;
    proof {
        assert(s@.take(0) =~= Seq::<char>::empty());
        assert(strings_view(out@).push(s@.subrange(0, 0)) =~= split_seq(s@.take(0), sep));
    }
    while i < n
        invariant
            n == s@.len(),
            0 <= start <= i <= n,
            strings_view(out@).push(s@.subrange(start as int, i as int)) == split_seq(
                s@.take(i as int),
                sep,
            ),
        decreases n - i,
    {
        let c = s.get_char(i);
        let ghost out0 = out@;
        if c == sep {
            let piece = String::from_str(s.substring_char(start, i));
            out.push(piece);
            proof {
                assert(s@.take(i + 1).drop_last() =~= s@.take(i as int));
                assert(s@.take(i + 1).last() == sep);
                assert forall|j: int| 0 <= j < out@.len() implies strings_view(out@)[j]
                    == strings_view(out0).push(s@.subrange(start as int, i as int))[j] by {
                    if j < out0.len() {
                        assert(strings_view(out0)[j] == out0[j]@);
                    }
                }
                assert(strings_view(out@) =~= strings_view(out0).push(
                    s@.subrange(start as int, i as int),
                ));
                assert(s@.subrange(i + 1, i + 1) =~= Seq::<char>::empty());
                assert(strings_view(out@).push(s@.subrange(i + 1, i + 1)) =~= split_seq(
                    s@.take(i + 1),
                    sep,
                ));
            }
            start = i + 1;
        } else {
            proof {
                assert(s@.take(i + 1).drop_last() =~= s@.take(i as int));
                assert(s@.take(i + 1).last() == s@[i as int]);
                let before = split_seq(s@.take(i as int), sep);
                lemma_split_seq_len(s@.take(i as int), sep);
                assert(before.last() == s@.subrange(start as int, i as int));
                assert(s@.subrange(start as int, i + 1) =~= s@.subrange(start as int, i as int).push(
                    s@[i as int],
                ));
                assert(strings_view(out@).push(s@.subrange(start as int, i + 1)) =~= before.update(
                    before.len() - 1,
                    before.last().push(s@[i as int]),
                ));
            }
        }
        i += 1;
    }
    let piece = String::from_str(s.substring_char(start, n));
    let ghost out0 = out@;
    out.push(piece);
    proof {
        assert(s@.take(n as int) =~= s@);
        assert forall|j: int| 0 <= j < out@.len() implies strings_view(out@)[j] == strings_view(
            out0,
        ).push(s@.subrange(start as int, n as int))[j] by {
            if j < out0.len() {
                assert(strings_view(out0)[j] == out0[j]@);
            }
        }
        assert(strings_view(out@) =~= strings_view(out0).push(
            s@.subrange(start as int, n as int),
        ));
    }
    out
}

/// The components joined with a separator between each two.
pub open spec fn join_seq(parts: Seq<Seq<char>>, sep: char) -> Seq<char>
    decreases parts.len(),
{
    if parts.len() == 0 {
        Seq::<char>::empty()
    } else if parts.len() == 1 {
        parts[0]
    } else {
        join_seq(parts.drop_last(), sep) + seq![sep] + parts.last()
    }
}

/// Joins the components from `start` on with `/` between each two.
pub fn join_slash_from(parts: &Vec<String>, start: usize) -> (r: String)
    requires
        start <= parts@.len(),
    ensures
        r@ == join_seq(strings_view(parts@).skip(start as int), '/'),
{
    let ghost sv = strings_view(parts@);
    let mut out = String::new();
    let n = parts.len();
    let mut i: usize = start;
    proof {
        assert(sv.skip(start as int).take(0) =~= Seq::<Seq<char>>::empty());
    }
    while i < n
        invariant
            n == parts@.len(),
            sv == strings_view(parts@),
            start <= i <= n,
            out@ == join_seq(sv.skip(start as int).take(i - start), '/'),
        decreases n - i,
    {
        proof {
            reveal_strlit("/");
        }
        if i > start {
            out.append("/");
        }
        out.append(parts[i].as_str());
        proof {
            let pre = sv.skip(start as int).take(i - start);
            let cur = sv.skip(start as int).take(i + 1 - start);
            assert(cur.drop_last() =~= pre);
            assert(cur.last() == sv[i as int]);
            assert(sv[i as int] == parts@[i as int]@);
            if i > start {
                assert(out@ =~= join_seq(pre, '/') + seq!['/'] + sv[i as int]);
            } else {
                assert(out@ =~= sv[i as int]);
            }
        }
        i += 1;
    }
    proof {
        assert(sv.skip(start as int).take(n - start) =~= sv.skip(start as int));
    }
    out
}

/// Whether the needle occurs in the haystack at or after position `i`.
pub open spec fn contains_sub_from(h: Seq<char>, needle: Seq<char>, i: int) -> bool
    decreases h.len() - i + 1,
    when 0 <= i
{
    if i + needle.len() > h.len() {
        false
    } else {
        h.subrange(i, i + needle.len()) == needle || contains_sub_from(h, needle, i + 1)
    }
}

/// Whether the needle occurs anywhere in the haystack.
pub open spec fn contains_sub(h: Seq<char>, needle: Seq<char>) -> bool {
    contains_sub_from(h, needle, 0)
}

/// Whether the needle occurs at exactly position `i` of the haystack.
fn matches_at(h: &str, needle: &str, i: usize) -> (r: bool)
    requires
        i + needle@.len() <= h@.len(),
    ensures
        r == (h@.subrange(i as int, i + needle@.len()) == needle@),
{
    let nh = h.unicode_len();
    let m = needle.unicode_len();
    let mut j: usize = 0;
    while j < m
        invariant
            nh == h@.len(),
            m == needle@.len(),
            i + m <= nh,
            0 <= j <= m,
            forall|t: int| 0 <= t < j ==> h@[i + t] == needle@[t],
        decreases m - j,
    {
        if h.get_char(i + j) != needle.get_char(j) {
            proof {
                assert(h@.subrange(i as int, i + needle@.len())[j as int] != needle@[j as int]);
            }
            return false;
        }
        j += 1;
    }
    proof {
        assert(h@.subrange(i as int, i + needle@.len()) =~= needle@);
    }
    true
}

/// Does the haystack contain the needle as a substring.
pub fn str_contains(h: &str, needle: &str) -> (r: bool)
    ensures
        r == contains_sub(h@, needle@),
{
    let n = h.unicode_len();
    let m = needle.unicode_len();
    if m > n {
        return false;
    }
    let bound = n - m;
    let mut i: usize = 0;
    while i < bound
        invariant
            n == h@.len(),
            m == needle@.len(),
            bound == n - m,
            0 <= i <= bound,
            contains_sub(h@, needle@) == contains_sub_from(h@, needle@, i as int),
        decreases bound - i,
    {
        if matches_at(h, needle, i) {
            return true;
        }
        i += 1;
    }
    if matches_at(h, needle, bound) {
        return true;
    }
    proof {
        assert(!contains_sub_from(h@, needle@, bound + 1));
        assert(!contains_sub_from(h@, needle@, bound as int));
    }
    false
}

} // verus!
