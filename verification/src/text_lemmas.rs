//! Facts about the text primitives on texts that are written one after the
//! other: how replacing, splitting, searching and trimming pass over a part
//! that cannot hold what they look for.

use vstd::prelude::*;
use crate::text::{
    is_white_space,
    lemma_find_is_first,
    occurs_at,
    replace_from,
    skip_white_space,
    back_over_white_space,
    spec_contains,
    spec_find,
    spec_replace,
    spec_split,
    spec_trim,
    split_from,
};

verus! {

/// Whether the character `c` is nowhere in `s`.
pub open spec fn lacks(s: Seq<char>, c: char) -> bool {
    forall|i: int| 0 <= i < s.len() ==> #[trigger] s[i] != c
}

/// A text written behind another lacks a character where both do.
pub proof fn lemma_lacks_concat(u: Seq<char>, v: Seq<char>, c: char)
    requires
        lacks(u, c),
        lacks(v, c),
    ensures
        lacks(u + v, c),
{
    assert forall|i: int| 0 <= i < (u + v).len() implies #[trigger] (u + v)[i] != c by {
        if i < u.len() {
            assert((u + v)[i] == u[i]);
        } else {
            assert((u + v)[i] == v[i - u.len()]);
        }
    }
}

/// An occurrence in `v` is an occurrence in `u + v`, moved by the length of
/// `u`, and the other way round.
pub proof fn lemma_occurs_shift(u: Seq<char>, v: Seq<char>, pat: Seq<char>, i: int)
    requires
        0 <= i,
    ensures
        occurs_at(u + v, pat, u.len() + i) == occurs_at(v, pat, i),
{
    if i + pat.len() <= v.len() {
        assert((u + v).subrange(u.len() + i, u.len() + i + pat.len()) =~= v.subrange(
            i,
            i + pat.len(),
        ));
    }
}

/// An occurrence in `u` is an occurrence in `u + v` at the same place.
pub proof fn lemma_occurs_in_prefix(u: Seq<char>, v: Seq<char>, pat: Seq<char>, i: int)
    requires
        occurs_at(u, pat, i),
    ensures
        occurs_at(u + v, pat, i),
{
    assert((u + v).subrange(i, i + pat.len()) =~= u.subrange(i, i + pat.len()));
}

/// A text that stands in the middle part stands in the whole.
pub proof fn lemma_contains_in_middle(a: Seq<char>, u: Seq<char>, b: Seq<char>, pat: Seq<char>)
    requires
        spec_contains(u, pat),
    ensures
        spec_contains(a + u + b, pat),
{
    let j = choose|j: int| occurs_at(u, pat, j);
    lemma_occurs_in_prefix(u, b, pat, j);
    lemma_occurs_shift(a, u + b, pat, j);
    assert(a + (u + b) =~= a + u + b);
    assert(occurs_at(a + u + b, pat, a.len() + j));
}

/// Every text stands in itself.
pub proof fn lemma_contains_self(u: Seq<char>)
    ensures
        spec_contains(u, u),
{
    assert(u.subrange(0, u.len() as int) =~= u);
    assert(occurs_at(u, u, 0));
}

/// Where a text stands at or after the place the search begins, the search
/// finds it there or before.
pub proof fn lemma_find_reaches(text: Seq<char>, pat: Seq<char>, from: int, j: int)
    requires
        0 <= from <= j,
        occurs_at(text, pat, j),
    ensures
        spec_find(text, pat, from) is Some,
        from <= spec_find(text, pat, from).unwrap() <= j,
        occurs_at(text, pat, spec_find(text, pat, from).unwrap()),
{
    lemma_find_is_first(text, pat, from);
}

/// No occurrence of `pat` begins inside a part that lacks its first
/// character.
pub proof fn lemma_no_occurrence_inside(u: Seq<char>, v: Seq<char>, pat: Seq<char>, i: int)
    requires
        pat.len() > 0,
        lacks(u, pat[0]),
        0 <= i < u.len(),
    ensures
        !occurs_at(u + v, pat, i),
{
    if occurs_at(u + v, pat, i) {
        assert((u + v).subrange(i, i + pat.len())[0] == (u + v)[i]);
        assert((u + v)[i] == u[i]);
    }
}

/// Replacing in `u + v` from a place in `v` on is replacing in `v`.
pub proof fn lemma_replace_shift(
    u: Seq<char>,
    v: Seq<char>,
    pat: Seq<char>,
    to: Seq<char>,
    i: int,
)
    requires
        0 <= i,
    ensures
        replace_from(u + v, pat, to, u.len() + i) == replace_from(v, pat, to, i),
    decreases v.len() - i,
{
    if i < v.len() {
        lemma_occurs_shift(u, v, pat, i);
        assert((u + v)[u.len() + i] == v[i]);
        if pat.len() > 0 && occurs_at(v, pat, i) {
            lemma_replace_shift(u, v, pat, to, i + pat.len());
        } else {
            lemma_replace_shift(u, v, pat, to, i + 1);
        }
    }
}

/// Replacing copies a part that lacks the first character of `pat`.
pub proof fn lemma_replace_copies(
    u: Seq<char>,
    v: Seq<char>,
    pat: Seq<char>,
    to: Seq<char>,
    i: int,
)
    requires
        pat.len() > 0,
        lacks(u, pat[0]),
        0 <= i <= u.len(),
    ensures
        replace_from(u + v, pat, to, i) == u.subrange(i, u.len() as int) + replace_from(
            u + v,
            pat,
            to,
            u.len() as int,
        ),
    decreases u.len() - i,
{
    if i < u.len() {
        lemma_no_occurrence_inside(u, v, pat, i);
        lemma_replace_copies(u, v, pat, to, i + 1);
        assert((u + v)[i] == u[i]);
        assert(seq![u[i]] + u.subrange(i + 1, u.len() as int) =~= u.subrange(i, u.len() as int));
        assert(seq![u[i]] + (u.subrange(i + 1, u.len() as int) + replace_from(
            u + v,
            pat,
            to,
            u.len() as int,
        )) =~= u.subrange(i, u.len() as int) + replace_from(u + v, pat, to, u.len() as int));
    } else {
        assert(u.subrange(i, u.len() as int) =~= Seq::<char>::empty());
        assert(Seq::<char>::empty() + replace_from(u + v, pat, to, u.len() as int)
            =~= replace_from(u + v, pat, to, u.len() as int));
    }
}

/// Replacing passes over a first part that lacks the first character of
/// `pat`.
pub proof fn lemma_replace_after(u: Seq<char>, v: Seq<char>, pat: Seq<char>, to: Seq<char>)
    requires
        pat.len() > 0,
        lacks(u, pat[0]),
    ensures
        spec_replace(u + v, pat, to) == u + spec_replace(v, pat, to),
{
    lemma_replace_copies(u, v, pat, to, 0);
    lemma_replace_shift(u, v, pat, to, 0);
    assert(u.subrange(0, u.len() as int) =~= u);
}

/// Replacing leaves a text that lacks the first character of `pat` as it
/// is.
pub proof fn lemma_replace_nothing(u: Seq<char>, pat: Seq<char>, to: Seq<char>)
    requires
        pat.len() > 0,
        lacks(u, pat[0]),
    ensures
        spec_replace(u, pat, to) == u,
{
    lemma_replace_after(u, Seq::empty(), pat, to);
    assert(u + Seq::<char>::empty() =~= u);
}

/// Replacing turns `pat` at the start into `to`.
pub proof fn lemma_replace_hit(v: Seq<char>, pat: Seq<char>, to: Seq<char>)
    requires
        pat.len() > 0,
    ensures
        spec_replace(pat + v, pat, to) == to + spec_replace(v, pat, to),
{
    assert((pat + v).subrange(0, pat.len() as int) =~= pat);
    lemma_replace_shift(pat, v, pat, to, 0);
}

/// Replacing copies the first character where `pat` does not stand at the
/// start.
pub proof fn lemma_replace_miss(s: Seq<char>, pat: Seq<char>, to: Seq<char>)
    requires
        s.len() > 0,
        !occurs_at(s, pat, 0),
    ensures
        spec_replace(s, pat, to) == seq![s[0]] + spec_replace(s.skip(1), pat, to),
{
    assert(seq![s[0]] + s.skip(1) =~= s);
    lemma_replace_shift(seq![s[0]], s.skip(1), pat, to, 0);
}

/// Splitting `u + v` from places in `v` on is splitting `v`.
pub proof fn lemma_split_shift(
    u: Seq<char>,
    v: Seq<char>,
    sep: Seq<char>,
    start: int,
    i: int,
)
    requires
        sep.len() > 0,
        0 <= start <= i,
        start <= v.len(),
    ensures
        split_from(u + v, sep, u.len() + start, u.len() + i) == split_from(v, sep, start, i),
    decreases v.len() - i,
{
    if i + sep.len() > v.len() {
        assert((u + v).subrange(u.len() + start, (u + v).len() as int) =~= v.subrange(
            start,
            v.len() as int,
        ));
    } else {
        lemma_occurs_shift(u, v, sep, i);
        if occurs_at(v, sep, i) {
            assert((u + v).subrange(u.len() + start, u.len() + i) =~= v.subrange(start, i));
            lemma_split_shift(u, v, sep, i + sep.len(), i + sep.len());
        } else {
            lemma_split_shift(u, v, sep, start, i + 1);
        }
    }
}

/// The search for a separator passes over a first part that lacks its first
/// character.
pub proof fn lemma_split_passes(u: Seq<char>, v: Seq<char>, sep: Seq<char>, i: int)
    requires
        sep.len() > 0,
        lacks(u, sep[0]),
        0 <= i <= u.len(),
    ensures
        split_from(u + v, sep, 0, i) == split_from(u + v, sep, 0, u.len() as int),
    decreases u.len() - i,
{
    if i < u.len() {
        if i + sep.len() > (u + v).len() {
        } else {
            lemma_no_occurrence_inside(u, v, sep, i);
            lemma_split_passes(u, v, sep, i + 1);
        }
    }
}

/// A text that lacks the first character of the separator is one piece.
pub proof fn lemma_split_one(u: Seq<char>, sep: Seq<char>)
    requires
        sep.len() > 0,
        lacks(u, sep[0]),
    ensures
        spec_split(u, sep) == seq![u],
{
    lemma_split_passes(u, Seq::empty(), sep, 0);
    assert(u + Seq::<char>::empty() =~= u);
    assert(u.subrange(0, u.len() as int) =~= u);
}

/// The first piece of `u + sep + v` is `u`, where `u` lacks the first
/// character of the separator; the other pieces are those of `v`.
pub proof fn lemma_split_first(u: Seq<char>, v: Seq<char>, sep: Seq<char>)
    requires
        sep.len() > 0,
        lacks(u, sep[0]),
    ensures
        spec_split(u + sep + v, sep) == seq![u] + spec_split(v, sep),
{
    let s = u + sep + v;
    assert(s =~= u + (sep + v));
    lemma_split_passes(u, sep + v, sep, 0);
    assert(s.subrange(u.len() as int, u.len() as int + sep.len()) =~= sep);
    assert(occurs_at(s, sep, u.len() as int));
    assert(s.subrange(0, u.len() as int) =~= u);
    lemma_split_shift(u + sep, v, sep, 0, 0);
}

/// Trimming leaves a text as it is where neither its first nor its last
/// character is white space.
pub proof fn lemma_trim_keeps(s: Seq<char>)
    requires
        s.len() > 0 ==> !is_white_space(s[0]) && !is_white_space(s.last()),
    ensures
        spec_trim(s) == s,
{
    assert(skip_white_space(s, 0) == 0);
    assert(back_over_white_space(s, 0, s.len() as int) == s.len());
    assert(s.subrange(0, s.len() as int) =~= s);
}

/// Skipping white space ends inside the text or at its end, on a character
/// that is not white space.
pub proof fn lemma_skip_white_space(s: Seq<char>, i: int)
    requires
        0 <= i <= s.len(),
    ensures
        i <= skip_white_space(s, i) <= s.len(),
        skip_white_space(s, i) < s.len() ==> !is_white_space(s[skip_white_space(s, i)]),
    decreases s.len() - i,
{
    if i < s.len() && is_white_space(s[i]) {
        lemma_skip_white_space(s, i + 1);
    }
}

/// Going back over white space ends at or behind `lo`, behind a character
/// that is not white space.
pub proof fn lemma_back_over_white_space(s: Seq<char>, lo: int, j: int)
    requires
        0 <= lo <= j <= s.len(),
    ensures
        lo <= back_over_white_space(s, lo, j) <= j,
        lo < back_over_white_space(s, lo, j) ==> !is_white_space(
            s[back_over_white_space(s, lo, j) - 1],
        ),
    decreases j,
{
    if lo < j && is_white_space(s[j - 1]) {
        lemma_back_over_white_space(s, lo, j - 1);
    }
}

/// A trimmed text is empty or begins and ends with a character that is not
/// white space, so trimming it again changes nothing.
pub proof fn lemma_trim_twice(s: Seq<char>)
    ensures
        spec_trim(spec_trim(s)) == spec_trim(s),
        spec_trim(s).len() > 0 ==> !is_white_space(spec_trim(s)[0]) && !is_white_space(
            spec_trim(s).last(),
        ),
{
    lemma_skip_white_space(s, 0);
    let a = skip_white_space(s, 0);
    lemma_back_over_white_space(s, a, s.len() as int);
    lemma_trim_keeps(spec_trim(s));
}

} // verus!
