//! Text as sequences of characters.
//!
//! Every rule of this crate is stated over `Seq<char>`, the view of `str` and
//! `String`. The executable functions work on `Vec<char>` and are proved
//! against the spec functions of the same module.

use vstd::prelude::*;

verus! {

/// Trusted: `String::push` of the standard library. The contract says that
/// the pushed character becomes the last one and the others stay.
pub assume_specification[ String::push ](s: &mut String, ch: char)
    ensures
        final(s)@ == old(s)@.push(ch),
;

/// The lowercase form of a text by the case mappings of Unicode.
pub uninterp spec fn lowercase_of(s: Seq<char>) -> Seq<char>;

/// Trusted: `str::to_lowercase` of the standard library. The contract names
/// the result and states no more: it is the lowercase form of the argument by
/// the tables of Unicode, the same for the same text on every machine.
#[verifier::external_body]
pub(crate) fn to_lowercase(s: &str) -> (r: String)
    ensures
        r@ == lowercase_of(s@),
{
    s.to_lowercase()
}

/// The views of a list of character vectors.
pub open spec fn views_of(parts: Seq<Vec<char>>) -> Seq<Seq<char>> {
    Seq::new(parts.len(), |i: int| parts[i]@)
}

/// The views of a list of strings.
pub open spec fn texts_of(items: Seq<String>) -> Seq<Seq<char>> {
    Seq::new(items.len(), |i: int| items[i]@)
}

/// The views of a list of string slices.
pub open spec fn strs_of(items: Seq<&'static str>) -> Seq<Seq<char>> {
    Seq::new(items.len(), |i: int| items[i]@)
}

/// The characters of a string slice, in order.
pub fn to_chars(s: &str) -> (v: Vec<char>)
    ensures
        v@ == s@,
{
    let mut v: Vec<char> = Vec::new();
    for c in it: s.chars()
        invariant
            it.seq() == s@,
            v@ == it.seq().subrange(0, it.index()),
    {
        v.push(c);
    }
    v
}

/// The string made of the characters of `v`, in order.
pub fn from_chars(v: &Vec<char>) -> (s: String)
    ensures
        s@ == v@,
{
    let mut s = String::new();
    let mut i: usize = 0;
    while i < v.len()
        invariant
            i <= v.len(),
            s@ == v@.subrange(0, i as int),
        decreases v.len() - i,
    {
        s.push(v[i]);
        i += 1;
    }
    assert(v@.subrange(0, v.len() as int) == v@);
    s
}

/// Appends the characters of `s` to `out`.
pub fn push_str(out: &mut Vec<char>, s: &str)
    ensures
        final(out)@ == old(out)@ + s@,
{
    let ghost before = out@;
    for c in it: s.chars()
        invariant
            it.seq() == s@,
            out@ == before + it.seq().subrange(0, it.index()),
    {
        out.push(c);
    }
}

/// Appends the characters of `v` to `out`.
pub fn push_chars(out: &mut Vec<char>, v: &Vec<char>)
    ensures
        final(out)@ == old(out)@ + v@,
{
    let ghost before = out@;
    let mut i: usize = 0;
    while i < v.len()
        invariant
            i <= v.len(),
            out@ == before + v@.subrange(0, i as int),
        decreases v.len() - i,
    {
        out.push(v[i]);
        i += 1;
    }
    assert(v@.subrange(0, v.len() as int) == v@);
}

/// The characters of `v` from `start` up to `end`.
pub fn copy_range(v: &Vec<char>, start: usize, end: usize) -> (r: Vec<char>)
    requires
        start <= end <= v.len(),
    ensures
        r@ == v@.subrange(start as int, end as int),
{
    let mut r: Vec<char> = Vec::new();
    let mut i: usize = start;
    while i < end
        invariant
            start <= i <= end <= v.len(),
            r@ == v@.subrange(start as int, i as int),
        decreases end - i,
    {
        r.push(v[i]);
        i += 1;
    }
    r
}

/// Whether two character vectors hold the same text.
pub fn same_chars(a: &Vec<char>, b: &Vec<char>) -> (r: bool)
    ensures
        r == (a@ == b@),
{
    if a.len() != b.len() {
        return false;
    }
    let mut i: usize = 0;
    while i < a.len()
        invariant
            i <= a.len(),
            a.len() == b.len(),
            a@.subrange(0, i as int) == b@.subrange(0, i as int),
        decreases a.len() - i,
    {
        if a[i] != b[i] {
            return false;
        }
        assert(a@.subrange(0, i + 1) == a@.subrange(0, i as int).push(a@[i as int]));
        assert(b@.subrange(0, i + 1) == b@.subrange(0, i as int).push(b@[i as int]));
        i += 1;
    }
    assert(a@.subrange(0, a.len() as int) == a@);
    assert(b@.subrange(0, b.len() as int) == b@);
    true
}

/// Whether two string slices hold the same text.
pub fn same_text(a: &str, b: &str) -> (r: bool)
    ensures
        r == (a@ == b@),
{
    let va = to_chars(a);
    let vb = to_chars(b);
    same_chars(&va, &vb)
}

/// The characters with the Unicode property White_Space.
pub open spec fn is_white_space(c: char) -> bool {
    ||| ('\u{9}' <= c && c <= '\u{d}')
    ||| c == ' '
    ||| c == '\u{85}'
    ||| c == '\u{a0}'
    ||| c == '\u{1680}'
    ||| ('\u{2000}' <= c && c <= '\u{200a}')
    ||| c == '\u{2028}'
    ||| c == '\u{2029}'
    ||| c == '\u{202f}'
    ||| c == '\u{205f}'
    ||| c == '\u{3000}'
}

/// Whether `c` is white space.
pub fn char_is_white_space(c: char) -> (b: bool)
    ensures
        b == is_white_space(c),
{
    (c >= '\u{9}' && c <= '\u{d}') || c == ' ' || c == '\u{85}' || c == '\u{a0}' || c
        == '\u{1680}' || (c >= '\u{2000}' && c <= '\u{200a}') || c == '\u{2028}' || c
        == '\u{2029}' || c == '\u{202f}' || c == '\u{205f}' || c == '\u{3000}'
}

/// The first position at or after `i` that holds no white space.
pub open spec fn skip_white_space(s: Seq<char>, i: int) -> int
    decreases s.len() - i,
{
    if 0 <= i < s.len() && is_white_space(s[i]) {
        skip_white_space(s, i + 1)
    } else {
        i
    }
}

/// The end of the text that is left of `s[lo..j]` once the white space at its
/// end is dropped.
pub open spec fn back_over_white_space(s: Seq<char>, lo: int, j: int) -> int
    decreases j,
{
    if 0 <= lo < j <= s.len() && is_white_space(s[j - 1]) {
        back_over_white_space(s, lo, j - 1)
    } else {
        j
    }
}

/// `s` without the white space at its two ends.
pub open spec fn spec_trim(s: Seq<char>) -> Seq<char> {
    let a = skip_white_space(s, 0);
    let b = back_over_white_space(s, a, s.len() as int);
    s.subrange(a, b)
}

/// The bounds of the trimmed text inside `v`.
pub fn trim_bounds(v: &Vec<char>) -> (r: (usize, usize))
    ensures
        r.0 <= r.1 <= v.len(),
        r.0 == skip_white_space(v@, 0),
        r.1 == back_over_white_space(v@, r.0 as int, v.len() as int),
        v@.subrange(r.0 as int, r.1 as int) == spec_trim(v@),
{
    let mut a: usize = 0;
    while a < v.len() && char_is_white_space(v[a])
        invariant
            a <= v.len(),
            skip_white_space(v@, a as int) == skip_white_space(v@, 0),
        decreases v.len() - a,
    {
        a += 1;
    }
    let mut b: usize = v.len();
    while a < b && char_is_white_space(v[b - 1])
        invariant
            a <= b <= v.len(),
            back_over_white_space(v@, a as int, b as int) == back_over_white_space(
                v@,
                a as int,
                v.len() as int,
            ),
        decreases b,
    {
        b -= 1;
    }
    (a, b)
}

/// `v` without the white space at its two ends.
pub fn trim_chars(v: &Vec<char>) -> (r: Vec<char>)
    ensures
        r@ == spec_trim(v@),
{
    let (a, b) = trim_bounds(v);
    copy_range(v, a, b)
}

/// `s` without its white space.
pub open spec fn without_white_space(s: Seq<char>) -> Seq<char> {
    s.filter(|c: char| !is_white_space(c))
}

/// `v` without its white space.
pub fn remove_white_space(v: &Vec<char>) -> (r: Vec<char>)
    ensures
        r@ == without_white_space(v@),
{
    let mut r: Vec<char> = Vec::new();
    let mut i: usize = 0;
    proof {
        reveal(Seq::filter);
        assert(v@.subrange(0, 0).len() == 0);
    }
    while i < v.len()
        invariant
            i <= v.len(),
            r@ == without_white_space(v@.subrange(0, i as int)),
        decreases v.len() - i,
    {
        proof {
            let p = |c: char| !is_white_space(c);
            v@.subrange(0, i as int).lemma_filter_push(v@[i as int], p);
            assert(v@.subrange(0, i + 1) == v@.subrange(0, i as int).push(v@[i as int]));
        }
        if !char_is_white_space(v[i]) {
            r.push(v[i]);
        }
        i += 1;
    }
    assert(v@.subrange(0, v.len() as int) == v@);
    r
}

/// Whether `pat` stands in `text` at position `i`.
pub open spec fn occurs_at(text: Seq<char>, pat: Seq<char>, i: int) -> bool {
    &&& 0 <= i
    &&& i + pat.len() <= text.len()
    &&& text.subrange(i, i + pat.len()) == pat
}

/// The first position at or after `from` where `pat` stands in `text`.
pub open spec fn spec_find(text: Seq<char>, pat: Seq<char>, from: int) -> Option<int>
    decreases text.len() + 1 - from,
{
    if from < 0 || from + pat.len() > text.len() {
        None
    } else if occurs_at(text, pat, from) {
        Some(from)
    } else {
        spec_find(text, pat, from + 1)
    }
}

/// Whether `pat` stands somewhere in `text`. The empty text stands in every
/// text.
pub open spec fn spec_contains(text: Seq<char>, pat: Seq<char>) -> bool {
    exists|i: int| occurs_at(text, pat, i)
}

/// `spec_find` gives the least position at or after `from` where `pat`
/// stands, and `None` exactly when there is none.
pub proof fn lemma_find_is_first(text: Seq<char>, pat: Seq<char>, from: int)
    requires
        0 <= from,
    ensures
        match spec_find(text, pat, from) {
            Some(i) => {
                &&& from <= i
                &&& occurs_at(text, pat, i)
                &&& forall|j: int| from <= j < i ==> !occurs_at(text, pat, j)
            },
            None => forall|j: int| from <= j ==> !occurs_at(text, pat, j),
        },
    decreases text.len() + 1 - from,
{
    if from + pat.len() > text.len() {
    } else if occurs_at(text, pat, from) {
    } else {
        lemma_find_is_first(text, pat, from + 1);
    }
}

/// Some occurrence exists exactly when the search from the start finds one.
pub proof fn lemma_contains_is_find(text: Seq<char>, pat: Seq<char>)
    ensures
        spec_contains(text, pat) <==> spec_find(text, pat, 0) is Some,
{
    lemma_find_is_first(text, pat, 0);
    if spec_find(text, pat, 0) is Some {
        assert(occurs_at(text, pat, spec_find(text, pat, 0).unwrap()));
    }
}

/// Whether `pat` stands in `text` at position `at`.
pub fn matches_at(text: &Vec<char>, pat: &Vec<char>, at: usize) -> (r: bool)
    ensures
        r == occurs_at(text@, pat@, at as int),
{
    if at > text.len() || pat.len() > text.len() - at {
        return false;
    }
    let mut k: usize = 0;
    while k < pat.len()
        invariant
            k <= pat.len(),
            at + pat.len() <= text.len(),
            forall|j: int| 0 <= j < k ==> text@[at + j] == pat@[j],
        decreases pat.len() - k,
    {
        if text[at + k] != pat[k] {
            assert(text@.subrange(at as int, at + pat.len())[k as int] != pat@[k as int]);
            return false;
        }
        k += 1;
    }
    assert(text@.subrange(at as int, at + pat.len()) =~= pat@);
    true
}

/// The first position at or after `from` where `pat` stands in `text`.
pub fn find_chars(text: &Vec<char>, pat: &Vec<char>, from: usize) -> (r: Option<usize>)
    ensures
        match r {
            Some(i) => spec_find(text@, pat@, from as int) == Some(i as int) && i + pat.len()
                <= text.len(),
            None => spec_find(text@, pat@, from as int) is None,
        },
{
    let mut i: usize = from;
    while i <= text.len() && pat.len() <= text.len() - i
        invariant
            from <= i,
            spec_find(text@, pat@, i as int) == spec_find(text@, pat@, from as int),
        decreases text.len() - i,
    {
        if matches_at(text, pat, i) {
            return Some(i);
        }
        assert(i < text.len()) by {
            if i == text.len() {
                assert(text@.subrange(i as int, i as int) =~= pat@);
            }
        }
        i += 1;
    }
    None
}

/// Whether `pat` stands somewhere in `text`.
pub fn contains_chars(text: &Vec<char>, pat: &Vec<char>) -> (r: bool)
    ensures
        r == spec_contains(text@, pat@),
{
    proof {
        lemma_contains_is_find(text@, pat@);
    }
    find_chars(text, pat, 0).is_some()
}

/// `s` from position `i` on, with every occurrence of `pat` replaced by `to`,
/// the occurrences taken from left to right and not overlapping.
pub open spec fn replace_from(s: Seq<char>, pat: Seq<char>, to: Seq<char>, i: int) -> Seq<char>
    decreases s.len() - i,
{
    if i < 0 || i >= s.len() {
        Seq::empty()
    } else if pat.len() > 0 && occurs_at(s, pat, i) {
        to + replace_from(s, pat, to, i + pat.len())
    } else {
        seq![s[i]] + replace_from(s, pat, to, i + 1)
    }
}

/// `s` with every occurrence of the non-empty `pat` replaced by `to`.
pub open spec fn spec_replace(s: Seq<char>, pat: Seq<char>, to: Seq<char>) -> Seq<char> {
    replace_from(s, pat, to, 0)
}

/// `text` with every occurrence of `pat` replaced by `to`.
pub fn replace_chars(text: &Vec<char>, pat: &Vec<char>, to: &Vec<char>) -> (r: Vec<char>)
    requires
        pat.len() > 0,
    ensures
        r@ == spec_replace(text@, pat@, to@),
{
    let mut r: Vec<char> = Vec::new();
    let mut i: usize = 0;
    while i < text.len()
        invariant
            i <= text.len(),
            pat.len() > 0,
            r@ + replace_from(text@, pat@, to@, i as int) == spec_replace(text@, pat@, to@),
        decreases text.len() - i,
    {
        let ghost rest = replace_from(text@, pat@, to@, i as int);
        let ghost before = r@;
        if matches_at(text, pat, i) {
            push_chars(&mut r, to);
            i += pat.len();
            assert(r@ + replace_from(text@, pat@, to@, i as int) == before + rest);
        } else {
            r.push(text[i]);
            i += 1;
            assert(r@ + replace_from(text@, pat@, to@, i as int) == before + rest);
        }
    }
    assert(r@ + Seq::<char>::empty() == r@);
    r
}

/// The pieces of `s` between the occurrences of `sep`, where the piece being
/// read begins at `start` and the search stands at `i`.
pub open spec fn split_from(s: Seq<char>, sep: Seq<char>, start: int, i: int) -> Seq<Seq<char>>
    decreases s.len() - i,
{
    if sep.len() == 0 || i < 0 || i + sep.len() > s.len() {
        seq![s.subrange(start, s.len() as int)]
    } else if occurs_at(s, sep, i) {
        seq![s.subrange(start, i)] + split_from(s, sep, i + sep.len(), i + sep.len())
    } else {
        split_from(s, sep, start, i + 1)
    }
}

/// The pieces of `s` between the occurrences of the non-empty `sep`, taken
/// from left to right and not overlapping. There is always at least one piece.
pub open spec fn spec_split(s: Seq<char>, sep: Seq<char>) -> Seq<Seq<char>> {
    split_from(s, sep, 0, 0)
}

/// The pieces of `text` between the occurrences of `sep`.
pub fn split_chars(text: &Vec<char>, sep: &Vec<char>) -> (r: Vec<Vec<char>>)
    requires
        sep.len() > 0,
    ensures
        views_of(r@) == spec_split(text@, sep@),
{
    let mut r: Vec<Vec<char>> = Vec::new();
    let mut start: usize = 0;
    let mut i: usize = 0;
    assert(views_of(r@) + split_from(text@, sep@, 0, 0) == spec_split(text@, sep@));
    while i <= text.len() && sep.len() <= text.len() - i
        invariant
            start <= i,
            start <= text.len(),
            sep.len() > 0,
            views_of(r@) + split_from(text@, sep@, start as int, i as int) == spec_split(
                text@,
                sep@,
            ),
        decreases text.len() - i,
    {
        let ghost rest = split_from(text@, sep@, start as int, i as int);
        let ghost before = views_of(r@);
        if matches_at(text, sep, i) {
            let piece = copy_range(text, start, i);
            r.push(piece);
            i += sep.len();
            start = i;
            assert(views_of(r@) == before.push(piece@));
            assert(views_of(r@) + split_from(text@, sep@, start as int, i as int) == before
                + rest);
        } else {
            i += 1;
        }
    }
    let ghost before = views_of(r@);
    let last = copy_range(text, start, text.len());
    r.push(last);
    assert(views_of(r@) == before.push(last@));
    assert(before.push(last@) == before + seq![last@]);
    r
}

/// The texts of `parts` with `sep` between each two neighbours.
pub open spec fn spec_join(parts: Seq<Seq<char>>, sep: Seq<char>) -> Seq<char>
    decreases parts.len(),
{
    if parts.len() == 0 {
        Seq::empty()
    } else if parts.len() == 1 {
        parts[0]
    } else {
        spec_join(parts.drop_last(), sep) + sep + parts.last()
    }
}

/// The texts of `parts` with `sep` between each two neighbours.
pub fn join_chars(parts: &Vec<Vec<char>>, sep: &str) -> (r: Vec<char>)
    ensures
        r@ == spec_join(views_of(parts@), sep@),
{
    let mut r: Vec<char> = Vec::new();
    let mut i: usize = 0;
    while i < parts.len()
        invariant
            i <= parts.len(),
            r@ == spec_join(views_of(parts@).subrange(0, i as int), sep@),
        decreases parts.len() - i,
    {
        proof {
            let all = views_of(parts@);
            let next = all.subrange(0, i + 1);
            assert(next.drop_last() == all.subrange(0, i as int));
            assert(next.last() == parts@[i as int]@);
        }
        if i > 0 {
            push_str(&mut r, sep);
        }
        push_chars(&mut r, &parts[i]);
        i += 1;
    }
    assert(views_of(parts@).subrange(0, parts.len() as int) == views_of(parts@));
    r
}

} // verus!
