//! Sentences: terminal marks and the split of an answer into its two
//! sentences.

use vstd::prelude::*;
use crate::text::{
    copy_range,
    from_chars,
    remove_white_space,
    spec_split,
    spec_trim,
    split_chars,
    to_chars,
    trim_chars,
    views_of,
    without_white_space,
};

verus! {

/// The marks that may end a sentence.
pub open spec fn is_terminal_mark(c: char) -> bool {
    c == '。' || c == '.' || c == '!' || c == '！' || c == '?' || c == '？'
}

/// Whether `c` may end a sentence.
pub fn char_is_terminal_mark(c: char) -> (b: bool)
    ensures
        b == is_terminal_mark(c),
{
    c == '。' || c == '.' || c == '!' || c == '！' || c == '?' || c == '？'
}

/// `s` without one terminal mark at its end, if it ends with one.
pub open spec fn strip_terminal_mark(s: Seq<char>) -> Seq<char> {
    if s.len() > 0 && is_terminal_mark(s.last()) {
        s.drop_last()
    } else {
        s
    }
}

/// `s` trimmed, without one terminal mark at its end, and trimmed again.
pub open spec fn spec_trim_sentence(s: Seq<char>) -> Seq<char> {
    spec_trim(strip_terminal_mark(spec_trim(s)))
}

/// `v` without one terminal mark at its end, if it ends with one.
pub fn strip_terminal_chars(v: &Vec<char>) -> (r: Vec<char>)
    ensures
        r@ == strip_terminal_mark(v@),
{
    if v.len() > 0 && char_is_terminal_mark(v[v.len() - 1]) {
        copy_range(v, 0, v.len() - 1)
    } else {
        let r = copy_range(v, 0, v.len());
        assert(v@.subrange(0, v.len() as int) == v@);
        r
    }
}

/// `v` trimmed, without one terminal mark at its end, and trimmed again.
pub fn trim_sentence_chars(v: &Vec<char>) -> (r: Vec<char>)
    ensures
        r@ == spec_trim_sentence(v@),
{
    let t = trim_chars(v);
    let s = strip_terminal_chars(&t);
    trim_chars(&s)
}

/// `s` trimmed, without one terminal mark at its end, and trimmed again.
pub fn trim_sentence_trailing_punct(s: &str) -> (r: String)
    ensures
        r@ == spec_trim_sentence(s@),
{
    let v = to_chars(s);
    let r = trim_sentence_chars(&v);
    from_chars(&r)
}

/// `s` without its white space, for comparisons that pass over spacing.
pub fn normalize_for_compare(s: &str) -> (r: String)
    ensures
        r@ == without_white_space(s@),
{
    let v = to_chars(s);
    let r = remove_white_space(&v);
    from_chars(&r)
}

/// The full stop in place of an exclamation or a question mark; any other
/// character is kept.
pub open spec fn canonical_mark(c: char) -> char {
    if c == '!' || c == '！' || c == '?' || c == '？' {
        '。'
    } else {
        c
    }
}

/// `s` with each exclamation and question mark turned into a full stop.
pub open spec fn canonical_marks(s: Seq<char>) -> Seq<char> {
    Seq::new(s.len(), |i: int| canonical_mark(s[i]))
}

/// The first `n` of `parts`, each trimmed, without those that are empty once
/// trimmed.
pub open spec fn kept_fragments(parts: Seq<Seq<char>>, n: int) -> Seq<Seq<char>>
    decreases n,
{
    if n <= 0 {
        Seq::empty()
    } else if spec_trim(parts[n - 1]).len() > 0 {
        kept_fragments(parts, n - 1).push(spec_trim(parts[n - 1]))
    } else {
        kept_fragments(parts, n - 1)
    }
}

/// The full stop as a separator.
pub open spec fn full_stop() -> Seq<char> {
    seq!['。']
}

/// The sentences of `text`: the text is trimmed, its exclamation and
/// question marks become full stops, one terminal mark at its end is
/// dropped, and what is left is cut at each full stop; the pieces are
/// trimmed and the empty ones left out.
pub open spec fn sentence_fragments(text: Seq<char>) -> Seq<Seq<char>> {
    let canonical = canonical_marks(spec_trim(text));
    let body = spec_trim(strip_terminal_mark(canonical));
    let parts = spec_split(body, full_stop());
    kept_fragments(parts, parts.len() as int)
}

/// The two sentences of `text`, or `None` where it does not hold exactly
/// two.
pub open spec fn spec_split_two(text: Seq<char>) -> Option<(Seq<char>, Seq<char>)> {
    let fragments = sentence_fragments(text);
    if fragments.len() == 2 {
        Some((fragments[0], fragments[1]))
    } else {
        None
    }
}

/// The sentences of `text`.
pub fn sentence_fragments_chars(text: &Vec<char>) -> (r: Vec<Vec<char>>)
    ensures
        views_of(r@) == sentence_fragments(text@),
{
    let trimmed = trim_chars(text);
    let mut canonical: Vec<char> = Vec::new();
    let mut i: usize = 0;
    while i < trimmed.len()
        invariant
            i <= trimmed.len(),
            canonical@ == canonical_marks(trimmed@).subrange(0, i as int),
        decreases trimmed.len() - i,
    {
        let c = trimmed[i];
        if c == '!' || c == '！' || c == '?' || c == '？' {
            canonical.push('。');
        } else {
            canonical.push(c);
        }
        i += 1;
    }
    assert(canonical@ == canonical_marks(trimmed@));
    let stripped = strip_terminal_chars(&canonical);
    let body = trim_chars(&stripped);
    let stop: Vec<char> = vec!['。'];
    assert(stop@ == full_stop());
    let parts = split_chars(&body, &stop);
    let ghost pieces = views_of(parts@);
    let mut kept: Vec<Vec<char>> = Vec::new();
    let mut k: usize = 0;
    while k < parts.len()
        invariant
            k <= parts.len(),
            pieces == views_of(parts@),
            views_of(kept@) == kept_fragments(pieces, k as int),
        decreases parts.len() - k,
    {
        let ghost before = views_of(kept@);
        assert(pieces[k as int] == parts@[k as int]@);
        let piece = trim_chars(&parts[k]);
        if piece.len() > 0 {
            kept.push(piece);
            assert(views_of(kept@) == before.push(piece@));
        }
        k += 1;
    }
    kept
}

/// The two sentences of `text`, or `None` where it does not hold exactly
/// two.
pub fn split_two_chars(text: &Vec<char>) -> (r: Option<(Vec<char>, Vec<char>)>)
    ensures
        match r {
            Some(pair) => spec_split_two(text@) == Some((pair.0@, pair.1@)),
            None => spec_split_two(text@) is None,
        },
{
    let kept = sentence_fragments_chars(text);
    if kept.len() != 2 {
        return None;
    }
    let ghost fragments = views_of(kept@);
    assert(fragments[0] == kept@[0]@);
    assert(fragments[1] == kept@[1]@);
    let second = copy_range(&kept[1], 0, kept[1].len());
    let first = copy_range(&kept[0], 0, kept[0].len());
    assert(first@ == kept@[0]@);
    assert(second@ == kept@[1]@);
    Some((first, second))
}

/// The two sentences of `text`, or `None` where it does not hold exactly
/// two.
pub fn split_two_sentences(text: &str) -> (r: Option<(String, String)>)
    ensures
        match r {
            Some(pair) => spec_split_two(text@) == Some((pair.0@, pair.1@)),
            None => spec_split_two(text@) is None,
        },
{
    let v = to_chars(text);
    match split_two_chars(&v) {
        Some(pair) => Some((from_chars(&pair.0), from_chars(&pair.1))),
        None => None,
    }
}

} // verus!
