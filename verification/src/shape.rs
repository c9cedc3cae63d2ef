//! The shape that the patterns of the catalog share, and what follows from
//! it for the sentences that are rendered from them.
//!
//! A shaped pattern has a template of the form `pre {A} mid {B}` or
//! `pre {B} mid {A}` and the structural expression `^pre.+mid.+$`, where
//! `pre` and `mid` are plain texts, `mid` is not empty, and every strong
//! marker stands in `pre` or in `mid`.

use vstd::prelude::*;
use crate::catalog::PatternView;
use crate::coreplus::{
    first_missing_marker,
    pattern_verdict,
    placeholder_a,
    placeholder_b,
    spec_render,
    StepView,
};
use crate::matcher::{
    all_chunks_empty,
    anchored_at_end,
    anchored_at_start,
    pattern_body,
    pattern_chunks,
    pins_first_chunk,
    pins_last_chunk,
    scan_chunks,
    spec_ends_with,
    spec_starts_with,
    spec_structural_match,
    wildcard,
};
use crate::sampler::step_of;
use crate::sentence::{
    canonical_marks,
    full_stop,
    is_terminal_mark,
    kept_fragments,
    sentence_fragments,
    spec_split_two,
    spec_trim_sentence,
    strip_terminal_mark,
};
use crate::text::{is_white_space, occurs_at, spec_contains, spec_split, spec_trim};
use crate::text_lemmas::{
    lacks,
    lemma_contains_in_middle,
    lemma_contains_self,
    lemma_find_reaches,
    lemma_lacks_concat,
    lemma_no_occurrence_inside,
    lemma_occurs_in_prefix,
    lemma_occurs_shift,
    lemma_replace_after,
    lemma_replace_hit,
    lemma_replace_miss,
    lemma_replace_nothing,
    lemma_split_first,
    lemma_split_one,
    lemma_trim_keeps,
};

verus! {

/// A plain character: no white space, no terminal mark, no opening brace.
pub open spec fn is_plain_char(c: char) -> bool {
    !is_white_space(c) && !is_terminal_mark(c) && c != '{'
}

/// A plain text: made of plain characters only.
pub open spec fn is_plain(s: Seq<char>) -> bool {
    forall|i: int| 0 <= i < s.len() ==> is_plain_char(#[trigger] s[i])
}

/// Two plain texts written one after the other are a plain text.
pub proof fn lemma_plain_concat(u: Seq<char>, v: Seq<char>)
    requires
        is_plain(u),
        is_plain(v),
    ensures
        is_plain(u + v),
{
    assert forall|i: int| 0 <= i < (u + v).len() implies is_plain_char(#[trigger] (u + v)[i]) by {
        if i < u.len() {
            assert((u + v)[i] == u[i]);
        } else {
            assert((u + v)[i] == v[i - u.len()]);
        }
    }
}

/// A plain text lacks the opening brace, the full stop and the period.
pub proof fn lemma_plain_lacks(s: Seq<char>)
    requires
        is_plain(s),
    ensures
        lacks(s, '{'),
        lacks(s, '。'),
        lacks(s, '.'),
{
    assert forall|i: int| 0 <= i < s.len() implies #[trigger] s[i] != '{' by {
        assert(is_plain_char(s[i]));
    }
    assert forall|i: int| 0 <= i < s.len() implies #[trigger] s[i] != '。' by {
        assert(is_plain_char(s[i]));
    }
    assert forall|i: int| 0 <= i < s.len() implies #[trigger] s[i] != '.' by {
        assert(is_plain_char(s[i]));
    }
}

/// The placeholder that comes first in a shaped template.
pub open spec fn first_hole(a_first: bool) -> Seq<char> {
    if a_first {
        placeholder_a()
    } else {
        placeholder_b()
    }
}

/// The placeholder that comes second in a shaped template.
pub open spec fn second_hole(a_first: bool) -> Seq<char> {
    if a_first {
        placeholder_b()
    } else {
        placeholder_a()
    }
}

/// The shaped template of `pre` and `mid`.
pub open spec fn shaped_template(pre: Seq<char>, mid: Seq<char>, a_first: bool) -> Seq<char> {
    pre + first_hole(a_first) + mid + second_hole(a_first)
}

/// The shaped structural expression of `pre` and `mid`.
pub open spec fn shaped_expression(pre: Seq<char>, mid: Seq<char>) -> Seq<char> {
    seq!['^'] + pre + wildcard() + mid + wildcard() + seq!['$']
}

/// The sentence that a shaped template gives on `a` and `b`.
pub open spec fn shaped_sentence(
    pre: Seq<char>,
    mid: Seq<char>,
    a_first: bool,
    a: Seq<char>,
    b: Seq<char>,
) -> Seq<char> {
    if a_first {
        pre + a + mid + b
    } else {
        pre + b + mid + a
    }
}

/// Whether `p` is shaped by `pre` and `mid`.
pub open spec fn pattern_shaped(p: PatternView, pre: Seq<char>, mid: Seq<char>, a_first: bool)
    -> bool {
    &&& is_plain(pre)
    &&& is_plain(mid)
    &&& mid.len() > 0
    &&& p.tpl == shaped_template(pre, mid, a_first)
    &&& p.check_regex == shaped_expression(pre, mid)
    &&& forall|k: int|
        0 <= k < p.strong_markers.len() ==> spec_contains(pre, #[trigger] p.strong_markers[k])
            || spec_contains(mid, p.strong_markers[k])
}

/// Whether `p` is a shaped pattern.
pub open spec fn well_shaped(p: PatternView) -> bool {
    exists|pre: Seq<char>, mid: Seq<char>, a_first: bool| pattern_shaped(p, pre, mid, a_first)
}

/// Rendering a shaped template puts the two texts in the places of the
/// placeholders, where no part holds an opening brace.
pub proof fn lemma_render_shaped(
    pre: Seq<char>,
    mid: Seq<char>,
    a_first: bool,
    a: Seq<char>,
    b: Seq<char>,
)
    requires
        lacks(pre, '{'),
        lacks(mid, '{'),
        lacks(a, '{'),
        lacks(b, '{'),
    ensures
        spec_render(shaped_template(pre, mid, a_first), a, b) == shaped_sentence(
            pre,
            mid,
            a_first,
            a,
            b,
        ),
{
    let pa = placeholder_a();
    let pb = placeholder_b();
    let none = Seq::<char>::empty();
    let tail = seq!['B', '}'];
    assert(lacks(tail, '{'));
    assert(pb =~= seq!['{'] + tail);
    if a_first {
        // `{A}` gives way to `a`; `{B}` is copied.
        let tpl = pre + pa + mid + pb;
        assert(tpl =~= pre + (pa + (mid + pb)));
        lemma_replace_after(pre, pa + (mid + pb), pa, a);
        lemma_replace_hit(mid + pb, pa, a);
        lemma_replace_after(mid, pb, pa, a);
        assert(!occurs_at(pb, pa, 0)) by {
            if occurs_at(pb, pa, 0) {
                assert(pb.subrange(0, 3)[1] == pa[1]);
            }
        }
        lemma_replace_miss(pb, pa, a);
        assert(pb.skip(1) =~= tail);
        lemma_replace_nothing(tail, pa, a);
        let step = pre + a + mid + pb;
        assert(crate::text::spec_replace(tpl, pa, a) =~= step);
        // `{B}` gives way to `b`.
        lemma_lacks_concat(pre, a, '{');
        lemma_lacks_concat(pre + a, mid, '{');
        assert(step =~= (pre + a + mid) + (pb + none));
        lemma_replace_after(pre + a + mid, pb + none, pb, b);
        lemma_replace_hit(none, pb, b);
        assert(crate::text::spec_replace(none, pb, b) =~= none);
        assert(crate::text::spec_replace(step, pb, b) =~= pre + a + mid + b);
    } else {
        // `{B}` is copied; `{A}` gives way to `a`.
        let tpl = pre + pb + mid + pa;
        let rest = pb + mid + pa;
        assert(tpl =~= pre + rest);
        lemma_replace_after(pre, rest, pa, a);
        assert(!occurs_at(rest, pa, 0)) by {
            if occurs_at(rest, pa, 0) {
                assert(rest.subrange(0, 3)[1] == pa[1]);
            }
        }
        lemma_replace_miss(rest, pa, a);
        assert(rest.skip(1) =~= (tail + mid) + (pa + none));
        lemma_lacks_concat(tail, mid, '{');
        lemma_replace_after(tail + mid, pa + none, pa, a);
        lemma_replace_hit(none, pa, a);
        assert(crate::text::spec_replace(none, pa, a) =~= none);
        let step = pre + pb + mid + a;
        assert(crate::text::spec_replace(tpl, pa, a) =~= step);
        // `{B}` gives way to `b`.
        assert(step =~= pre + (pb + (mid + a)));
        lemma_replace_after(pre, pb + (mid + a), pb, b);
        lemma_replace_hit(mid + a, pb, b);
        lemma_lacks_concat(mid, a, '{');
        lemma_replace_nothing(mid + a, pb, b);
        assert(crate::text::spec_replace(step, pb, b) =~= pre + b + mid + a);
    }
}

/// A plain text that is not empty is a sentence as it stands: trimming it
/// and taking a terminal mark from its end change nothing.
pub proof fn lemma_plain_sentence_kept(s: Seq<char>)
    requires
        is_plain(s),
    ensures
        spec_trim(s) == s,
        spec_trim_sentence(s) == s,
{
    if s.len() > 0 {
        assert(is_plain_char(s[0]));
        assert(is_plain_char(s.last()));
    }
    lemma_trim_keeps(s);
}

/// Two plain sentences with a full stop between them are read back as those
/// two sentences.
pub proof fn lemma_two_plain_sentences(s1: Seq<char>, s2: Seq<char>)
    requires
        is_plain(s1),
        is_plain(s2),
        s1.len() > 0,
        s2.len() > 0,
    ensures
        spec_trim(s1 + full_stop() + s2) == s1 + full_stop() + s2,
        sentence_fragments(s1 + full_stop() + s2) == seq![s1, s2],
        spec_split_two(s1 + full_stop() + s2) == Some((s1, s2)),
{
    let text = s1 + full_stop() + s2;
    assert(is_plain_char(s1[0]));
    assert(is_plain_char(s2.last()));
    assert(text[0] == s1[0]);
    assert(text.last() == s2.last());
    lemma_trim_keeps(text);
    assert(canonical_marks(text) =~= text) by {
        assert forall|i: int| 0 <= i < text.len() implies canonical_marks(text)[i] == text[i] by {
            if i < s1.len() {
                assert(text[i] == s1[i]);
                assert(is_plain_char(s1[i]));
            } else if i == s1.len() {
                assert(text[i] == '。');
            } else {
                assert(text[i] == s2[i - s1.len() - 1]);
                assert(is_plain_char(s2[i - s1.len() - 1]));
            }
        }
    }
    assert(strip_terminal_mark(text) == text);
    lemma_plain_lacks(s1);
    lemma_plain_lacks(s2);
    lemma_split_first(s1, s2, full_stop());
    lemma_split_one(s2, full_stop());
    let parts = spec_split(text, full_stop());
    assert(parts =~= seq![s1, s2]);
    lemma_plain_sentence_kept(s1);
    lemma_plain_sentence_kept(s2);
    reveal_with_fuel(kept_fragments, 3);
    assert(kept_fragments(parts, 2) =~= seq![s1, s2]);
}

/// The sentence of a shaped template satisfies the shaped structural
/// expression, whatever stands in the places of the placeholders.
pub proof fn lemma_shaped_expression_matches(
    pre: Seq<char>,
    mid: Seq<char>,
    x: Seq<char>,
    y: Seq<char>,
)
    requires
        is_plain(pre),
        is_plain(mid),
        mid.len() > 0,
    ensures
        spec_structural_match(shaped_expression(pre, mid), pre + x + mid + y),
{
    let w = wildcard();
    let none = Seq::<char>::empty();
    let regex = shaped_expression(pre, mid);
    let text = pre + x + mid + y;
    lemma_plain_lacks(pre);
    lemma_plain_lacks(mid);
    // The expression, read.
    assert(regex[0] == '^');
    assert(regex.last() == '$');
    lemma_trim_keeps(regex);
    assert(anchored_at_start(regex));
    assert(anchored_at_end(regex));
    let body = pre + w + mid + w;
    assert(regex.skip(1).drop_last() =~= body);
    assert(pattern_body(regex) == body);
    assert(body =~= pre + w + (mid + w + none));
    lemma_split_first(pre, mid + w + none, w);
    lemma_split_first(mid, none, w);
    lemma_split_one(none, w);
    let chunks = pattern_chunks(regex);
    assert(chunks =~= seq![pre, mid, none]);
    assert(chunks[1].len() > 0);
    assert(!all_chunks_empty(chunks));
    assert(body.subrange(body.len() - 2, body.len() as int) =~= w);
    assert(spec_ends_with(body, w));
    assert(!pins_last_chunk(regex));
    // Where `mid` stands in the text.
    assert(occurs_at(mid, mid, 0)) by {
        assert(mid.subrange(0, mid.len() as int) =~= mid);
    }
    lemma_occurs_in_prefix(mid, y, mid, 0);
    lemma_occurs_shift(pre + x, mid + y, mid, 0);
    assert(text =~= (pre + x) + (mid + y));
    let at: int = pre.len() as int + x.len();
    assert(occurs_at(text, mid, at));
    reveal_with_fuel(scan_chunks, 4);
    if pre.len() == 0 {
        assert(body =~= w + mid + w);
        assert(body.subrange(0, 2) =~= w);
        assert(spec_starts_with(body, w));
        assert(!pins_first_chunk(regex));
        lemma_find_reaches(text, mid, 0, at);
        assert(scan_chunks(text, chunks, 0, 0, false) is Some);
    } else {
        assert(body =~= pre + (w + mid + w));
        lemma_no_occurrence_inside(pre, w + mid + w, w, 0);
        assert(pins_first_chunk(regex));
        assert(occurs_at(pre, pre, 0)) by {
            assert(pre.subrange(0, pre.len() as int) =~= pre);
        }
        assert(text =~= pre + (x + mid + y));
        lemma_occurs_in_prefix(pre, x + mid + y, pre, 0);
        lemma_find_reaches(text, mid, pre.len() as int, at);
        assert(scan_chunks(text, chunks, 0, 0, true) is Some);
    }
}

/// No marker is missing from a text in which every marker stands.
pub proof fn lemma_markers_present(text: Seq<char>, markers: Seq<Seq<char>>, k: int)
    requires
        forall|j: int| 0 <= j < markers.len() ==> spec_contains(text, #[trigger] markers[j]),
    ensures
        first_missing_marker(text, markers, k) is None,
    decreases markers.len() - k,
{
    if 0 <= k < markers.len() {
        lemma_markers_present(text, markers, k + 1);
    }
}

/// The shaped sentence of plain parts is plain, is not empty, and holds both
/// texts that stand in the places of the placeholders.
pub proof fn lemma_shaped_sentence_plain(
    pre: Seq<char>,
    mid: Seq<char>,
    x: Seq<char>,
    y: Seq<char>,
)
    requires
        is_plain(pre),
        is_plain(mid),
        is_plain(x),
        is_plain(y),
        mid.len() > 0,
    ensures
        is_plain(pre + x + mid + y),
        (pre + x + mid + y).len() > 0,
        spec_contains(pre + x + mid + y, x),
        spec_contains(pre + x + mid + y, y),
{
    let s = pre + x + mid + y;
    lemma_plain_concat(pre, x);
    lemma_plain_concat(pre + x, mid);
    lemma_plain_concat(pre + x + mid, y);
    lemma_contains_self(x);
    lemma_contains_in_middle(pre, x, mid + y, x);
    assert(pre + x + (mid + y) =~= s);
    lemma_contains_self(y);
    lemma_contains_in_middle(pre + x + mid, y, Seq::empty(), y);
    assert(pre + x + mid + y + Seq::<char>::empty() =~= s);
}

/// A marker that stands in `pre` or in `mid` stands in the shaped sentence.
pub proof fn lemma_marker_in_shaped_sentence(
    pre: Seq<char>,
    mid: Seq<char>,
    x: Seq<char>,
    y: Seq<char>,
    m: Seq<char>,
)
    requires
        spec_contains(pre, m) || spec_contains(mid, m),
    ensures
        spec_contains(pre + x + mid + y, m),
{
    let s = pre + x + mid + y;
    if spec_contains(pre, m) {
        lemma_contains_in_middle(Seq::empty(), pre, x + mid + y, m);
        assert(Seq::<char>::empty() + pre + (x + mid + y) =~= s);
    } else {
        lemma_contains_in_middle(pre + x, mid, y, m);
    }
}

/// A sentence passes by the pattern of a step where every strong marker of
/// the step stands in it and it satisfies the structural expression.
pub proof fn lemma_verdict_ok(step: StepView, s: Seq<char>)
    requires
        forall|j: int|
            0 <= j < step.strong_markers.len() ==> spec_contains(
                s,
                #[trigger] step.strong_markers[j],
            ),
        spec_structural_match(step.check_regex, s),
    ensures
        pattern_verdict(step, s) is Ok,
{
    lemma_markers_present(s, step.strong_markers, 0);
}

/// What holds of the sentence that a shaped pattern gives on two plain
/// texts that are not empty: rendering gives a sentence that is plain and
/// not empty, needs no trimming, holds both texts, and passes by the
/// pattern.
pub proof fn lemma_shaped_pattern_sentence(
    p: PatternView,
    relation: Seq<char>,
    a: Seq<char>,
    b: Seq<char>,
)
    requires
        well_shaped(p),
        is_plain(a),
        is_plain(b),
        a.len() > 0,
        b.len() > 0,
    ensures
        ({
            let s = spec_trim_sentence(spec_render(p.tpl, a, b));
            &&& s == spec_render(p.tpl, a, b)
            &&& is_plain(s)
            &&& s.len() > 0
            &&& spec_contains(s, a)
            &&& spec_contains(s, b)
            &&& pattern_verdict(step_of(relation, p), s) is Ok
        }),
{
    let (pre, mid, a_first) = choose|pre: Seq<char>, mid: Seq<char>, a_first: bool|
        pattern_shaped(p, pre, mid, a_first);
    let x = if a_first {
        a
    } else {
        b
    };
    let y = if a_first {
        b
    } else {
        a
    };
    let s = pre + x + mid + y;
    assert(spec_render(p.tpl, a, b) == s) by {
        lemma_plain_lacks(pre);
        lemma_plain_lacks(mid);
        lemma_plain_lacks(a);
        lemma_plain_lacks(b);
        lemma_render_shaped(pre, mid, a_first, a, b);
    }
    lemma_shaped_sentence_plain(pre, mid, x, y);
    assert(spec_trim_sentence(s) == s) by {
        lemma_plain_sentence_kept(s);
    }
    let step = step_of(relation, p);
    assert forall|j: int| 0 <= j < step.strong_markers.len() implies spec_contains(
        s,
        #[trigger] step.strong_markers[j],
    ) by {
        lemma_marker_in_shaped_sentence(pre, mid, x, y, p.strong_markers[j]);
    }
    assert(spec_structural_match(step.check_regex, s)) by {
        lemma_shaped_expression_matches(pre, mid, x, y);
    }
    lemma_verdict_ok(step, s);
}

} // verus!
