//! What holds of every challenge that the sampler can give.

use vstd::prelude::*;
use crate::catalog::{chain_view, pattern_view, scene_view};
use crate::catalog_facts::{
    lemma_rain_stop_scene_below_level_2,
    lemma_rain_stop_scene_below_level_3,
    lemma_not_contained,
    lemma_pattern_well_shaped,
    lemma_scene_plain,
    scene_is_plain,
};
use crate::coreplus::{
    any_marker_in,
    item_verdict,
    pattern_verdict,
    reference_sentence1,
    reference_sentence2,
    sentence_verdict,
    spec_reference,
    CorePlusSpec,
    SpecView,
};
use crate::sampler::{
    assembled,
    chain_allowed,
    draw_accepted,
    fits_step,
    producible,
    scene_allowed,
    SCHEMA_EXPECTED_SURPRISE,
    SCHEMA_TIME_EVENT,
};
use crate::scoring::{
    answer_sentences,
    deductions,
    spec_evaluate,
    spec_findings,
    PASS_MARK,
};
use crate::sentence::{
    canonical_marks,
    full_stop,
    kept_fragments,
    sentence_fragments,
    spec_split_two,
    spec_trim_sentence,
    strip_terminal_mark,
};
use crate::shape::{
    is_plain,
    lemma_plain_sentence_kept,
    lemma_shaped_pattern_sentence,
    lemma_two_plain_sentences,
};
use crate::text::{spec_contains, spec_trim};
use crate::text_lemmas::{
    lemma_contains_in_middle,
    lemma_split_one,
    lemma_trim_keeps,
    lemma_trim_twice,
};

verus! {

/// The draw of the chain in row 2, the patterns in rows 40 and 11 and the
/// scene in row 25 passes every gate at each of the three levels.
pub proof fn lemma_rain_stop_draw_is_accepted(level: u8)
    requires
        1 <= level <= 3,
    ensures
        draw_accepted(level, 2, 40, 11, 25),
{
    reveal_strlit("雨停了");
    reveal_strlit("我出去走走");
    reveal_strlit("心情好了一点");
    reveal_strlit("time_event_outcome");
    reveal_strlit("condition_expected_surprise");
    reveal_strlit("当");
    reveal_strlit("所以");
    reveal_strlit("");
    lemma_rain_stop_scene_below_level_3();
    lemma_rain_stop_scene_below_level_2();
    let seed = scene_view(25).p1;
    assert(chain_view(2).scene_schema == SCHEMA_TIME_EVENT@);
    assert(SCHEMA_TIME_EVENT@.len() != SCHEMA_EXPECTED_SURPRISE@.len());
    assert(chain_allowed(chain_view(2).scene_schema, level));
    assert(fits_step(40, chain_view(2).step1, level));
    assert(fits_step(11, chain_view(2).step2, level));
    assert(scene_allowed(scene_view(25).p1, scene_view(25).p2, scene_view(25).p3, level));
    assert(!any_marker_in(seed, pattern_view(40).seed_banned)) by {
        lemma_not_contained(seed, "当"@);
        assert(pattern_view(40).seed_banned =~= seq!["当"@]);
    }
    assert(!any_marker_in(seed, pattern_view(11).seed_banned)) by {
        lemma_not_contained(seed, "所以"@);
        assert(pattern_view(11).seed_banned =~= seq!["所以"@]);
    }
}

/// At each of the three levels the sampler can give a challenge: some draw
/// passes every gate. Whether a run of the sampler finds one within its
/// tries is a matter of chance.
pub proof fn lemma_every_level_has_a_challenge(level: u8)
    requires
        1 <= level <= 3,
    ensures
        exists|spec: SpecView| producible(spec, level),
{
    lemma_rain_stop_draw_is_accepted(level);
    assert(producible(assembled(2, 40, 11, 25), level));
}

/// What holds of the two rendered sentences of a challenge: each is a
/// plain text that is not empty, holds the two propositions of its step, and
/// passes by the pattern of its step; and the seed is a plain text.
pub open spec fn sentences_fit(spec: SpecView) -> bool {
    let s1 = reference_sentence1(spec);
    let s2 = reference_sentence2(spec);
    &&& is_plain(spec.seed)
    &&& spec.seed == spec.props.p1
    &&& is_plain(s1) && s1.len() > 0
    &&& is_plain(s2) && s2.len() > 0
    &&& spec_contains(s1, spec.props.p1) && spec_contains(s1, spec.props.p2)
    &&& spec_contains(s2, spec.props.p2) && spec_contains(s2, spec.props.p3)
    &&& pattern_verdict(spec.step1, s1) is Ok
    &&& pattern_verdict(spec.step2, s2) is Ok
}

/// The rendered sentences of every challenge that the sampler can give fit
/// their steps.
pub proof fn lemma_producible_sentences_fit(spec: SpecView, level: u8)
    requires
        producible(spec, level),
    ensures
        sentences_fit(spec),
{
    let (chain, step1, step2, scene) = choose|chain: int, step1: int, step2: int, scene: int|
        draw_accepted(level, chain, step1, step2, scene) && spec == #[trigger] assembled(
            chain,
            step1,
            step2,
            scene,
        );
    lemma_pattern_well_shaped(step1);
    lemma_pattern_well_shaped(step2);
    lemma_scene_plain(scene);
    assert(scene_is_plain(scene));
    let s = scene_view(scene);
    lemma_shaped_pattern_sentence(pattern_view(step1), chain_view(chain).step1, s.p1, s.p2);
    lemma_shaped_pattern_sentence(pattern_view(step2), chain_view(chain).step2, s.p2, s.p3);
}

/// The reference answer of every challenge that the sampler can give is
/// read back as exactly two sentences, neither of them empty: its two
/// rendered sentences.
pub proof fn lemma_reference_has_two_sentences(spec: SpecView, level: u8)
    requires
        producible(spec, level),
    ensures
        spec_split_two(spec_reference(spec)) == Some(
            (reference_sentence1(spec), reference_sentence2(spec)),
        ),
        reference_sentence1(spec).len() > 0,
        reference_sentence2(spec).len() > 0,
{
    lemma_producible_sentences_fit(spec, level);
    lemma_two_plain_sentences(reference_sentence1(spec), reference_sentence2(spec));
}

/// The reference answer is a function of what the challenge holds: two
/// challenges that hold the same give the same reference answer, and so do
/// two calls on one challenge.
pub proof fn lemma_reference_is_determined(a: CorePlusSpec, b: CorePlusSpec)
    requires
        a@ == b@,
    ensures
        spec_reference(a@) == spec_reference(b@),
{
}

/// A generated item that repeats the seed of the challenge and gives its
/// reference answer word for word passes the strict check, for every
/// challenge that the sampler can give.
pub proof fn lemma_reference_item_is_accepted(
    spec: SpecView,
    level: u8,
    seed: Seq<char>,
    reference: Seq<char>,
)
    requires
        producible(spec, level),
        seed == spec.seed,
        reference == spec_reference(spec),
    ensures
        item_verdict(spec, seed, reference) is Ok,
{
    lemma_producible_sentences_fit(spec, level);
    lemma_reference_has_two_sentences(spec, level);
    let s1 = reference_sentence1(spec);
    let s2 = reference_sentence2(spec);
    assert(sentence_verdict(spec.step1, s1, spec.props.p1, spec.props.p2) is Ok);
    assert(sentence_verdict(spec.step2, s2, spec.props.p2, spec.props.p3) is Ok);
}

/// The reference answer of every challenge that the sampler can give
/// passes the scorer. It is read as two sentences, each fits its pattern,
/// and it holds the seed: it can lose points only for markers of one step
/// that stand in the sentence of the other, 8 for each sentence, so it
/// scores 84 or more.
pub proof fn lemma_reference_answer_passes(spec: SpecView, level: u8)
    requires
        producible(spec, level),
    ensures
        spec_evaluate(spec, spec_reference(spec)).pass,
        spec_evaluate(spec, spec_reference(spec)).score >= 84,
        spec_evaluate(spec, spec_reference(spec)).score >= PASS_MARK,
{
    lemma_producible_sentences_fit(spec, level);
    lemma_reference_has_two_sentences(spec, level);
    let s1 = reference_sentence1(spec);
    let s2 = reference_sentence2(spec);
    let answer = spec_reference(spec);
    lemma_two_plain_sentences(s1, s2);
    assert(spec_trim(answer) == answer);
    assert(answer.len() > 0);
    assert(answer_sentences(answer) == (s1, s2));
    lemma_plain_sentence_kept(spec.seed);
    assert(spec_trim_sentence(spec.seed) == spec.props.p1);
    assert(spec_contains(answer, spec.props.p1)) by {
        lemma_contains_in_middle(Seq::empty(), s1, full_stop() + s2, spec.props.p1);
        assert(Seq::<char>::empty() + s1 + (full_stop() + s2) =~= answer);
    }
    let f = spec_findings(spec, answer);
    assert(f.two_sentences);
    assert(f.first_fits);
    assert(f.second_fits);
    assert(f.seed_kept);
    assert(deductions(f) <= 16);
}

/// An answer that is empty once trimmed holds no sentence.
pub proof fn lemma_empty_text_has_no_sentence(text: Seq<char>)
    requires
        spec_trim(text).len() == 0,
    ensures
        sentence_fragments(text).len() == 0,
{
    let none = Seq::<char>::empty();
    assert(canonical_marks(spec_trim(text)) =~= none);
    assert(strip_terminal_mark(none) == none);
    lemma_trim_keeps(none);
    lemma_split_one(none, full_stop());
    reveal_with_fuel(kept_fragments, 2);
}

/// The strict check is stricter than the scorer: a reference answer that the
/// strict check accepts for a challenge passes the scorer for it, with 69
/// points or more. This holds of every challenge, sampled or not.
pub proof fn lemma_accepted_item_passes_scoring(
    spec: SpecView,
    seed: Seq<char>,
    reference: Seq<char>,
)
    requires
        item_verdict(spec, seed, reference) is Ok,
    ensures
        spec_evaluate(spec, reference).pass,
        spec_evaluate(spec, reference).score >= 69,
{
    let answer = spec_trim(reference);
    lemma_trim_twice(reference);
    assert(sentence_fragments(answer) == sentence_fragments(reference));
    assert(spec_split_two(answer) == spec_split_two(reference));
    let got = spec_split_two(reference).unwrap();
    assert(sentence_verdict(spec.step1, got.0, spec.props.p1, spec.props.p2) is Ok);
    assert(sentence_verdict(spec.step2, got.1, spec.props.p2, spec.props.p3) is Ok);
    if answer.len() == 0 {
        lemma_empty_text_has_no_sentence(reference);
    }
    let f = spec_findings(spec, answer);
    assert(answer_sentences(answer) == got);
    assert(f.two_sentences);
    assert(f.first_fits);
    assert(f.second_fits);
    assert(deductions(f) <= 31);
}

} // verus!
