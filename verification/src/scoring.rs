//! The lenient scorer: partial credit for a learner's free text.
//!
//! An answer starts at 100 points and loses points for each rule it breaks.
//! The scorer never fails: a text that cannot be read as two sentences is
//! scored as a whole.

use vstd::prelude::*;
use crate::coreplus::{
    any_marker_in,
    any_marker_in_chars,
    pattern_verdict,
    pattern_verdict_chars,
    CorePlusSpec,
    SpecView,
};
use crate::sentence::{spec_split_two, spec_trim_sentence, split_two_chars, trim_sentence_chars};
use crate::text::{
    contains_chars,
    copy_range,
    from_chars,
    join_chars,
    push_str,
    spec_contains,
    spec_join,
    spec_trim,
    to_chars,
    trim_chars,
    views_of,
};

verus! {

pub const MSG_EMPTY_ANSWER: &'static str = "答案为空。请按要求只写两句。";

pub const MSG_ALL_GOOD: &'static str = "结构正确：两句都满足连接词模式，并围绕种子短语展开。";

pub const NOTE_NOT_TWO: &'static str = "格式错误：需要正好两句（用句号分隔）";

pub const NOTE_FIRST: &'static str = "第1句不符合要求：";

pub const NOTE_SECOND: &'static str = "第2句不符合要求：";

pub const NOTE_SEED: &'static str = "内容未围绕种子短语";

pub const NOTE_BLEED_FIRST: &'static str = "第1句混入了第2步连接标记";

pub const NOTE_BLEED_SECOND: &'static str = "第2句混入了第1步连接标记";

pub const NOTE_SEPARATOR: &'static str = "；";

pub const NOTE_END: &'static str = "。";

/// The least score that passes.
pub const PASS_MARK: u32 = 60;

/// What the scorer found in an answer.
#[derive(Clone, Copy, Debug)]
pub struct Findings {
    /// The answer holds exactly two sentences.
    pub two_sentences: bool,
    /// Sentence 1 fits the pattern of step 1.
    pub first_fits: bool,
    /// Sentence 2 fits the pattern of step 2.
    pub second_fits: bool,
    /// The answer holds the seed phrase.
    pub seed_kept: bool,
    /// Sentence 1 holds a strong marker of step 2.
    pub second_in_first: bool,
    /// Sentence 2 holds a strong marker of step 1.
    pub first_in_second: bool,
}

/// The points that the findings cost: 40 for not being two sentences, 25
/// for each sentence that does not fit its pattern, 15 for a lost seed, 8
/// for each sentence that holds a strong marker of the other step.
pub open spec fn deductions(f: Findings) -> int {
    (if f.two_sentences { 0int } else { 40 })
        + (if f.first_fits { 0int } else { 25 })
        + (if f.second_fits { 0int } else { 25 })
        + (if f.seed_kept { 0int } else { 15 })
        + (if f.second_in_first { 8int } else { 0 })
        + (if f.first_in_second { 8int } else { 0 })
}

/// The score: 100 less the deductions, kept between 0 and 100.
pub open spec fn spec_score(f: Findings) -> int {
    let raw = 100 - deductions(f);
    if raw < 0 {
        0
    } else if raw > 100 {
        100
    } else {
        raw
    }
}

/// The score that the findings give.
pub fn score_of(f: &Findings) -> (score: u32)
    ensures
        score == spec_score(*f),
        score <= 100,
{
    let mut lost: u32 = 0;
    if !f.two_sentences {
        lost += 40;
    }
    if !f.first_fits {
        lost += 25;
    }
    if !f.second_fits {
        lost += 25;
    }
    if !f.seed_kept {
        lost += 15;
    }
    if f.second_in_first {
        lost += 8;
    }
    if f.first_in_second {
        lost += 8;
    }
    if lost >= 100 {
        0
    } else {
        100 - lost
    }
}

/// The two sentences that are scored: those of the answer where it holds
/// exactly two, else the whole answer in both places.
pub open spec fn answer_sentences(answer: Seq<char>) -> (Seq<char>, Seq<char>) {
    match spec_split_two(answer) {
        Some(pair) => pair,
        None => (answer, answer),
    }
}

/// What the scorer finds in a trimmed answer. The seed phrase is the seed of
/// the challenge, trimmed and without a terminal mark; an empty seed phrase
/// counts as kept.
pub open spec fn spec_findings(spec: SpecView, answer: Seq<char>) -> Findings {
    let s = answer_sentences(answer);
    let seed_phrase = spec_trim_sentence(spec.seed);
    Findings {
        two_sentences: spec_split_two(answer) is Some,
        first_fits: pattern_verdict(spec.step1, s.0) is Ok,
        second_fits: pattern_verdict(spec.step2, s.1) is Ok,
        seed_kept: seed_phrase.len() == 0 || spec_contains(answer, seed_phrase),
        second_in_first: any_marker_in(s.0, spec.step2.strong_markers),
        first_in_second: any_marker_in(s.1, spec.step1.strong_markers),
    }
}

/// The list made of `note` where `broken` holds, else the empty list.
pub open spec fn note_if(broken: bool, note: Seq<char>) -> Seq<Seq<char>> {
    if broken {
        seq![note]
    } else {
        Seq::empty()
    }
}

/// The note for a sentence that its pattern rejects: `prefix` and the
/// verdict's message.
pub open spec fn verdict_note(prefix: Seq<char>, verdict: Result<(), Seq<char>>) -> Seq<
    Seq<char>,
> {
    match verdict {
        Err(e) => seq![prefix + e],
        Ok(_) => Seq::empty(),
    }
}

/// The notes on a trimmed answer, one for each rule it breaks, in the order
/// of the rules.
pub open spec fn spec_notes(spec: SpecView, answer: Seq<char>) -> Seq<Seq<char>> {
    let f = spec_findings(spec, answer);
    let s = answer_sentences(answer);
    note_if(!f.two_sentences, NOTE_NOT_TWO@) + verdict_note(
        NOTE_FIRST@,
        pattern_verdict(spec.step1, s.0),
    ) + verdict_note(NOTE_SECOND@, pattern_verdict(spec.step2, s.1)) + note_if(
        !f.seed_kept,
        NOTE_SEED@,
    ) + note_if(f.second_in_first, NOTE_BLEED_FIRST@) + note_if(
        f.first_in_second,
        NOTE_BLEED_SECOND@,
    )
}

/// The explanation: the notes joined, or the message of success where there
/// is none.
pub open spec fn spec_explanation(notes: Seq<Seq<char>>) -> Seq<char> {
    if notes.len() == 0 {
        MSG_ALL_GOOD@
    } else {
        spec_join(notes, NOTE_SEPARATOR@) + NOTE_END@
    }
}

/// The result of scoring an answer.
pub struct Evaluation {
    pub pass: bool,
    pub score: int,
    pub explanation: Seq<char>,
}

/// The result of scoring `user_answer` against a challenge. An answer that
/// is empty once trimmed fails with 0 points. Any other answer passes
/// exactly when its score reaches the pass mark.
pub open spec fn spec_evaluate(spec: SpecView, user_answer: Seq<char>) -> Evaluation {
    let answer = spec_trim(user_answer);
    if answer.len() == 0 {
        Evaluation { pass: false, score: 0, explanation: MSG_EMPTY_ANSWER@ }
    } else {
        let score = spec_score(spec_findings(spec, answer));
        Evaluation {
            pass: score >= PASS_MARK,
            score,
            explanation: spec_explanation(spec_notes(spec, answer)),
        }
    }
}

/// The note made of `prefix` and `detail`.
fn note_of(prefix: &str, detail: &str) -> (note: Vec<char>)
    ensures
        note@ == prefix@ + detail@,
{
    let mut note: Vec<char> = Vec::new();
    push_str(&mut note, prefix);
    push_str(&mut note, detail);
    assert(note@ == prefix@ + detail@);
    note
}

/// Adds `note` to `notes`.
fn push_note(notes: &mut Vec<Vec<char>>, note: Vec<char>)
    ensures
        views_of(final(notes)@) == views_of(old(notes)@) + seq![note@],
{
    let ghost before = views_of(notes@);
    notes.push(note);
    assert(views_of(notes@) =~= before + seq![note@]);
}

/// Scores a learner's answer against a challenge: whether it passes, its
/// score from 0 to 100, and an explanation.
pub fn evaluate_core_plus_core_answer(spec: &CorePlusSpec, user_answer: &str) -> (r: (
    bool,
    u32,
    String,
))
    ensures
        r.0 == spec_evaluate(spec@, user_answer@).pass,
        r.1 == spec_evaluate(spec@, user_answer@).score,
        r.2@ == spec_evaluate(spec@, user_answer@).explanation,
{
    let answer = trim_chars(&to_chars(user_answer));
    if answer.len() == 0 {
        return (false, 0, MSG_EMPTY_ANSWER.to_string());
    }
    let ghost expected = spec_notes(spec@, answer@);
    let mut notes: Vec<Vec<char>> = Vec::new();
    let (two_sentences, s1, s2) = match split_two_chars(&answer) {
        Some(pair) => (true, pair.0, pair.1),
        None => {
            push_note(&mut notes, to_chars(NOTE_NOT_TWO));
            let first = copy_range(&answer, 0, answer.len());
            let second = copy_range(&answer, 0, answer.len());
            assert(first@ == answer@);
            assert(second@ == answer@);
            (false, first, second)
        },
    };
    assert(answer_sentences(answer@) == (s1@, s2@));
    assert(views_of(notes@) =~= note_if(!two_sentences, NOTE_NOT_TWO@));
    let ghost notes0 = views_of(notes@);

    let first_fits = match pattern_verdict_chars(&spec.step1, &s1) {
        Ok(_) => true,
        Err(e) => {
            push_note(&mut notes, note_of(NOTE_FIRST, e.as_str()));
            false
        },
    };
    assert(views_of(notes@) =~= notes0 + verdict_note(
        NOTE_FIRST@,
        pattern_verdict(spec@.step1, s1@),
    ));
    let ghost notes1 = views_of(notes@);

    let second_fits = match pattern_verdict_chars(&spec.step2, &s2) {
        Ok(_) => true,
        Err(e) => {
            push_note(&mut notes, note_of(NOTE_SECOND, e.as_str()));
            false
        },
    };
    assert(views_of(notes@) =~= notes1 + verdict_note(
        NOTE_SECOND@,
        pattern_verdict(spec@.step2, s2@),
    ));
    let ghost notes2 = views_of(notes@);

    let seed_phrase = trim_sentence_chars(&to_chars(spec.seed.as_str()));
    let seed_kept = seed_phrase.len() == 0 || contains_chars(&answer, &seed_phrase);
    if !seed_kept {
        push_note(&mut notes, to_chars(NOTE_SEED));
    }
    assert(views_of(notes@) =~= notes2 + note_if(!seed_kept, NOTE_SEED@));
    let ghost notes3 = views_of(notes@);

    let second_in_first = any_marker_in_chars(&s1, &spec.step2.strong_markers);
    if second_in_first {
        push_note(&mut notes, to_chars(NOTE_BLEED_FIRST));
    }
    assert(views_of(notes@) =~= notes3 + note_if(second_in_first, NOTE_BLEED_FIRST@));
    let ghost notes4 = views_of(notes@);

    let first_in_second = any_marker_in_chars(&s2, &spec.step1.strong_markers);
    if first_in_second {
        push_note(&mut notes, to_chars(NOTE_BLEED_SECOND));
    }
    assert(views_of(notes@) =~= notes4 + note_if(first_in_second, NOTE_BLEED_SECOND@));

    let findings = Findings {
        two_sentences,
        first_fits,
        second_fits,
        seed_kept,
        second_in_first,
        first_in_second,
    };
    assert(findings == spec_findings(spec@, answer@));
    assert(views_of(notes@) == expected);
    let score = score_of(&findings);
    let explanation = if notes.len() == 0 {
        MSG_ALL_GOOD.to_string()
    } else {
        let mut text = join_chars(&notes, NOTE_SEPARATOR);
        push_str(&mut text, NOTE_END);
        from_chars(&text)
    };
    (score >= PASS_MARK, score, explanation)
}

/// An answer that is empty, or white space only, fails with 0 points,
/// whatever the challenge.
pub proof fn lemma_empty_answer_fails(spec: SpecView, user_answer: Seq<char>)
    requires
        spec_trim(user_answer).len() == 0,
    ensures
        !spec_evaluate(spec, user_answer).pass,
        spec_evaluate(spec, user_answer).score == 0,
        spec_evaluate(spec, Seq::<char>::empty()).score == 0,
        !spec_evaluate(spec, Seq::<char>::empty()).pass,
{
    assert(spec_trim(Seq::<char>::empty()).len() == 0);
}

/// A strong marker of step 2 in sentence 1 costs points: of two answers with
/// the same findings but for that one, the answer that holds the marker
/// scores strictly lower, unless the other already scores 0.
pub proof fn lemma_marker_bleed_lowers_score(clean: Findings, bled: Findings)
    requires
        !clean.second_in_first,
        bled == (Findings { second_in_first: true, ..clean }),
        spec_score(clean) > 0,
    ensures
        spec_score(bled) < spec_score(clean),
        spec_score(bled) == if spec_score(clean) >= 8 {
            spec_score(clean) - 8
        } else {
            0
        },
{
}

/// The score is between 0 and 100, and an answer passes only with at most
/// 40 points lost.
pub proof fn lemma_score_bounds(f: Findings)
    ensures
        0 <= spec_score(f) <= 100,
        spec_score(f) >= PASS_MARK <==> deductions(f) <= 40,
{
}

} // verus!
