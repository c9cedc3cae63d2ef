//! What the service decides without a text generator: the route by which an
//! answer is graded, the local grading by a rubric, local hints, and the
//! fixed replies.

use vstd::prelude::*;
use crate::domain::{Challenge, RubricView};
use crate::protocol::{to_out, ChallengeOut};
use crate::text::{
    contains_chars,
    from_chars,
    join_chars,
    lowercase_of,
    push_chars,
    push_str,
    same_text,
    spec_contains,
    spec_join,
    texts_of,
    to_chars,
    to_lowercase,
    views_of,
};
use crate::util::{decimal, decimal_chars};

verus! {

pub const MSG_NO_EVALUATION_PATH: &'static str =
    "No evaluation path: challenge is missing seed+challenge and instructions.";

pub const MSG_UNKNOWN_CHALLENGE: &'static str = "Unknown challengeId: ";

pub const MSG_NO_HINT: &'static str = "No hint: unknown challenge.";

pub const MSG_NOT_APPLICABLE: &'static str = "Not applicable to freeform tasks.";

pub const LOCAL_SCORE_OPEN: &'static str = "(local) score=";

pub const LOCAL_SCORE_SEP: &'static str = ": ";

pub const NOTE_TOO_SHORT_OPEN: &'static str = "Too short (< ";

pub const NOTE_TOO_SHORT_CLOSE: &'static str = ")";

pub const NOTE_MISSING_OPEN: &'static str = "Missing '";

pub const NOTE_MISSING_CLOSE: &'static str = "'";

pub const NOTE_AVOID_OPEN: &'static str = "Avoid '";

pub const NOTE_AVOID_CLOSE: &'static str = "' present";

pub const NOTES_SEPARATOR: &'static str = "; ";

pub const MSG_LOOKS_OKAY: &'static str = "Looks okay.";

pub const HINT_SEED_OPEN: &'static str = "Seed: ";

pub const HINT_CHALLENGE_OPEN: &'static str = "\nChallenge: ";

pub const HINT_DEFAULT_TASK: &'static str = "写一段短文：先说时间和地点，再用一个表态/计划的动词提出行动。";

pub const LOCAL_HINT_CHALLENGE: &'static str = "聚焦：主语改写 + 计划类动词 + 具体地点 + 时间。任务：";

pub const LOCAL_HINT_INSTRUCTIONS: &'static str = "先定时间/地点，再完成任务要点（3-5句）。任务：";

pub const LOCAL_HINT_DEFAULT: &'static str = "先说谁、什么时候、在哪里，然后做什么（加一个态度/计划动词）。";

pub const QUESTION_OPEN: &'static str = "Question: ";

pub const QUESTION_CONTEXT: &'static str = "\nRelated sentence: ";

pub const REPLY_ASPECT: &'static str = "Because it marks a completed action (aspect).";

pub const REPLY_WHY: &'static str =
    "Short answer: the particle indicates aspect or sentence mood depending on position.";

pub const REPLY_DEFAULT: &'static str =
    "Try focusing on core patterns (S + V + O). Ask about a specific particle for a deeper explanation.";

pub const TRANSLATION_UNKNOWN: &'static str = "Translation not available (stub).";

pub const STUB_ZH_1: &'static str = "我想喝咖啡";

pub const STUB_EN_1: &'static str = "I want to drink coffee.";

pub const STUB_ZH_2: &'static str = "今天天气很好";

pub const STUB_EN_2: &'static str = "The weather is great today.";

pub const STUB_ZH_3: &'static str = "你吃饭了吗？";

pub const STUB_EN_3: &'static str = "Have you eaten?";

pub const STUB_ZH_4: &'static str = "他昨天去了北京。";

pub const STUB_EN_4: &'static str = "He went to Beijing yesterday.";

pub const STUB_ZH_5: &'static str = "我们一起学习吧！";

pub const STUB_EN_5: &'static str = "Let's study together!";

/// The challenge as it is delivered.
pub fn _to_out(c: &Challenge) -> (out: ChallengeOut)
    ensures
        out.id@ == c.id@,
        out.difficulty@ == c.difficulty@,
        out.kind == c.kind,
        out.source == c.source,
        out.seed_zh@ == c.seed_zh@,
        out.seed_en@ == c.seed_en@,
        out.challenge_zh@ == c.challenge_zh@,
        out.challenge_en@ == c.challenge_en@,
        out.summary_en@ == c.summary_en@,
        out.instructions@ == c.instructions@,
{
    to_out(c)
}

/// The route by which an answer to a challenge is graded.
#[derive(Clone, Copy, Debug)]
pub enum EvaluationRoute {
    /// Against the seed and the challenge text.
    SeedChallenge,
    /// Against the instructions and the rubric.
    Instructions,
    /// The challenge holds nothing to grade against.
    NoPath,
}

/// The route of a challenge: by seed and challenge where it holds both,
/// else by instructions where it holds some, else none.
pub open spec fn spec_evaluation_route(c: Challenge) -> EvaluationRoute {
    if c.seed_zh@.len() > 0 && c.challenge_zh@.len() > 0 {
        EvaluationRoute::SeedChallenge
    } else if c.instructions@.len() > 0 {
        EvaluationRoute::Instructions
    } else {
        EvaluationRoute::NoPath
    }
}

/// The route by which an answer to `c` is graded.
pub fn evaluation_route(c: &Challenge) -> (route: EvaluationRoute)
    ensures
        route == spec_evaluation_route(*c),
{
    if !c.seed_zh.as_str().is_empty() && !c.challenge_zh.as_str().is_empty() {
        EvaluationRoute::SeedChallenge
    } else if !c.instructions.as_str().is_empty() {
        EvaluationRoute::Instructions
    } else {
        EvaluationRoute::NoPath
    }
}

/// The text that reports a local grading: the score and the explanation.
pub fn local_result_text(score: u32, explanation: &str) -> (r: String)
    ensures
        r@ == LOCAL_SCORE_OPEN@ + decimal(score as nat) + LOCAL_SCORE_SEP@ + explanation@,
{
    let mut r: Vec<char> = Vec::new();
    push_str(&mut r, LOCAL_SCORE_OPEN);
    push_chars(&mut r, &decimal_chars(score as usize));
    push_str(&mut r, LOCAL_SCORE_SEP);
    push_str(&mut r, explanation);
    assert(r@ == LOCAL_SCORE_OPEN@ + decimal(score as nat) + LOCAL_SCORE_SEP@ + explanation@);
    from_chars(&r)
}

/// The text that reports an answer to a challenge that is not known.
pub fn unknown_challenge_text(challenge_id: &str) -> (r: String)
    ensures
        r@ == MSG_UNKNOWN_CHALLENGE@ + challenge_id@,
{
    let mut r: Vec<char> = Vec::new();
    push_str(&mut r, MSG_UNKNOWN_CHALLENGE);
    push_str(&mut r, challenge_id);
    assert(r@ == MSG_UNKNOWN_CHALLENGE@ + challenge_id@);
    from_chars(&r)
}

/// What is asked of a hint writer for a challenge: its seed and challenge
/// text where it has a challenge text, else its instructions, else a
/// default task.
pub open spec fn spec_hint_instructions(c: Challenge) -> Seq<char> {
    if c.challenge_zh@.len() > 0 {
        HINT_SEED_OPEN@ + c.seed_zh@ + HINT_CHALLENGE_OPEN@ + c.challenge_zh@
    } else if c.instructions@.len() > 0 {
        c.instructions@
    } else {
        HINT_DEFAULT_TASK@
    }
}

/// What is asked of a hint writer for `c`.
pub fn hint_instructions(c: &Challenge) -> (r: String)
    ensures
        r@ == spec_hint_instructions(*c),
{
    if !c.challenge_zh.as_str().is_empty() {
        let mut r: Vec<char> = Vec::new();
        push_str(&mut r, HINT_SEED_OPEN);
        push_str(&mut r, c.seed_zh.as_str());
        push_str(&mut r, HINT_CHALLENGE_OPEN);
        push_str(&mut r, c.challenge_zh.as_str());
        assert(r@ == spec_hint_instructions(*c));
        from_chars(&r)
    } else if !c.instructions.as_str().is_empty() {
        c.instructions.clone()
    } else {
        HINT_DEFAULT_TASK.to_string()
    }
}

/// The question put to a text generator: the question of the learner, and
/// the sentence it is about where one is known.
pub open spec fn spec_agent_question(question: Seq<char>, context: Option<Seq<char>>) -> Seq<
    char,
> {
    match context {
        Some(sentence) => QUESTION_OPEN@ + question + QUESTION_CONTEXT@ + sentence,
        None => QUESTION_OPEN@ + question,
    }
}

/// The question put to a text generator.
pub fn agent_question_text(question: &str, context_zh: Option<&str>) -> (r: String)
    ensures
        r@ == spec_agent_question(
            question@,
            match context_zh {
                Some(sentence) => Some(sentence@),
                None => None,
            },
        ),
{
    let mut r: Vec<char> = Vec::new();
    push_str(&mut r, QUESTION_OPEN);
    push_str(&mut r, question);
    match context_zh {
        Some(sentence) => {
            push_str(&mut r, QUESTION_CONTEXT);
            push_str(&mut r, sentence);
            assert(r@ == QUESTION_OPEN@ + question@ + QUESTION_CONTEXT@ + sentence@);
        },
        None => {
            assert(r@ == QUESTION_OPEN@ + question@);
        },
    }
    from_chars(&r)
}

/// The sentence that a question on a challenge is about: its seed, where it
/// has one.
pub fn agent_context(c: &Challenge) -> (r: Option<String>)
    ensures
        match r {
            Some(seed) => seed@ == c.seed_zh@ && seed@.len() > 0,
            None => c.seed_zh@.len() == 0,
        },
{
    if c.seed_zh.as_str().is_empty() {
        None
    } else {
        Some(c.seed_zh.clone())
    }
}

/// The reply to a request for the next character: there is none for
/// free-text tasks.
pub fn next_char_logic(_challenge_id: &str, _current: &str) -> (r: (String, String, String))
    ensures
        r.0@.len() == 0,
        r.1@.len() == 0,
        r.2@ == MSG_NOT_APPLICABLE@,
{
    (String::new(), String::new(), MSG_NOT_APPLICABLE.to_string())
}

/// How many of the first `n` of `words` stand in `answer`.
pub open spec fn found_upto(answer: Seq<char>, words: Seq<Seq<char>>, n: int) -> int
    decreases n,
{
    if n <= 0 {
        0
    } else {
        found_upto(answer, words, n - 1) + if spec_contains(answer, words[n - 1]) {
            1int
        } else {
            0
        }
    }
}

/// A note on a word: the word between `open` and `close`.
pub open spec fn word_note(open: Seq<char>, word: Seq<char>, close: Seq<char>) -> Seq<char> {
    open + word + close
}

/// The notes on the first `n` of `words`: one for each word that stands in
/// `answer` where `wanted` is false, one for each that does not where
/// `wanted` is true.
pub open spec fn word_notes_upto(
    answer: Seq<char>,
    words: Seq<Seq<char>>,
    n: int,
    wanted: bool,
) -> Seq<Seq<char>>
    decreases n,
{
    if n <= 0 {
        Seq::empty()
    } else {
        let before = word_notes_upto(answer, words, n - 1, wanted);
        if spec_contains(answer, words[n - 1]) == wanted {
            before
        } else if wanted {
            before.push(word_note(NOTE_MISSING_OPEN@, words[n - 1], NOTE_MISSING_CLOSE@))
        } else {
            before.push(word_note(NOTE_AVOID_OPEN@, words[n - 1], NOTE_AVOID_CLOSE@))
        }
    }
}

/// The words of an optional list.
pub open spec fn words_of(list: Option<Seq<Seq<char>>>) -> Seq<Seq<char>> {
    match list {
        Some(words) => words,
        None => Seq::empty(),
    }
}

/// The points of an answer by a rubric, before they are kept between 0 and
/// 100: 50 to begin with, 15 for the least length where one is asked and
/// reached, 5 for each word to include that stands in the answer, less 10 for
/// each word to avoid that stands in it.
pub open spec fn local_points(rubric: Option<RubricView>, answer: Seq<char>) -> int {
    match rubric {
        None => 50,
        Some(r) => {
            let wanted = words_of(r.must_include);
            let unwanted = words_of(r.avoid);
            50 + (match r.min_chars {
                Some(least) => if answer.len() >= least {
                    15int
                } else {
                    0
                },
                None => 0,
            }) + 5 * found_upto(answer, wanted, wanted.len() as int) - 10 * found_upto(
                answer,
                unwanted,
                unwanted.len() as int,
            )
        },
    }
}

/// The notes of a local grading, in the order of the rules of the rubric.
pub open spec fn local_notes(rubric: Option<RubricView>, answer: Seq<char>) -> Seq<Seq<char>> {
    match rubric {
        None => Seq::empty(),
        Some(r) => {
            let wanted = words_of(r.must_include);
            let unwanted = words_of(r.avoid);
            (match r.min_chars {
                Some(least) => if answer.len() >= least {
                    Seq::empty()
                } else {
                    seq![NOTE_TOO_SHORT_OPEN@ + decimal(least as nat) + NOTE_TOO_SHORT_CLOSE@]
                },
                None => Seq::empty(),
            }) + word_notes_upto(answer, wanted, wanted.len() as int, true) + word_notes_upto(
                answer,
                unwanted,
                unwanted.len() as int,
                false,
            )
        },
    }
}

/// The score of a local grading: the points, kept between 0 and 100.
pub open spec fn local_score(rubric: Option<RubricView>, answer: Seq<char>) -> int {
    let points = local_points(rubric, answer);
    if points > 100 {
        100
    } else if points < 0 {
        0
    } else {
        points
    }
}

/// The explanation of a local grading.
pub open spec fn local_explanation(rubric: Option<RubricView>, answer: Seq<char>) -> Seq<char> {
    let notes = local_notes(rubric, answer);
    if notes.len() == 0 {
        MSG_LOOKS_OKAY@
    } else {
        spec_join(notes, NOTES_SEPARATOR@)
    }
}

/// What the rubric of a challenge holds, if it has one.
pub open spec fn rubric_view(c: Challenge) -> Option<RubricView> {
    match c.rubric {
        Some(r) => Some(r@),
        None => None,
    }
}

/// Counts the words that stand in the answer and writes the notes on them.
fn check_words(
    answer: &Vec<char>,
    words: &Vec<String>,
    wanted: bool,
    notes: &mut Vec<Vec<char>>,
) -> (found: usize)
    ensures
        found == found_upto(answer@, texts_of(words@), words.len() as int),
        found <= words.len(),
        views_of(final(notes)@) == views_of(old(notes)@) + word_notes_upto(
            answer@,
            texts_of(words@),
            words.len() as int,
            wanted,
        ),
{
    let ghost before = views_of(notes@);
    let mut found: usize = 0;
    let mut k: usize = 0;
    assert(views_of(notes@) =~= before + word_notes_upto(answer@, texts_of(words@), 0, wanted));
    while k < words.len()
        invariant
            k <= words.len(),
            found <= k,
            found == found_upto(answer@, texts_of(words@), k as int),
            views_of(notes@) == before + word_notes_upto(
                answer@,
                texts_of(words@),
                k as int,
                wanted,
            ),
        decreases words.len() - k,
    {
        let word = to_chars(words[k].as_str());
        assert(texts_of(words@)[k as int] == word@);
        let ghost so_far = views_of(notes@);
        let present = contains_chars(answer, &word);
        if present {
            found += 1;
        }
        if present != wanted {
            let mut note: Vec<char> = Vec::new();
            if wanted {
                push_str(&mut note, NOTE_MISSING_OPEN);
                push_chars(&mut note, &word);
                push_str(&mut note, NOTE_MISSING_CLOSE);
                assert(note@ == word_note(NOTE_MISSING_OPEN@, word@, NOTE_MISSING_CLOSE@));
            } else {
                push_str(&mut note, NOTE_AVOID_OPEN);
                push_chars(&mut note, &word);
                push_str(&mut note, NOTE_AVOID_CLOSE);
                assert(note@ == word_note(NOTE_AVOID_OPEN@, word@, NOTE_AVOID_CLOSE@));
            }
            notes.push(note);
            assert(views_of(notes@) =~= so_far.push(note@));
        }
        k += 1;
        assert(views_of(notes@) =~= before + word_notes_upto(
            answer@,
            texts_of(words@),
            k as int,
            wanted,
        ));
    }
    found
}

/// Grades an answer by the rubric of the challenge alone: whether it
/// passes, its score from 0 to 100, and an explanation. An answer passes
/// with 60 points or more.
pub fn freeform_eval_local(c: &Challenge, answer: &str) -> (r: (bool, u32, String))
    ensures
        r.1 == local_score(rubric_view(*c), answer@),
        r.0 == (r.1 >= 60),
        r.2@ == local_explanation(rubric_view(*c), answer@),
{
    let text = to_chars(answer);
    let mut notes: Vec<Vec<char>> = Vec::new();
    let mut bonus: u32 = 0;
    let mut found_wanted: usize = 0;
    let mut found_unwanted: usize = 0;
    assert(views_of(notes@) =~= Seq::<Seq<char>>::empty());
    match &c.rubric {
        Some(rubric) => {
            match rubric.min_chars {
                Some(least) => {
                    if text.len() >= least {
                        bonus = 15;
                    } else {
                        let mut note: Vec<char> = Vec::new();
                        push_str(&mut note, NOTE_TOO_SHORT_OPEN);
                        push_chars(&mut note, &decimal_chars(least));
                        push_str(&mut note, NOTE_TOO_SHORT_CLOSE);
                        assert(note@ == NOTE_TOO_SHORT_OPEN@ + decimal(least as nat)
                            + NOTE_TOO_SHORT_CLOSE@);
                        notes.push(note);
                        assert(views_of(notes@) =~= seq![note@]);
                    }
                },
                None => {},
            }
            let ghost notes0 = views_of(notes@);
            match &rubric.must_include {
                Some(words) => {
                    found_wanted = check_words(&text, words, true, &mut notes);
                },
                None => {
                    assert(views_of(notes@) =~= notes0 + word_notes_upto(
                        text@,
                        Seq::empty(),
                        0,
                        true,
                    ));
                },
            }
            let ghost notes1 = views_of(notes@);
            match &rubric.avoid {
                Some(words) => {
                    found_unwanted = check_words(&text, words, false, &mut notes);
                },
                None => {
                    assert(views_of(notes@) =~= notes1 + word_notes_upto(
                        text@,
                        Seq::empty(),
                        0,
                        false,
                    ));
                },
            }
        },
        None => {},
    }
    assert(views_of(notes@) == local_notes(rubric_view(*c), answer@));
    let gained: u128 = 50 + bonus as u128 + 5 * (found_wanted as u128);
    let lost: u128 = 10 * (found_unwanted as u128);
    assert(gained - lost == local_points(rubric_view(*c), answer@));
    let score: u32 = if gained <= lost {
        0
    } else if gained - lost > 100 {
        100
    } else {
        (gained - lost) as u32
    };
    let explanation = if notes.len() == 0 {
        MSG_LOOKS_OKAY.to_string()
    } else {
        from_chars(&join_chars(&notes, NOTES_SEPARATOR))
    };
    (score >= 60, score, explanation)
}

/// A hint written without a text generator: by the challenge text where the
/// challenge has one, else by its instructions, else a general one.
pub open spec fn spec_freeform_hint_local(c: Challenge) -> Seq<char> {
    if c.challenge_zh@.len() > 0 {
        LOCAL_HINT_CHALLENGE@ + c.challenge_zh@
    } else if c.instructions@.len() > 0 {
        LOCAL_HINT_INSTRUCTIONS@ + c.instructions@
    } else {
        LOCAL_HINT_DEFAULT@
    }
}

/// A hint written without a text generator.
pub fn freeform_hint_local(c: &Challenge) -> (r: String)
    ensures
        r@ == spec_freeform_hint_local(*c),
{
    let mut r: Vec<char> = Vec::new();
    if !c.challenge_zh.as_str().is_empty() {
        push_str(&mut r, LOCAL_HINT_CHALLENGE);
        push_str(&mut r, c.challenge_zh.as_str());
        assert(r@ == LOCAL_HINT_CHALLENGE@ + c.challenge_zh@);
    } else if !c.instructions.as_str().is_empty() {
        push_str(&mut r, LOCAL_HINT_INSTRUCTIONS);
        push_str(&mut r, c.instructions.as_str());
        assert(r@ == LOCAL_HINT_INSTRUCTIONS@ + c.instructions@);
    } else {
        push_str(&mut r, LOCAL_HINT_DEFAULT);
        assert(r@ == LOCAL_HINT_DEFAULT@);
    }
    from_chars(&r)
}

/// The fixed translation of a text: that of the five sentences known, or a
/// note that there is none.
pub open spec fn spec_translate_stub(text: Seq<char>) -> Seq<char> {
    if text == STUB_ZH_1@ {
        STUB_EN_1@
    } else if text == STUB_ZH_2@ {
        STUB_EN_2@
    } else if text == STUB_ZH_3@ {
        STUB_EN_3@
    } else if text == STUB_ZH_4@ {
        STUB_EN_4@
    } else if text == STUB_ZH_5@ {
        STUB_EN_5@
    } else {
        TRANSLATION_UNKNOWN@
    }
}

/// The fixed translation of a text.
pub fn translate_stub(text: &str) -> (r: String)
    ensures
        r@ == spec_translate_stub(text@),
{
    if same_text(text, STUB_ZH_1) {
        STUB_EN_1.to_string()
    } else if same_text(text, STUB_ZH_2) {
        STUB_EN_2.to_string()
    } else if same_text(text, STUB_ZH_3) {
        STUB_EN_3.to_string()
    } else if same_text(text, STUB_ZH_4) {
        STUB_EN_4.to_string()
    } else if same_text(text, STUB_ZH_5) {
        STUB_EN_5.to_string()
    } else {
        TRANSLATION_UNKNOWN.to_string()
    }
}

/// The fixed reply to a question, given the question and its lowercase
/// form: on the particle 了 where the question holds it, or holds `le `, or
/// is `le`; on `why` where it holds that word; else a general one.
pub open spec fn spec_agent_reply(text: Seq<char>, lowered: Seq<char>) -> Seq<char> {
    if spec_contains(text, seq!['了']) || spec_contains(lowered, seq!['l', 'e', ' ']) || lowered
        == seq!['l', 'e'] {
        REPLY_ASPECT@
    } else if spec_contains(lowered, seq!['w', 'h', 'y']) {
        REPLY_WHY@
    } else {
        REPLY_DEFAULT@
    }
}

/// The fixed reply to a question, given the question and its lowercase
/// form.
pub fn agent_reply_for(text: &str, lowered: &str) -> (r: String)
    ensures
        r@ == spec_agent_reply(text@, lowered@),
{
    let t = to_chars(text);
    let low = to_chars(lowered);
    let particle: Vec<char> = vec!['了'];
    let le_space: Vec<char> = vec!['l', 'e', ' '];
    let le: Vec<char> = vec!['l', 'e'];
    let why: Vec<char> = vec!['w', 'h', 'y'];
    assert(particle@ == seq!['了']);
    assert(le_space@ == seq!['l', 'e', ' ']);
    assert(le@ == seq!['l', 'e']);
    assert(why@ == seq!['w', 'h', 'y']);
    if contains_chars(&t, &particle) || contains_chars(&low, &le_space) || crate::text::same_chars(
        &low,
        &le,
    ) {
        REPLY_ASPECT.to_string()
    } else if contains_chars(&low, &why) {
        REPLY_WHY.to_string()
    } else {
        REPLY_DEFAULT.to_string()
    }
}

/// The fixed reply to a question, for when no text generator answers.
pub fn agent_reply_stub(text: &str) -> (r: String)
    ensures
        r@ == spec_agent_reply(text@, lowercase_of(text@)),
{
    let lowered = to_lowercase(text);
    agent_reply_for(text, lowered.as_str())
}

} // verus!
