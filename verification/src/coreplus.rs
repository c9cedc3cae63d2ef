//! The two-step challenge: its data, the reference answer, and the strict
//! check of a generated item.
//!
//! A `CorePlusSpec` names two connective patterns and three short
//! propositions P1, P2, P3. Sentence 1 joins P1 and P2 by the pattern of the
//! first step, sentence 2 joins P2 and P3 by the pattern of the second step.

use vstd::prelude::*;
use crate::matcher::{spec_structural_match, structural_match_chars};
use crate::sentence::{
    full_stop,
    spec_split_two,
    spec_trim_sentence,
    split_two_chars,
    trim_sentence_chars,
};
use crate::text::{
    contains_chars,
    from_chars,
    push_chars,
    push_str,
    remove_white_space,
    replace_chars,
    same_chars,
    spec_contains,
    spec_replace,
    spec_trim,
    strs_of,
    texts_of,
    to_chars,
    trim_chars,
    without_white_space,
};

verus! {

/// Trusted: the type `serde_json::Value`, which holds the free-form
/// metadata of a generated item. A value is carried along and never read, so
/// nothing is stated of what it holds.
#[verifier::external_type_specification]
#[verifier::external_body]
pub struct ExJsonValue(serde_json::Value);

pub const VERSION: &'static str = "core_plus_core.zh.v2";

pub const LANGUAGE: &'static str = "zh";

pub const MODE: &'static str = "core_plus_core";

/// The instructions that go with a sampled challenge to a text generator.
pub const CORE_PLUS_CORE_SYSTEM_PROMPT: &'static str =
    "\nYou are a Chinese learning item generator.\nYou MUST follow the provided SPEC exactly.\n\nReturn ONLY strict JSON with keys:\n  seed_zh, challenge_zh, reference_answer_zh, meta\n\nRules:\n- Use SPEC.seed as seed_zh verbatim.\n- Do NOT add any new facts. Use ONLY P1, P2, P3 from SPEC.props.\n- Use P1, P2, P3 verbatim (no paraphrasing / no synonym replacement).\n- The learner must rewrite using TWO patterns:\n  - Sentence 1 must connect P1 and P2 using SPEC.step1.pattern_tpl\n  - Sentence 2 must connect P2 and P3 using SPEC.step2.pattern_tpl\n- reference_answer_zh format must be EXACTLY two sentences separated by ONE '。'\n  - Sentence1 = apply step1 template with (A=P1, B=P2)\n  - Sentence2 = apply step2 template with (A=P2, B=P3)\n  - Output: \"<Sentence1>。<Sentence2>\"  (NO extra '。' at the end)\n- challenge_zh must clearly instruct:\n  - which TWO connector patterns to use, by showing SPEC.step1.markers_zh and SPEC.step2.markers_zh\n  - \"只写两句\" (two sentences only)\n- meta must include at minimum:\n  chain_id, scene_id, step1.pattern_id, step2.pattern_id, step1.relation, step2.relation, version\n";

pub const USER_MESSAGE_PREFIX: &'static str = "SPEC_JSON:\n";

pub const MSG_SEED_MISMATCH: &'static str = "seed_zh does not match SPEC.seed exactly";

pub const MSG_NOT_TWO_SENTENCES: &'static str =
    "reference_answer_zh must contain exactly two sentences";

pub const MSG_EXPECTED_SPLIT_FAILED: &'static str =
    "Internal error: expected reference split failed";

pub const MSG_TEMPLATES_NOT_APPLIED: &'static str =
    "reference_answer_zh did not apply templates exactly to P1/P2/P3";

pub const MSG_SENTENCE1_INVALID: &'static str = "reference sentence1 invalid: ";

pub const MSG_SENTENCE2_INVALID: &'static str = "reference sentence2 invalid: ";

pub const MSG_MISSING_A: &'static str = "缺少命题片段A：'";

pub const MSG_MISSING_B: &'static str = "缺少命题片段B：'";

pub const MSG_MISSING_MARKER: &'static str = "缺少强标记：'";

pub const MSG_QUOTE: &'static str = "'";

pub const MSG_SHAPE_MISMATCH: &'static str = "句式不匹配模式 ";

pub const CHALLENGE_OPEN: &'static str = "用“";

pub const CHALLENGE_AND: &'static str = "”和“";

pub const CHALLENGE_CLOSE: &'static str = "”，只写两句。";

/// One step of a challenge: a full copy of the pattern chosen for it.
#[derive(Clone, Debug)]
pub struct CorePlusSpecStep {
    pub relation: String,
    pub pattern_id: String,
    pub pattern_tpl: String,
    pub markers_zh: String,
    pub kind: String,
    pub level: u8,
    pub check_regex: String,
    pub strong_markers: Vec<String>,
    pub weak_markers: Vec<String>,
}

/// The three propositions of a challenge.
#[derive(Clone, Debug)]
pub struct CorePlusProps {
    pub p1: String,
    pub p2: String,
    pub p3: String,
}

/// A sampled challenge, complete in itself.
#[derive(Clone, Debug)]
pub struct CorePlusSpec {
    pub version: String,
    pub language: String,
    pub mode: String,
    pub chain_id: String,
    pub chain_step1_relation: String,
    pub chain_step2_relation: String,
    pub scene_id: String,
    pub scene_schema: String,
    pub step1: CorePlusSpecStep,
    pub step2: CorePlusSpecStep,
    pub seed: String,
    pub props: CorePlusProps,
}

/// A candidate item written by a text generator for a challenge. Only the
/// seed and the reference answer are read; the challenge text and the
/// metadata are carried along.
#[derive(Debug)]
pub struct CorePlusGeneratedItem {
    pub seed_zh: String,
    pub _challenge_zh: String,
    pub reference_answer_zh: String,
    pub _meta: serde_json::Value,
}

/// What a step holds.
pub struct StepView {
    pub relation: Seq<char>,
    pub pattern_id: Seq<char>,
    pub pattern_tpl: Seq<char>,
    pub markers_zh: Seq<char>,
    pub kind: Seq<char>,
    pub level: u8,
    pub check_regex: Seq<char>,
    pub strong_markers: Seq<Seq<char>>,
    pub weak_markers: Seq<Seq<char>>,
}

/// What the propositions hold.
pub struct PropsView {
    pub p1: Seq<char>,
    pub p2: Seq<char>,
    pub p3: Seq<char>,
}

/// What a challenge holds.
pub struct SpecView {
    pub version: Seq<char>,
    pub language: Seq<char>,
    pub mode: Seq<char>,
    pub chain_id: Seq<char>,
    pub chain_step1_relation: Seq<char>,
    pub chain_step2_relation: Seq<char>,
    pub scene_id: Seq<char>,
    pub scene_schema: Seq<char>,
    pub step1: StepView,
    pub step2: StepView,
    pub seed: Seq<char>,
    pub props: PropsView,
}

impl View for CorePlusSpecStep {
    type V = StepView;

    open spec fn view(&self) -> StepView {
        StepView {
            relation: self.relation@,
            pattern_id: self.pattern_id@,
            pattern_tpl: self.pattern_tpl@,
            markers_zh: self.markers_zh@,
            kind: self.kind@,
            level: self.level,
            check_regex: self.check_regex@,
            strong_markers: texts_of(self.strong_markers@),
            weak_markers: texts_of(self.weak_markers@),
        }
    }
}

impl View for CorePlusProps {
    type V = PropsView;

    open spec fn view(&self) -> PropsView {
        PropsView { p1: self.p1@, p2: self.p2@, p3: self.p3@ }
    }
}

impl View for CorePlusSpec {
    type V = SpecView;

    open spec fn view(&self) -> SpecView {
        SpecView {
            version: self.version@,
            language: self.language@,
            mode: self.mode@,
            chain_id: self.chain_id@,
            chain_step1_relation: self.chain_step1_relation@,
            chain_step2_relation: self.chain_step2_relation@,
            scene_id: self.scene_id@,
            scene_schema: self.scene_schema@,
            step1: self.step1@,
            step2: self.step2@,
            seed: self.seed@,
            props: self.props@,
        }
    }
}

/// The placeholder `{A}`.
pub open spec fn placeholder_a() -> Seq<char> {
    seq!['{', 'A', '}']
}

/// The placeholder `{B}`.
pub open spec fn placeholder_b() -> Seq<char> {
    seq!['{', 'B', '}']
}

/// The template with `a` in place of each `{A}` and then `b` in place of
/// each `{B}`.
pub open spec fn spec_render(tpl: Seq<char>, a: Seq<char>, b: Seq<char>) -> Seq<char> {
    spec_replace(spec_replace(tpl, placeholder_a(), a), placeholder_b(), b)
}

/// The rendered sentence of the first step: its template on P1 and P2,
/// trimmed and without a terminal mark.
pub open spec fn reference_sentence1(spec: SpecView) -> Seq<char> {
    spec_trim_sentence(spec_render(spec.step1.pattern_tpl, spec.props.p1, spec.props.p2))
}

/// The rendered sentence of the second step: its template on P2 and P3,
/// trimmed and without a terminal mark.
pub open spec fn reference_sentence2(spec: SpecView) -> Seq<char> {
    spec_trim_sentence(spec_render(spec.step2.pattern_tpl, spec.props.p2, spec.props.p3))
}

/// The reference answer: the two rendered sentences with one full stop
/// between them and none at the end.
pub open spec fn spec_reference(spec: SpecView) -> Seq<char> {
    reference_sentence1(spec) + full_stop() + reference_sentence2(spec)
}

/// The short instruction that names the marker labels of both steps.
pub open spec fn spec_compact_challenge(spec: SpecView) -> Seq<char> {
    CHALLENGE_OPEN@ + spec.step1.markers_zh + CHALLENGE_AND@ + spec.step2.markers_zh
        + CHALLENGE_CLOSE@
}

/// Whether one of `markers` that is not empty stands in `text`. The list
/// stands for a set: see `lemma_any_marker_in_is_of_the_set`.
pub open spec fn any_marker_in(text: Seq<char>, markers: Seq<Seq<char>>) -> bool {
    exists|k: int|
        0 <= k < markers.len() && (#[trigger] markers[k]).len() > 0 && spec_contains(
            text,
            markers[k],
        )
}

/// Whether a text holds one of a list of tokens depends on the set of the
/// tokens alone: not on their order, nor on how often one occurs.
pub proof fn lemma_any_marker_in_is_of_the_set(
    text: Seq<char>,
    a: Seq<Seq<char>>,
    b: Seq<Seq<char>>,
)
    requires
        a.to_set() == b.to_set(),
    ensures
        any_marker_in(text, a) == any_marker_in(text, b),
{
    assert forall|x: Seq<Seq<char>>, y: Seq<Seq<char>>|
        x.to_set() == y.to_set() && any_marker_in(text, x) implies any_marker_in(text, y) by {
        let k = choose|k: int|
            0 <= k < x.len() && (#[trigger] x[k]).len() > 0 && spec_contains(text, x[k]);
        assert(x.contains(x[k]));
        assert(x.to_set().contains(x[k]));
        assert(y.to_set().contains(x[k]));
        assert(y.contains(x[k]));
        let j = choose|j: int| 0 <= j < y.len() && y[j] == x[k];
        assert(y[j].len() > 0 && spec_contains(text, y[j]));
    }
}

/// A text holds one of the tokens of two lists taken together exactly when
/// it holds one of the first list or one of the second.
pub proof fn lemma_any_marker_in_either(text: Seq<char>, a: Seq<Seq<char>>, b: Seq<Seq<char>>)
    ensures
        any_marker_in(text, a + b) == (any_marker_in(text, a) || any_marker_in(text, b)),
{
    let both = a + b;
    if any_marker_in(text, a) {
        let k = choose|k: int|
            0 <= k < a.len() && (#[trigger] a[k]).len() > 0 && spec_contains(text, a[k]);
        assert(both[k] == a[k]);
    }
    if any_marker_in(text, b) {
        let k = choose|k: int|
            0 <= k < b.len() && (#[trigger] b[k]).len() > 0 && spec_contains(text, b[k]);
        assert(both[a.len() + k] == b[k]);
    }
    if any_marker_in(text, both) {
        let k = choose|k: int|
            0 <= k < both.len() && (#[trigger] both[k]).len() > 0 && spec_contains(
                text,
                both[k],
            );
        if k < a.len() {
            assert(a[k] == both[k]);
        } else {
            assert(b[k - a.len()] == both[k]);
        }
    }
}

/// The first of `markers`, from place `k` on, that is not empty and does not
/// stand in `sentence`.
pub open spec fn first_missing_marker(sentence: Seq<char>, markers: Seq<Seq<char>>, k: int)
    -> Option<int>
    decreases markers.len() - k,
{
    if k < 0 || k >= markers.len() {
        None
    } else if markers[k].len() > 0 && !spec_contains(sentence, markers[k]) {
        Some(k)
    } else {
        first_missing_marker(sentence, markers, k + 1)
    }
}

/// What is said of a sentence that lacks a proposition or a marker.
pub open spec fn missing_message(prefix: Seq<char>, what: Seq<char>) -> Seq<char> {
    prefix + what + MSG_QUOTE@
}

/// What is said of a sentence that does not have the shape of the pattern.
pub open spec fn shape_message(markers_zh: Seq<char>) -> Seq<char> {
    MSG_SHAPE_MISMATCH@ + markers_zh
}

/// The verdict on a sentence by the pattern alone: `Ok` where it holds every
/// strong marker of the step and satisfies its structural expression; else
/// the message for the first marker that is missing or, where none is, for
/// the shape.
pub open spec fn pattern_verdict(step: StepView, sentence: Seq<char>) -> Result<(), Seq<char>> {
    match first_missing_marker(sentence, step.strong_markers, 0) {
        Some(k) => Err(missing_message(MSG_MISSING_MARKER@, step.strong_markers[k])),
        None => if spec_structural_match(step.check_regex, sentence) {
            Ok(())
        } else {
            Err(shape_message(step.markers_zh))
        },
    }
}

/// The strict verdict on a sentence: it has to hold both propositions, and
/// then to pass by the pattern.
pub open spec fn sentence_verdict(
    step: StepView,
    sentence: Seq<char>,
    expected_a: Seq<char>,
    expected_b: Seq<char>,
) -> Result<(), Seq<char>> {
    if !spec_contains(sentence, expected_a) {
        Err(missing_message(MSG_MISSING_A@, expected_a))
    } else if !spec_contains(sentence, expected_b) {
        Err(missing_message(MSG_MISSING_B@, expected_b))
    } else {
        pattern_verdict(step, sentence)
    }
}

/// The strict verdict on a generated item, given by its seed and its
/// reference answer. The checks are made in this order, and the first that
/// fails gives the message:
/// the seeds are equal once trimmed; the answer holds exactly two sentences;
/// so does the reference answer of the challenge; the sentences are equal to
/// those of the reference answer once all white space is taken out; each
/// sentence passes the strict check of its step.
pub open spec fn item_verdict(spec: SpecView, seed: Seq<char>, reference: Seq<char>) -> Result<
    (),
    Seq<char>,
> {
    if spec_trim(seed) != spec_trim(spec.seed) {
        Err(MSG_SEED_MISMATCH@)
    } else {
        match spec_split_two(reference) {
            None => Err(MSG_NOT_TWO_SENTENCES@),
            Some(got) => match spec_split_two(spec_reference(spec)) {
                None => Err(MSG_EXPECTED_SPLIT_FAILED@),
                Some(expected) => if without_white_space(got.0) != without_white_space(expected.0)
                    || without_white_space(got.1) != without_white_space(expected.1) {
                    Err(MSG_TEMPLATES_NOT_APPLIED@)
                } else {
                    match sentence_verdict(spec.step1, got.0, spec.props.p1, spec.props.p2) {
                        Err(e) => Err(MSG_SENTENCE1_INVALID@ + e),
                        Ok(_) => match sentence_verdict(
                            spec.step2,
                            got.1,
                            spec.props.p2,
                            spec.props.p3,
                        ) {
                            Err(e) => Err(MSG_SENTENCE2_INVALID@ + e),
                            Ok(_) => Ok(()),
                        },
                    }
                },
            },
        }
    }
}

/// The template with `a` in place of each `{A}` and then `b` in place of
/// each `{B}`, all given as characters.
pub fn render_chars(tpl: &Vec<char>, a: &Vec<char>, b: &Vec<char>) -> (r: Vec<char>)
    ensures
        r@ == spec_render(tpl@, a@, b@),
{
    let hole_a: Vec<char> = vec!['{', 'A', '}'];
    let hole_b: Vec<char> = vec!['{', 'B', '}'];
    assert(hole_a@ == placeholder_a());
    assert(hole_b@ == placeholder_b());
    let with_a = replace_chars(tpl, &hole_a, a);
    replace_chars(&with_a, &hole_b, b)
}

/// The template with `a` in place of each `{A}` and then `b` in place of
/// each `{B}`.
pub fn render_template_ab(tpl: &str, a: &str, b: &str) -> (r: String)
    ensures
        r@ == spec_render(tpl@, a@, b@),
{
    let r = render_chars(&to_chars(tpl), &to_chars(a), &to_chars(b));
    from_chars(&r)
}

/// The reference answer of a challenge, as characters.
pub fn reference_chars(spec: &CorePlusSpec) -> (r: Vec<char>)
    ensures
        r@ == spec_reference(spec@),
{
    let p1 = to_chars(spec.props.p1.as_str());
    let p2 = to_chars(spec.props.p2.as_str());
    let p3 = to_chars(spec.props.p3.as_str());
    let s1 = render_chars(&to_chars(spec.step1.pattern_tpl.as_str()), &p1, &p2);
    let s2 = render_chars(&to_chars(spec.step2.pattern_tpl.as_str()), &p2, &p3);
    let mut r = trim_sentence_chars(&s1);
    r.push('。');
    let tail = trim_sentence_chars(&s2);
    push_chars(&mut r, &tail);
    assert(r@ == spec_reference(spec@));
    r
}

/// The reference answer of a challenge: sentence 1, one full stop, sentence
/// 2, and no mark at the end.
pub fn build_expected_reference_answer(spec: &CorePlusSpec) -> (r: String)
    ensures
        r@ == spec_reference(spec@),
{
    let r = reference_chars(spec);
    from_chars(&r)
}

/// The short instruction shown with a challenge: it names the marker labels
/// of both steps and asks for two sentences.
pub fn build_compact_challenge_zh(spec: &CorePlusSpec) -> (r: String)
    ensures
        r@ == spec_compact_challenge(spec@),
{
    let mut r: Vec<char> = Vec::new();
    push_str(&mut r, CHALLENGE_OPEN);
    push_str(&mut r, spec.step1.markers_zh.as_str());
    push_str(&mut r, CHALLENGE_AND);
    push_str(&mut r, spec.step2.markers_zh.as_str());
    push_str(&mut r, CHALLENGE_CLOSE);
    assert(r@ == spec_compact_challenge(spec@));
    from_chars(&r)
}

/// The message sent with a challenge to a text generator: the challenge as
/// JSON text behind a fixed prefix.
pub fn build_core_plus_core_user_message(spec_json: &str) -> (r: String)
    ensures
        r@ == USER_MESSAGE_PREFIX@ + spec_json@,
{
    let mut r: Vec<char> = Vec::new();
    push_str(&mut r, USER_MESSAGE_PREFIX);
    push_str(&mut r, spec_json);
    assert(r@ == USER_MESSAGE_PREFIX@ + spec_json@);
    from_chars(&r)
}

/// Whether one of `tokens` that is not empty stands in `text`. The tokens
/// are given as a list; the answer is that of the set of them.
pub fn contains_any(text: &str, tokens: &Vec<&'static str>) -> (r: bool)
    ensures
        r == any_marker_in(text@, strs_of(tokens@)),
{
    let t = to_chars(text);
    let mut k: usize = 0;
    while k < tokens.len()
        invariant
            k <= tokens.len(),
            t@ == text@,
            forall|j: int|
                0 <= j < k ==> !((#[trigger] strs_of(tokens@)[j]).len() > 0 && spec_contains(
                    t@,
                    strs_of(tokens@)[j],
                )),
        decreases tokens.len() - k,
    {
        let token = to_chars(tokens[k]);
        assert(strs_of(tokens@)[k as int] == token@);
        if token.len() > 0 && contains_chars(&t, &token) {
            return true;
        }
        k += 1;
    }
    false
}

/// Whether one of `markers` that is not empty stands in `text`, both given
/// as characters and strings.
pub fn any_marker_in_chars(text: &Vec<char>, markers: &Vec<String>) -> (r: bool)
    ensures
        r == any_marker_in(text@, texts_of(markers@)),
{
    let mut k: usize = 0;
    while k < markers.len()
        invariant
            k <= markers.len(),
            forall|j: int|
                0 <= j < k ==> !((#[trigger] texts_of(markers@)[j]).len() > 0 && spec_contains(
                    text@,
                    texts_of(markers@)[j],
                )),
        decreases markers.len() - k,
    {
        let marker = to_chars(markers[k].as_str());
        assert(texts_of(markers@)[k as int] == marker@);
        if marker.len() > 0 && contains_chars(text, &marker) {
            return true;
        }
        k += 1;
    }
    false
}

/// Whether one of `markers` that is not empty stands in `text`.
pub fn contains_any_marker(text: &str, markers: &Vec<String>) -> (r: bool)
    ensures
        r == any_marker_in(text@, texts_of(markers@)),
{
    let t = to_chars(text);
    any_marker_in_chars(&t, markers)
}

/// The message made of `prefix`, `what` and a closing quote.
fn missing_message_of(prefix: &str, what: &Vec<char>) -> (r: String)
    ensures
        r@ == missing_message(prefix@, what@),
{
    let mut m: Vec<char> = Vec::new();
    push_str(&mut m, prefix);
    push_chars(&mut m, what);
    push_str(&mut m, MSG_QUOTE);
    assert(m@ == missing_message(prefix@, what@));
    from_chars(&m)
}

/// The verdict on a sentence by the pattern alone, the sentence given as
/// characters.
pub fn pattern_verdict_chars(step: &CorePlusSpecStep, sentence: &Vec<char>) -> (r: Result<
    (),
    String,
>)
    ensures
        match r {
            Ok(_) => pattern_verdict(step@, sentence@) is Ok,
            Err(e) => pattern_verdict(step@, sentence@) == Err::<(), Seq<char>>(e@),
        },
{
    let ghost markers = texts_of(step.strong_markers@);
    let mut k: usize = 0;
    while k < step.strong_markers.len()
        invariant
            k <= step.strong_markers.len(),
            markers == texts_of(step.strong_markers@),
            markers == step@.strong_markers,
            first_missing_marker(sentence@, markers, k as int) == first_missing_marker(
                sentence@,
                markers,
                0,
            ),
        decreases step.strong_markers.len() - k,
    {
        let marker = to_chars(step.strong_markers[k].as_str());
        assert(markers[k as int] == marker@);
        if marker.len() > 0 && !contains_chars(sentence, &marker) {
            return Err(missing_message_of(MSG_MISSING_MARKER, &marker));
        }
        k += 1;
    }
    let regex = to_chars(step.check_regex.as_str());
    if !structural_match_chars(&regex, sentence) {
        let mut m: Vec<char> = Vec::new();
        push_str(&mut m, MSG_SHAPE_MISMATCH);
        push_str(&mut m, step.markers_zh.as_str());
        assert(m@ == shape_message(step@.markers_zh));
        return Err(from_chars(&m));
    }
    Ok(())
}

/// The verdict on a sentence by the pattern alone: every strong marker of
/// the step, and its structural expression.
pub fn validate_sentence_pattern_only(step: &CorePlusSpecStep, sentence: &str) -> (r: Result<
    (),
    String,
>)
    ensures
        match r {
            Ok(_) => pattern_verdict(step@, sentence@) is Ok,
            Err(e) => pattern_verdict(step@, sentence@) == Err::<(), Seq<char>>(e@),
        },
{
    let s = to_chars(sentence);
    pattern_verdict_chars(step, &s)
}

/// The strict verdict on a sentence, all texts given as characters.
pub fn sentence_verdict_chars(
    step: &CorePlusSpecStep,
    sentence: &Vec<char>,
    expected_a: &Vec<char>,
    expected_b: &Vec<char>,
) -> (r: Result<(), String>)
    ensures
        match r {
            Ok(_) => sentence_verdict(step@, sentence@, expected_a@, expected_b@) is Ok,
            Err(e) => sentence_verdict(step@, sentence@, expected_a@, expected_b@) == Err::<
                (),
                Seq<char>,
            >(e@),
        },
{
    if !contains_chars(sentence, expected_a) {
        return Err(missing_message_of(MSG_MISSING_A, expected_a));
    }
    if !contains_chars(sentence, expected_b) {
        return Err(missing_message_of(MSG_MISSING_B, expected_b));
    }
    pattern_verdict_chars(step, sentence)
}

/// The strict verdict on a sentence: both propositions, every strong marker
/// of the step, and its structural expression.
pub fn validate_sentence(
    step: &CorePlusSpecStep,
    sentence: &str,
    expected_a: &str,
    expected_b: &str,
) -> (r: Result<(), String>)
    ensures
        match r {
            Ok(_) => sentence_verdict(step@, sentence@, expected_a@, expected_b@) is Ok,
            Err(e) => sentence_verdict(step@, sentence@, expected_a@, expected_b@) == Err::<
                (),
                Seq<char>,
            >(e@),
        },
{
    sentence_verdict_chars(step, &to_chars(sentence), &to_chars(expected_a), &to_chars(expected_b))
}

/// The message made of `prefix` and `detail`.
fn prefixed_message(prefix: &str, detail: &String) -> (r: String)
    ensures
        r@ == prefix@ + detail@,
{
    let mut m: Vec<char> = Vec::new();
    push_str(&mut m, prefix);
    push_str(&mut m, detail.as_str());
    assert(m@ == prefix@ + detail@);
    from_chars(&m)
}

/// The strict check of a generated item against its challenge. It passes
/// or fails as a whole; the message names the first check that failed.
pub fn validate_generated_item(spec: &CorePlusSpec, item: &CorePlusGeneratedItem) -> (r: Result<
    (),
    String,
>)
    ensures
        match r {
            Ok(_) => item_verdict(spec@, item.seed_zh@, item.reference_answer_zh@) is Ok,
            Err(e) => item_verdict(spec@, item.seed_zh@, item.reference_answer_zh@) == Err::<
                (),
                Seq<char>,
            >(e@),
        },
{
    let item_seed = trim_chars(&to_chars(item.seed_zh.as_str()));
    let spec_seed = trim_chars(&to_chars(spec.seed.as_str()));
    if !same_chars(&item_seed, &spec_seed) {
        return Err(MSG_SEED_MISMATCH.to_string());
    }
    let expected_ref = reference_chars(spec);
    let got = match split_two_chars(&to_chars(item.reference_answer_zh.as_str())) {
        Some(pair) => pair,
        None => {
            return Err(MSG_NOT_TWO_SENTENCES.to_string());
        },
    };
    let expected = match split_two_chars(&expected_ref) {
        Some(pair) => pair,
        None => {
            return Err(MSG_EXPECTED_SPLIT_FAILED.to_string());
        },
    };
    if !same_chars(&remove_white_space(&got.0), &remove_white_space(&expected.0)) || !same_chars(
        &remove_white_space(&got.1),
        &remove_white_space(&expected.1),
    ) {
        return Err(MSG_TEMPLATES_NOT_APPLIED.to_string());
    }
    let p1 = to_chars(spec.props.p1.as_str());
    let p2 = to_chars(spec.props.p2.as_str());
    let p3 = to_chars(spec.props.p3.as_str());
    match sentence_verdict_chars(&spec.step1, &got.0, &p1, &p2) {
        Err(e) => {
            return Err(prefixed_message(MSG_SENTENCE1_INVALID, &e));
        },
        Ok(_) => {},
    }
    match sentence_verdict_chars(&spec.step2, &got.1, &p2, &p3) {
        Err(e) => {
            return Err(prefixed_message(MSG_SENTENCE2_INVALID, &e));
        },
        Ok(_) => {},
    }
    Ok(())
}

} // verus!
