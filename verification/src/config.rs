//! The configuration of the agent: prompts and an optional bank of
//! challenges.

use vstd::prelude::*;
use crate::domain::Rubric;

verus! {

/// The default of `Prompts::challenge_system`.
pub const DEFAULT_CHALLENGE_SYSTEM: &'static str =
    "\nYou are a Chinese learning content generator. Respond ONLY with strict JSON (no markdown, no comments).\nReturn EXACTLY these top-level keys and nothing else: seed_zh, seed_en, challenge_zh, challenge_en, summary_en.\n\nObjective\n- Create natural Chinese SEED sentence, that sets the scene.\n- Append a verb challenge that tells the learner which verb to add.\n- Append a place challenge that challenges the learner to construct the sentence to a place.\n- Append a subject challenge that challenges the learner to rephrase the seed for another subject.\n\nOutput format\n{\n  \"seed_zh\": \"<seed sentence in Chinese>\",\n  \"seed_en\": \"<seed sentence in English>\",\n  \"challenge_zh\": \"<whole challenge in Chinese>\",\n  \"challenge_en\": \"<whole challenge in English>\",\n  \"summary_en\": \"<seed + challenge summary in English>\"\n}\n\nGlobal rules\n- Use Simplified Chinese.\n- Keep vocabulary within the requested HSK band.\n- When the dificulty is high consider adding multiple verbs, places or subjects.\n- The seed must NOT semantically entail or already include the chosen challenges.\n- Make the challenges fun. \n\nGive priority to some of these stance verbs — choose ONE (at random), appropriate to the requested difficulty or the provided glue_en\n\nHSK1–2 (volition/attitude basics):\n  想, 要, 喜欢, 爱, 怕, 需要, ... others\nHSK2–3 (basic stance & planning):\n  觉得, 希望, 打算, 想要, 决定, 担心, 害怕, 同意, 反对, 关心, 讨厌, ... others\nHSK3–4 (willingness/planning/feeling):\n  相信, 愿意, 乐意, 选择, 计划, 安排, 考虑, 试着, 尝试, 想念, 渴望, 感到, 感觉, ... others\nHSK5–6 — 认知/判断:\n  认为, 以为, 怀疑, 估计, 猜想, 猜测, 推测, 确信, 坚信, 发现, 设想, 想象, ... others\nHSK5–6 — 意愿/立场:\n  期望, 期待, 盼望, 向往, 憧憬, 宁愿, 宁可, 情愿, 甘愿, 拒绝, 答应, 承诺, 保证, ... others\nHSK5–6 — 情感/态度:\n  热爱, 喜爱, 厌恶, 反感, 担忧, 忧虑, 后悔, 遗憾, 庆幸, 赞成, 认同, 支持, 主张, ... others\n";

/// The default of `Prompts::challenge_user_template`.
pub const DEFAULT_CHALLENGE_USER_TEMPLATE: &'static str =
    "\ndifficulty=\"{difficulty}\"\n";

/// The default of `Prompts::validation_system`.
pub const DEFAULT_VALIDATION_SYSTEM: &'static str =
    "\nYou are a stateless validator for a 'challenge' task. Ignore any prior messages.\nReply ONLY with strict JSON: {\"correct\": boolean, \"explanation\": string}.\n\nYou receive:\n- seed_zh: Original seed sentence\n- challenge_zh: Challenge in Chinese\n- user_answer: learner's (user) Chinese sentence\n\nMark correct = true if:\n   (a) If user_answer resolves the challenge_zh in the seed_zh context.\n   (b) user_answer preserves the seed’s topic/meaning (allow added subject/time/aspect; light reordering), AND\n   (c) grammar is natural.\n   (d) creativity is encouraged, is positive that the user adds new characters and new forms of formulating the topic. \n\nIf incorrect: explanation must name the expected glue, what was found (if any), and give a one-sentence fix.\n";

/// The default of `Prompts::validation_user_template`.
pub const DEFAULT_VALIDATION_USER_TEMPLATE: &'static str =
    "\nseed_zh: {seed_zh}\nchallenge_zh: {challenge_zh}\nuser_answer: {user_answer}\n";

/// The default of `Prompts::hint_system`.
pub const DEFAULT_HINT_SYSTEM: &'static str =
    "You are a Chinese learning coach. Keep hints short and do NOT reveal the full answer.";

/// The default of `Prompts::hint_user_template`.
pub const DEFAULT_HINT_USER_TEMPLATE: &'static str =
    "Sentence (zh): {zh}\nEnglish: {en}\nGive ONE concise hint (< 20 words), e.g., first word and why.";

/// The default of `Prompts::translate_system`.
pub const DEFAULT_TRANSLATE_SYSTEM: &'static str =
    "Translate the user's text to natural English. Output ONLY the translation text.";

/// The default of `Prompts::pinyin_system`.
pub const DEFAULT_PINYIN_SYSTEM: &'static str =
    "Convert Chinese text to Hanyu Pinyin with tone diacritics, space-separated. Output ONLY pinyin for Han characters; copy non-Chinese as-is.";

/// The default of `Prompts::agent_reply_system`.
pub const DEFAULT_AGENT_REPLY_SYSTEM: &'static str =
    "You answer questions concisely, always in English, and Chinese (include pinyin).";

/// The default of `Prompts::freeform_eval_system`.
pub const DEFAULT_FREEFORM_EVAL_SYSTEM: &'static str =
    "You are a strict Chinese writing evaluator. Be concise. Output JSON only.";

/// The default of `Prompts::freeform_eval_user_template`.
pub const DEFAULT_FREEFORM_EVAL_USER_TEMPLATE: &'static str =
    "Instructions: {instructions}\nRubric (JSON): {rubric_json}\nUser answer: {answer}\n\nReturn JSON: {\"correct\": boolean, \"score\": number, \"explanation\": string}\nScoring: 0-100. 'correct' = true if score >= 60.";

/// The default of `Prompts::freeform_hint_system`.
pub const DEFAULT_FREEFORM_HINT_SYSTEM: &'static str =
    "Suggest 5 concise vocab items (Chinese + pinyin) and one useful pattern for the task. Keep it short.";

/// The default of `Prompts::freeform_hint_user_template`.
pub const DEFAULT_FREEFORM_HINT_USER_TEMPLATE: &'static str =
    "Provide vocab/patterns to help with: {instructions}";

/// The prompts and the challenges that a configuration file provides.
#[derive(Clone, Debug)]
pub struct AgentConfig {
    pub prompts: Prompts,
    pub challenges: Vec<ChallengeCfg>,
}

impl Default for AgentConfig {
    fn default() -> (config: Self)
        ensures
            config.prompts.is_default(),
            config.challenges@.len() == 0,
    {
        AgentConfig { prompts: Prompts::default(), challenges: Vec::new() }
    }
}

/// A challenge of the bank. The instructions are optional, since a seed and
/// a challenge can be generated at run time instead.
#[derive(Clone, Debug)]
pub struct ChallengeCfg {
    pub id: Option<String>,
    pub difficulty: String,
    pub instructions: Option<String>,
    pub rubric: Option<Rubric>,
}

/// The prompts for the text generator.
#[derive(Clone, Debug)]
pub struct Prompts {
    pub challenge_system: String,
    pub challenge_user_template: String,
    pub validation_system: String,
    pub validation_user_template: String,
    pub hint_system: String,
    pub hint_user_template: String,
    pub translate_system: String,
    pub pinyin_system: String,
    pub agent_reply_system: String,
    pub freeform_eval_system: String,
    pub freeform_eval_user_template: String,
    pub freeform_hint_system: String,
    pub freeform_hint_user_template: String,
}

impl Prompts {
    /// Whether every prompt holds its default text.
    pub open spec fn is_default(&self) -> bool {
        &&& self.challenge_system@ == DEFAULT_CHALLENGE_SYSTEM@
        &&& self.challenge_user_template@ == DEFAULT_CHALLENGE_USER_TEMPLATE@
        &&& self.validation_system@ == DEFAULT_VALIDATION_SYSTEM@
        &&& self.validation_user_template@ == DEFAULT_VALIDATION_USER_TEMPLATE@
        &&& self.hint_system@ == DEFAULT_HINT_SYSTEM@
        &&& self.hint_user_template@ == DEFAULT_HINT_USER_TEMPLATE@
        &&& self.translate_system@ == DEFAULT_TRANSLATE_SYSTEM@
        &&& self.pinyin_system@ == DEFAULT_PINYIN_SYSTEM@
        &&& self.agent_reply_system@ == DEFAULT_AGENT_REPLY_SYSTEM@
        &&& self.freeform_eval_system@ == DEFAULT_FREEFORM_EVAL_SYSTEM@
        &&& self.freeform_eval_user_template@ == DEFAULT_FREEFORM_EVAL_USER_TEMPLATE@
        &&& self.freeform_hint_system@ == DEFAULT_FREEFORM_HINT_SYSTEM@
        &&& self.freeform_hint_user_template@ == DEFAULT_FREEFORM_HINT_USER_TEMPLATE@
    }
}

impl Default for Prompts {
    fn default() -> (prompts: Self)
        ensures
            prompts.is_default(),
    {
        Prompts {
            challenge_system: DEFAULT_CHALLENGE_SYSTEM.to_string(),
            challenge_user_template: DEFAULT_CHALLENGE_USER_TEMPLATE.to_string(),
            validation_system: DEFAULT_VALIDATION_SYSTEM.to_string(),
            validation_user_template: DEFAULT_VALIDATION_USER_TEMPLATE.to_string(),
            hint_system: DEFAULT_HINT_SYSTEM.to_string(),
            hint_user_template: DEFAULT_HINT_USER_TEMPLATE.to_string(),
            translate_system: DEFAULT_TRANSLATE_SYSTEM.to_string(),
            pinyin_system: DEFAULT_PINYIN_SYSTEM.to_string(),
            agent_reply_system: DEFAULT_AGENT_REPLY_SYSTEM.to_string(),
            freeform_eval_system: DEFAULT_FREEFORM_EVAL_SYSTEM.to_string(),
            freeform_eval_user_template: DEFAULT_FREEFORM_EVAL_USER_TEMPLATE.to_string(),
            freeform_hint_system: DEFAULT_FREEFORM_HINT_SYSTEM.to_string(),
            freeform_hint_user_template: DEFAULT_FREEFORM_HINT_USER_TEMPLATE.to_string(),
        }
    }
}

} // verus!
