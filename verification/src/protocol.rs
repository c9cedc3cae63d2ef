//! The messages of the WebSocket and HTTP endpoints, as plain data.

use vstd::prelude::*;
use crate::domain::{Challenge, ChallengeKind, ChallengeSource};

verus! {

/// Messages that a client can send over WebSocket.
#[derive(Debug)]
pub enum ClientWsMessage {
    Ping,
    NewChallenge { difficulty: String },
    SubmitAnswer { challenge_id: String, answer: String },
    Hint { challenge_id: String },
    TranslateInput { text: String },
    PinyinInput { text: String },
    GrammarInput { text: String },
    SpeechToTextInput { audio_base64: String, mime: String },
    NextChar { challenge_id: String, current: String },
    AgentMessage { challenge_id: String, text: String },
    AgentReset,
    SaveSettings {},
}

/// Messages that the server sends back over WebSocket. The score is a whole
/// number from 0 to 100.
#[derive(Debug)]
pub enum ServerWsMessage {
    Pong,
    Challenge { challenge: ChallengeOut },
    AnswerResult { correct: bool, score: u32, expected: String, explanation: String },
    Hint { text: String },
    Translate { text: String, translation: String },
    Pinyin { text: String, pinyin: String },
    Grammar { text: String, corrected: String },
    SpeechToText { text: String },
    SpeechToTextError { message: String },
    NextChar { char: String, pinyin: String, reason: String },
    AgentReply { text: String },
    Error { message: String },
}

/// A challenge as it is delivered to a client.
#[derive(Debug)]
pub struct ChallengeOut {
    pub id: String,
    pub difficulty: String,
    pub kind: ChallengeKind,
    pub source: ChallengeSource,
    pub seed_zh: String,
    pub seed_en: String,
    pub challenge_zh: String,
    pub challenge_en: String,
    pub summary_en: String,
    pub instructions: String,
}

/// The challenge as it is delivered: every field of it but the rubric.
pub fn to_out(c: &Challenge) -> (out: ChallengeOut)
    ensures
        out.id@ == c.id@,
        out.difficulty@ == c.difficulty@,
        out.kind == c.kind,
        out.source == c.source,
        out.seed_zh@ == c.seed_zh@,
        out.seed_en@ == c.seed_en@,
        out.challenge_zh@ == c.challenge_zh@,
        out.challenge_en@ == c.challenge_en@,
        out.summary_en@ == c.summary_en@,
        out.instructions@ == c.instructions@,
{
    ChallengeOut {
        id: c.id.clone(),
        difficulty: c.difficulty.clone(),
        kind: c.kind,
        source: c.source,
        seed_zh: c.seed_zh.clone(),
        seed_en: c.seed_en.clone(),
        challenge_zh: c.challenge_zh.clone(),
        challenge_en: c.challenge_en.clone(),
        summary_en: c.summary_en.clone(),
        instructions: c.instructions.clone(),
    }
}

#[derive(Debug)]
pub struct ChallengeQuery {
    pub difficulty: Option<String>,
}

pub struct AnswerIn {
    pub challenge_id: String,
    pub answer: String,
}

/// The result of an answer. The score is a whole number from 0 to 100.
pub struct AnswerOut {
    pub correct: bool,
    pub score: u32,
    pub expected: String,
    pub explanation: String,
}

#[derive(Debug)]
pub struct HintQuery {
    pub challenge_id: String,
}

pub struct HintOut {
    pub text: String,
}

pub struct TranslateIn {
    pub text: String,
}

pub struct TranslateOut {
    pub translation: String,
}

pub struct PinyinIn {
    pub text: String,
}

pub struct PinyinOut {
    pub pinyin: String,
}

pub struct GrammarIn {
    pub text: String,
}

pub struct GrammarOut {
    pub corrected: String,
}

pub struct NextCharIn {
    pub challenge_id: String,
    pub current: String,
}

pub struct NextCharOut {
    pub char: String,
    pub pinyin: String,
    pub reason: String,
}

pub struct AgentIn {
    pub challenge_id: String,
    pub text: String,
}

pub struct AgentOut {
    pub text: String,
}

pub struct HealthOut {
    pub ok: bool,
}

} // verus!
