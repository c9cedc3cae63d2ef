use std::collections::HashMap;

use caatuu_backend::config::{AgentConfig, ChallengeCfg, Prompts, DEFAULT_HINT_SYSTEM};
use caatuu_backend::domain::{Challenge, ChallengeKind, ChallengeSource, Rubric};
use caatuu_backend::logic::{
    _to_out, agent_reply_for, agent_reply_stub, evaluation_route, freeform_eval_local,
    freeform_hint_local, hint_instructions, local_result_text, next_char_logic, translate_stub,
    unknown_challenge_text, EvaluationRoute,
};
use caatuu_backend::pinyin::{pinyin_for_text_local, push_syllable, to_pinyin_diacritics};
use caatuu_backend::protocol::{
    to_out, AgentIn, AgentOut, AnswerIn, AnswerOut, ChallengeOut, ChallengeQuery,
    ClientWsMessage, GrammarIn, GrammarOut, HealthOut, HintOut, HintQuery, NextCharIn,
    NextCharOut, PinyinIn, PinyinOut, ServerWsMessage, TranslateIn, TranslateOut,
};
use caatuu_backend::seeds::{
    hard_fallback_challenge, hard_fallback_with_id, seed_challenges, seed_pinyin_map,
};
use caatuu_backend::util::{
    decimal_chars, fill_template, is_cjk, normalize, pinyin_concat_no_space, trunc_for_log,
};

fn challenge() -> Challenge {
    Challenge {
        id: "c1".to_string(),
        difficulty: "hsk3".to_string(),
        kind: ChallengeKind::FreeformZh,
        source: ChallengeSource::Generated,
        seed_zh: "今天下雨".to_string(),
        seed_en: "It rains today.".to_string(),
        challenge_zh: "加上一个地点".to_string(),
        challenge_en: "Add a place.".to_string(),
        summary_en: "Rain and a place.".to_string(),
        instructions: "写两句话".to_string(),
        rubric: None,
    }
}

#[test]
fn template_is_filled_pair_by_pair() {
    assert_eq!(
        fill_template("difficulty=\"{difficulty}\"", &[("difficulty", "hsk3")]),
        "difficulty=\"hsk3\""
    );
    assert_eq!(
        fill_template("{a}-{b}-{a}", &[("a", "1"), ("b", "2")]),
        "1-2-1"
    );
    assert_eq!(fill_template("{a}", &[]), "{a}");
    assert_eq!(fill_template("{a}", &[("b", "x")]), "{a}");
    assert_eq!(fill_template("", &[("a", "x")]), "");
    // A value is read again by the pairs that follow.
    assert_eq!(fill_template("{a}", &[("a", "{b}"), ("b", "x")]), "x");
    assert_eq!(fill_template("{a}", &[("b", "x"), ("a", "{b}")]), "{b}");
    // The empty key stands for `{}`.
    assert_eq!(fill_template("a{}b", &[("", "-")]), "a-b");
    assert_eq!(
        fill_template("seed_zh: {seed_zh}\nuser_answer: {user_answer}\n", &[("seed_zh", "下雨了"), ("user_answer", "{seed_zh}")]),
        "seed_zh: 下雨了\nuser_answer: {seed_zh}\n"
    );
}

#[test]
fn cjk_ranges() {
    for c in ['中', '\u{4E00}', '\u{9FFF}', '\u{3400}', '\u{4DBF}', '\u{20000}', '\u{2A6DF}', '\u{2A700}', '\u{2B73F}', '\u{2B740}', '\u{2B81F}', '\u{2B820}', '\u{2CEAF}', '\u{F900}', '\u{FAFF}'] {
        assert!(is_cjk(c), "{c}");
    }
    for c in ['a', ' ', '。', '，', '\u{4DFF}', '\u{33FF}', '\u{4DC0}', '\u{A000}', '\u{1FFFF}', '\u{2A6E0}', '\u{2CEB0}', '\u{F8FF}', '\u{FB00}', 'あ', '한'] {
        assert!(!is_cjk(c), "{c}");
    }
}

#[test]
fn sentence_without_white_space() {
    assert_eq!(normalize(" 今天 天气\t很好\n"), "今天天气很好");
    assert_eq!(normalize(""), "");
    assert_eq!(normalize("\u{3000} \u{a0}"), "");
}

#[test]
fn pinyin_without_spaces() {
    assert_eq!(pinyin_concat_no_space("jīn tiān tiān qì"), "jīntiāntiānqì");
    assert_eq!(pinyin_concat_no_space("  a  b  "), "ab");
    assert_eq!(pinyin_concat_no_space(""), "");
    // Only the space character is taken out.
    assert_eq!(pinyin_concat_no_space("a\tb\u{3000}c"), "a\tb\u{3000}c");
}

#[test]
fn numbers_in_base_ten() {
    for n in [0usize, 1, 9, 10, 11, 99, 100, 101, 12345, 1000000, usize::MAX] {
        let digits: String = decimal_chars(n).iter().collect();
        assert_eq!(digits, n.to_string());
    }
}

#[test]
fn long_text_is_cut_for_the_log() {
    assert_eq!(trunc_for_log("hello", 5), "hello");
    assert_eq!(trunc_for_log("hello", 10), "hello");
    assert_eq!(trunc_for_log("", 0), "");
    assert_eq!(trunc_for_log("hello world", 5), "hello… (11 bytes total)");
    assert_eq!(trunc_for_log("hello", 0), "… (5 bytes total)");
    // Lengths are in bytes: each of these characters takes three.
    assert_eq!(trunc_for_log("今天天气", 12), "今天天气");
    assert_eq!(trunc_for_log("今天天气", 6), "今天… (12 bytes total)");
    assert_eq!(trunc_for_log("今天天气", 0), "… (12 bytes total)");
}

#[test]
fn hanzi_to_pinyin() {
    assert_eq!(to_pinyin_diacritics("中国人计划 2025！"), "zhōng guó rén jì huà 2025！");
    assert_eq!(to_pinyin_diacritics("中"), "zhōng");
    assert_eq!(to_pinyin_diacritics(""), "");
    assert_eq!(to_pinyin_diacritics("abc"), "abc");
    assert_eq!(to_pinyin_diacritics("a中b国"), "azhōngbguó");
    assert_eq!(to_pinyin_diacritics("中 国"), "zhōng guó");
    assert_eq!(to_pinyin_diacritics("今天天气很好"), "jīn tiān tiān qì hěn hǎo");
}

#[test]
fn one_syllable_at_a_time() {
    let mut out: Vec<char> = vec!['a'];
    assert!(push_syllable(&mut out, false, '中', Some("zhōng")));
    assert!(push_syllable(&mut out, true, '国', Some("guó")));
    assert!(!push_syllable(&mut out, true, '!', None));
    assert!(push_syllable(&mut out, false, '人', Some("rén")));
    let text: String = out.iter().collect();
    assert_eq!(text, "azhōng guó!rén");
}

#[test]
fn pinyin_by_the_built_in_table() {
    let table = seed_pinyin_map();
    assert_eq!(pinyin_for_text_local(&table, "今天天气很好"), "jīn tiān tiān qì hěn hǎo");
    assert_eq!(pinyin_for_text_local(&table, "我想喝咖啡。"), "wǒ xiǎng hē kā fēi .");
    assert_eq!(pinyin_for_text_local(&table, "你吃饭了吗？"), "nǐ chī fàn le ma ?");
    // A character that the table does not know is copied, behind a space
    // where it is a CJK character.
    assert_eq!(pinyin_for_text_local(&table, "我们爱学习"), "wǒ men 爱 xué xí");
    assert_eq!(pinyin_for_text_local(&table, "我ok"), "wǒok");
    assert_eq!(pinyin_for_text_local(&table, "我, 你"), "wǒ, nǐ");
    assert_eq!(pinyin_for_text_local(&table, "  我  "), "wǒ");
    assert_eq!(pinyin_for_text_local(&table, ""), "");
    assert_eq!(pinyin_for_text_local(&HashMap::new(), "我们ab"), "我 们ab");
}

#[test]
fn built_in_table_of_readings() {
    let table = seed_pinyin_map();
    assert_eq!(table.len(), 30);
    assert_eq!(table.get(&('今' as u32)), Some(&"jīn"));
    assert_eq!(table.get(&('天' as u32)), Some(&"tiān"));
    assert_eq!(table.get(&('习' as u32)), Some(&"xí"));
    assert_eq!(table.get(&('。' as u32)), Some(&"."));
    assert_eq!(table.get(&('！' as u32)), Some(&"!"));
    assert_eq!(table.get(&('a' as u32)), None);
}

#[test]
fn built_in_challenges() {
    let seeds = seed_challenges();
    assert_eq!(seeds.len(), 2);
    assert_eq!(seeds[0].id, "c123");
    assert_eq!(seeds[0].difficulty, "hsk3");
    assert_eq!(seeds[0].kind, ChallengeKind::FreeformZh);
    assert_eq!(seeds[0].source, ChallengeSource::Seed);
    assert_eq!(seeds[0].seed_zh, "今天天气很好");
    assert_eq!(seeds[0].seed_en, "The weather is great today.");
    assert_eq!(seeds[0].instructions, "");
    assert!(seeds[0].rubric.is_none());
    assert_eq!(seeds[1].id, "c124");
    assert_eq!(seeds[1].difficulty, "hsk2");
    assert_eq!(seeds[1].seed_zh, "我想喝咖啡");
    assert_eq!(seeds[1].seed_en, "I want to drink coffee.");
}

#[test]
fn fallback_of_last_resort() {
    let c = hard_fallback_with_id("id-1".to_string(), "hsk4".to_string());
    assert_eq!(c.id, "id-1");
    assert_eq!(c.difficulty, "hsk4");
    assert_eq!(c.kind, ChallengeKind::FreeformZh);
    assert_eq!(c.source, ChallengeSource::Seed);
    assert_eq!(c.seed_zh, "他是老师。");
    assert_eq!(c.seed_en, "He is a teacher.");
    assert_eq!(c.challenge_zh, "");
    assert!(c.rubric.is_none());

    let a = hard_fallback_challenge("hsk1".to_string());
    let b = hard_fallback_challenge("hsk1".to_string());
    assert_eq!(a.difficulty, "hsk1");
    assert_eq!(a.seed_zh, "他是老师。");
    assert_eq!(a.id.len(), 36);
    assert_ne!(a.id, b.id);
}

#[test]
fn challenge_as_it_is_delivered() {
    let c = challenge();
    for out in [to_out(&c), _to_out(&c)] {
        let ChallengeOut {
            id,
            difficulty,
            kind,
            source,
            seed_zh,
            seed_en,
            challenge_zh,
            challenge_en,
            summary_en,
            instructions,
        } = out;
        assert_eq!(id, c.id);
        assert_eq!(difficulty, c.difficulty);
        assert_eq!(kind, c.kind);
        assert_eq!(source, c.source);
        assert_eq!(seed_zh, c.seed_zh);
        assert_eq!(seed_en, c.seed_en);
        assert_eq!(challenge_zh, c.challenge_zh);
        assert_eq!(challenge_en, c.challenge_en);
        assert_eq!(summary_en, c.summary_en);
        assert_eq!(instructions, c.instructions);
    }
}

#[test]
fn defaults() {
    assert_eq!(ChallengeKind::default(), ChallengeKind::FreeformZh);
    let rubric = Rubric::default();
    assert!(rubric.min_chars.is_none());
    assert!(rubric.must_include.is_none());
    assert!(rubric.avoid.is_none());
    assert!(rubric.target_level.is_none());
    let prompts = Prompts::default();
    assert_eq!(prompts.hint_system, DEFAULT_HINT_SYSTEM);
    assert_eq!(
        prompts.hint_system,
        "You are a Chinese learning coach. Keep hints short and do NOT reveal the full answer."
    );
    assert_eq!(prompts.challenge_user_template, "\ndifficulty=\"{difficulty}\"\n");
    assert!(prompts.challenge_system.starts_with("\nYou are a Chinese learning content generator."));
    assert!(prompts.challenge_system.contains("HSK5–6 — 情感/态度:"));
    assert!(prompts.validation_system.contains("(b) user_answer preserves the seed’s topic/meaning"));
    assert_eq!(
        prompts.validation_user_template,
        "\nseed_zh: {seed_zh}\nchallenge_zh: {challenge_zh}\nuser_answer: {user_answer}\n"
    );
    assert!(prompts.freeform_eval_user_template.ends_with("'correct' = true if score >= 60."));
    assert_eq!(
        prompts.freeform_hint_user_template,
        "Provide vocab/patterns to help with: {instructions}"
    );
    let config = AgentConfig::default();
    assert!(config.challenges.is_empty());
    assert_eq!(config.prompts.translate_system, prompts.translate_system);
    let entry = ChallengeCfg { id: None, difficulty: "hsk2".to_string(), instructions: None, rubric: None };
    assert_eq!(entry.clone().difficulty, "hsk2");
}

#[test]
fn route_of_an_answer() {
    let mut c = challenge();
    assert!(matches!(evaluation_route(&c), EvaluationRoute::SeedChallenge));
    c.challenge_zh.clear();
    assert!(matches!(evaluation_route(&c), EvaluationRoute::Instructions));
    c.challenge_zh = "x".to_string();
    c.seed_zh.clear();
    assert!(matches!(evaluation_route(&c), EvaluationRoute::Instructions));
    c.instructions.clear();
    assert!(matches!(evaluation_route(&c), EvaluationRoute::NoPath));
}

#[test]
fn texts_of_the_service() {
    assert_eq!(local_result_text(65, "Looks okay."), "(local) score=65: Looks okay.");
    assert_eq!(local_result_text(0, ""), "(local) score=0: ");
    assert_eq!(unknown_challenge_text("c9"), "Unknown challengeId: c9");
    let (c, p, reason) = next_char_logic("c1", "今");
    assert_eq!((c.as_str(), p.as_str(), reason.as_str()), ("", "", "Not applicable to freeform tasks."));
}

#[test]
fn instructions_for_a_hint() {
    let mut c = challenge();
    assert_eq!(hint_instructions(&c), "Seed: 今天下雨\nChallenge: 加上一个地点");
    assert_eq!(freeform_hint_local(&c), "聚焦：主语改写 + 计划类动词 + 具体地点 + 时间。任务：加上一个地点");
    c.challenge_zh.clear();
    assert_eq!(hint_instructions(&c), "写两句话");
    assert_eq!(freeform_hint_local(&c), "先定时间/地点，再完成任务要点（3-5句）。任务：写两句话");
    c.instructions.clear();
    assert_eq!(hint_instructions(&c), "写一段短文：先说时间和地点，再用一个表态/计划的动词提出行动。");
    assert_eq!(freeform_hint_local(&c), "先说谁、什么时候、在哪里，然后做什么（加一个态度/计划动词）。");
}

#[test]
fn local_grading_without_a_rubric() {
    let c = challenge();
    let (pass, score, explanation) = freeform_eval_local(&c, "今天下雨");
    assert!(!pass);
    assert_eq!(score, 50);
    assert_eq!(explanation, "Looks okay.");
}

#[test]
fn local_grading_by_a_rubric() {
    let mut c = challenge();
    c.rubric = Some(Rubric {
        min_chars: Some(4),
        must_include: Some(vec!["今天".to_string(), "公园".to_string()]),
        avoid: Some(vec!["不".to_string()]),
        target_level: None,
    });
    assert_eq!(
        freeform_eval_local(&c, "今天我去公园"),
        (true, 75, "Looks okay.".to_string())
    );
    assert_eq!(
        freeform_eval_local(&c, "今天我不去公园"),
        (true, 65, "Avoid '不' present".to_string())
    );
    assert_eq!(
        freeform_eval_local(&c, "今天"),
        (false, 55, "Too short (< 4); Missing '公园'".to_string())
    );
    assert_eq!(
        freeform_eval_local(&c, "不"),
        (false, 40, "Too short (< 4); Missing '今天'; Missing '公园'; Avoid '不' present".to_string())
    );
    assert_eq!(
        freeform_eval_local(&c, ""),
        (false, 50, "Too short (< 4); Missing '今天'; Missing '公园'".to_string())
    );
}

#[test]
fn local_grading_keeps_the_score_in_range() {
    let mut c = challenge();
    c.rubric = Some(Rubric {
        min_chars: None,
        must_include: Some((0..20).map(|_| "好".to_string()).collect()),
        avoid: None,
        target_level: Some("hsk3".to_string()),
    });
    assert_eq!(freeform_eval_local(&c, "好"), (true, 100, "Looks okay.".to_string()));
    c.rubric = Some(Rubric {
        min_chars: Some(0),
        must_include: None,
        avoid: Some((0..7).map(|_| "好".to_string()).collect()),
        target_level: None,
    });
    let (pass, score, explanation) = freeform_eval_local(&c, "好");
    assert!(!pass);
    assert_eq!(score, 0);
    assert_eq!(explanation, vec!["Avoid '好' present"; 7].join("; "));
    c.rubric = Some(Rubric::default());
    assert_eq!(freeform_eval_local(&c, "好"), (false, 50, "Looks okay.".to_string()));
}

#[test]
fn fixed_translations() {
    assert_eq!(translate_stub("我想喝咖啡"), "I want to drink coffee.");
    assert_eq!(translate_stub("今天天气很好"), "The weather is great today.");
    assert_eq!(translate_stub("你吃饭了吗？"), "Have you eaten?");
    assert_eq!(translate_stub("他昨天去了北京。"), "He went to Beijing yesterday.");
    assert_eq!(translate_stub("我们一起学习吧！"), "Let's study together!");
    assert_eq!(translate_stub("我想喝咖啡 "), "Translation not available (stub).");
    assert_eq!(translate_stub(""), "Translation not available (stub).");
}

#[test]
fn fixed_replies() {
    let aspect = "Because it marks a completed action (aspect).";
    let why = "Short answer: the particle indicates aspect or sentence mood depending on position.";
    let other = "Try focusing on core patterns (S + V + O). Ask about a specific particle for a deeper explanation.";
    assert_eq!(agent_reply_stub("为什么用了？"), aspect);
    assert_eq!(agent_reply_stub("What does LE mean?"), aspect);
    assert_eq!(agent_reply_stub("Le"), aspect);
    assert_eq!(agent_reply_stub("WHY is that"), why);
    assert_eq!(agent_reply_stub("why le?"), why);
    assert_eq!(agent_reply_stub("hello"), other);
    assert_eq!(agent_reply_stub(""), other);
    assert_eq!(agent_reply_stub("le?"), other);
    // The lowercase form is what the caller says it is.
    assert_eq!(agent_reply_for("WHY", "WHY"), other);
    assert_eq!(agent_reply_for("WHY", "why"), why);
    assert_eq!(agent_reply_for("x", "le"), aspect);
}

#[test]
fn messages_are_plain_data() {
    let query = ChallengeQuery { difficulty: Some("hsk3".to_string()) };
    assert_eq!(query.difficulty.as_deref(), Some("hsk3"));
    let answer = AnswerIn { challenge_id: "c1".to_string(), answer: "好".to_string() };
    assert_eq!((answer.challenge_id.as_str(), answer.answer.as_str()), ("c1", "好"));
    let result = AnswerOut { correct: true, score: 92, expected: String::new(), explanation: "ok".to_string() };
    assert!(result.correct && result.score == 92 && result.expected.is_empty() && result.explanation == "ok");
    assert_eq!(HintQuery { challenge_id: "c1".to_string() }.challenge_id, "c1");
    assert_eq!(HintOut { text: "t".to_string() }.text, "t");
    assert_eq!(TranslateIn { text: "t".to_string() }.text, "t");
    assert_eq!(TranslateOut { translation: "t".to_string() }.translation, "t");
    assert_eq!(PinyinIn { text: "t".to_string() }.text, "t");
    assert_eq!(PinyinOut { pinyin: "p".to_string() }.pinyin, "p");
    assert_eq!(GrammarIn { text: "t".to_string() }.text, "t");
    assert_eq!(GrammarOut { corrected: "c".to_string() }.corrected, "c");
    let next = NextCharIn { challenge_id: "c1".to_string(), current: "今".to_string() };
    assert_eq!((next.challenge_id.as_str(), next.current.as_str()), ("c1", "今"));
    let next = NextCharOut { char: "天".to_string(), pinyin: "tiān".to_string(), reason: "r".to_string() };
    assert_eq!((next.char.as_str(), next.pinyin.as_str(), next.reason.as_str()), ("天", "tiān", "r"));
    let agent = AgentIn { challenge_id: "c1".to_string(), text: "t".to_string() };
    assert_eq!((agent.challenge_id.as_str(), agent.text.as_str()), ("c1", "t"));
    assert_eq!(AgentOut { text: "t".to_string() }.text, "t");
    assert!(HealthOut { ok: true }.ok);
    let incoming = ClientWsMessage::SubmitAnswer { challenge_id: "c1".to_string(), answer: "好".to_string() };
    assert!(matches!(incoming, ClientWsMessage::SubmitAnswer { ref answer, .. } if answer == "好"));
    assert!(matches!(ClientWsMessage::Ping, ClientWsMessage::Ping));
    let outgoing = ServerWsMessage::AnswerResult {
        correct: false,
        score: 45,
        expected: String::new(),
        explanation: "e".to_string(),
    };
    assert!(matches!(outgoing, ServerWsMessage::AnswerResult { score: 45, correct: false, .. }));
    let delivered = ServerWsMessage::Challenge { challenge: to_out(&challenge()) };
    assert!(matches!(delivered, ServerWsMessage::Challenge { ref challenge } if challenge.id == "c1"));
}
