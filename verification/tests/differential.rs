//! The rules of the library, written a second time with the string functions
//! of the standard library, and compared with the library on many texts.

use caatuu_backend::coreplus::{
    build_expected_reference_answer, render_template_ab, validate_generated_item,
    validate_sentence, validate_sentence_pattern_only, CorePlusGeneratedItem, CorePlusSpec,
    CorePlusSpecStep,
};
use caatuu_backend::matcher::simple_regex_like_match;
use caatuu_backend::sampler::{scene_matches_difficulty, spec_from_draw};
use caatuu_backend::scoring::evaluate_core_plus_core_answer;
use caatuu_backend::sentence::{
    normalize_for_compare, split_two_sentences, trim_sentence_trailing_punct,
};

/// A small generator of numbers, the same on every run.
struct Numbers(u64);

impl Numbers {
    fn next(&mut self) -> u64 {
        self.0 = self.0.wrapping_mul(6364136223846793005).wrapping_add(1442695040888963407);
        self.0 >> 33
    }

    fn below(&mut self, n: usize) -> usize {
        (self.next() % n as u64) as usize
    }

    fn pick<'a>(&mut self, items: &[&'a str]) -> &'a str {
        items[self.below(items.len())]
    }

    fn text(&mut self, pieces: &[&str], max_pieces: usize) -> String {
        let n = self.below(max_pieces + 1);
        (0..n).map(|_| self.pick(pieces)).collect()
    }
}

fn is_terminal(c: char) -> bool {
    c == '。' || c == '.' || c == '!' || c == '！' || c == '?' || c == '？'
}

fn without_one_mark(s: &str) -> &str {
    match s.chars().last() {
        Some(c) if is_terminal(c) => &s[..s.len() - c.len_utf8()],
        _ => s,
    }
}

fn expected_trim_sentence(s: &str) -> String {
    without_one_mark(s.trim()).trim().to_string()
}

fn expected_split_two(text: &str) -> Option<(String, String)> {
    let canonical: String = text
        .trim()
        .chars()
        .map(|c| match c {
            '!' | '！' | '?' | '？' => '。',
            _ => c,
        })
        .collect();
    let body = without_one_mark(&canonical).trim().to_string();
    let parts: Vec<String> =
        body.split('。').map(|s| s.trim().to_string()).filter(|s| !s.is_empty()).collect();
    if parts.len() != 2 {
        return None;
    }
    Some((parts[0].clone(), parts[1].clone()))
}

fn expected_match(pattern: &str, text: &str) -> bool {
    let mut p = pattern.trim();
    let anchored_start = p.starts_with('^');
    let anchored_end = p.ends_with('$');
    if anchored_start {
        p = &p[1..];
    }
    if anchored_end && !p.is_empty() {
        p = &p[..p.len() - 1];
    }
    let starts_with_wild = p.starts_with(".+");
    let ends_with_wild = p.ends_with(".+");
    let parts: Vec<&str> = p.split(".+").collect();
    if parts.iter().all(|x| x.is_empty()) {
        return !text.is_empty();
    }
    let mut search_from = 0usize;
    let mut first_literal_seen = false;
    let mut last_match_end = 0usize;
    for part in &parts {
        if part.is_empty() {
            continue;
        }
        if !first_literal_seen {
            first_literal_seen = true;
            if anchored_start && !starts_with_wild {
                if !text[search_from..].starts_with(part) {
                    return false;
                }
                last_match_end = search_from + part.len();
                search_from = last_match_end;
                continue;
            }
        }
        match text[search_from..].find(part) {
            Some(found_at) => {
                last_match_end = search_from + found_at + part.len();
                search_from = last_match_end;
            }
            None => return false,
        }
    }
    if anchored_end && !ends_with_wild {
        return last_match_end == text.len();
    }
    true
}

fn expected_pattern_only(step: &CorePlusSpecStep, sentence: &str) -> Result<(), String> {
    for marker in &step.strong_markers {
        if !marker.is_empty() && !sentence.contains(marker.as_str()) {
            return Err(format!("缺少强标记：'{marker}'"));
        }
    }
    if !expected_match(&step.check_regex, sentence) {
        return Err(format!("句式不匹配模式 {}", step.markers_zh));
    }
    Ok(())
}

fn expected_sentence(
    step: &CorePlusSpecStep,
    sentence: &str,
    a: &str,
    b: &str,
) -> Result<(), String> {
    if !sentence.contains(a) {
        return Err(format!("缺少命题片段A：'{a}'"));
    }
    if !sentence.contains(b) {
        return Err(format!("缺少命题片段B：'{b}'"));
    }
    expected_pattern_only(step, sentence)
}

fn expected_reference(spec: &CorePlusSpec) -> String {
    let s1 = spec.step1.pattern_tpl.replace("{A}", &spec.props.p1).replace("{B}", &spec.props.p2);
    let s2 = spec.step2.pattern_tpl.replace("{A}", &spec.props.p2).replace("{B}", &spec.props.p3);
    format!("{}。{}", expected_trim_sentence(&s1), expected_trim_sentence(&s2))
}

fn squeeze(s: &str) -> String {
    s.chars().filter(|c| !c.is_whitespace()).collect()
}

fn expected_validate(spec: &CorePlusSpec, seed: &str, reference: &str) -> Result<(), String> {
    if seed.trim() != spec.seed.trim() {
        return Err("seed_zh does not match SPEC.seed exactly".into());
    }
    let (got1, got2) = expected_split_two(reference)
        .ok_or_else(|| "reference_answer_zh must contain exactly two sentences".to_string())?;
    let (exp1, exp2) = expected_split_two(&expected_reference(spec))
        .ok_or_else(|| "Internal error: expected reference split failed".to_string())?;
    if squeeze(&got1) != squeeze(&exp1) || squeeze(&got2) != squeeze(&exp2) {
        return Err("reference_answer_zh did not apply templates exactly to P1/P2/P3".into());
    }
    expected_sentence(&spec.step1, &got1, &spec.props.p1, &spec.props.p2)
        .map_err(|e| format!("reference sentence1 invalid: {e}"))?;
    expected_sentence(&spec.step2, &got2, &spec.props.p2, &spec.props.p3)
        .map_err(|e| format!("reference sentence2 invalid: {e}"))?;
    Ok(())
}

fn holds_any(text: &str, markers: &[String]) -> bool {
    markers.iter().any(|m| !m.is_empty() && text.contains(m.as_str()))
}

fn expected_evaluate(spec: &CorePlusSpec, user_answer: &str) -> (bool, u32, String) {
    let answer = user_answer.trim();
    if answer.is_empty() {
        return (false, 0, "答案为空。请按要求只写两句。".into());
    }
    let mut score: i32 = 100;
    let mut notes: Vec<String> = vec![];
    let (s1, s2) = match expected_split_two(answer) {
        Some(v) => v,
        None => {
            score -= 40;
            notes.push("格式错误：需要正好两句（用句号分隔）".into());
            (answer.to_string(), answer.to_string())
        }
    };
    if let Err(e) = expected_pattern_only(&spec.step1, &s1) {
        score -= 25;
        notes.push(format!("第1句不符合要求：{e}"));
    }
    if let Err(e) = expected_pattern_only(&spec.step2, &s2) {
        score -= 25;
        notes.push(format!("第2句不符合要求：{e}"));
    }
    let seed_phrase = expected_trim_sentence(&spec.seed);
    if !seed_phrase.is_empty() && !answer.contains(&seed_phrase) {
        score -= 15;
        notes.push("内容未围绕种子短语".into());
    }
    if holds_any(&s1, &spec.step2.strong_markers) {
        score -= 8;
        notes.push("第1句混入了第2步连接标记".into());
    }
    if holds_any(&s2, &spec.step1.strong_markers) {
        score -= 8;
        notes.push("第2句混入了第1步连接标记".into());
    }
    let score = score.clamp(0, 100) as u32;
    let explanation = if notes.is_empty() {
        "结构正确：两句都满足连接词模式，并围绕种子短语展开。".to_string()
    } else {
        format!("{}。", notes.join("；"))
    };
    (score >= 60, score, explanation)
}

fn expected_scene_gate(p1: &str, p2: &str, p3: &str, level: u8) -> bool {
    let level3 = caatuu_backend::catalog::LEVEL3_PLUS_TOKENS;
    let level2 = caatuu_backend::catalog::LEVEL2_PLUS_TOKENS;
    let (c1, c2, c3) = (p1.chars().count(), p2.chars().count(), p3.chars().count());
    let joined = format!("{p1}{p2}{p3}");
    if level <= 1 {
        c1 <= 12
            && c2 <= 12
            && c3 <= 12
            && c1 + c2 + c3 <= 32
            && !level3.iter().any(|t| joined.contains(t))
            && !level2.iter().any(|t| joined.contains(t))
    } else if level == 2 {
        c1 <= 16
            && c2 <= 16
            && c3 <= 16
            && c1 + c2 + c3 <= 44
            && !level3.iter().any(|t| joined.contains(t))
    } else {
        true
    }
}

const PIECES: [&str; 34] = [
    "因为", "所以", "于是", "虽然", "但是", "，", "。", "！", "？", "!", "?", ".", " ", "\t", "\u{3000}",
    "\n", "下雨了", "我没去远处", "我就在附近的小店慢慢逛", "下", "雨", "了", "我", "因", "为", "所",
    "以", "于", "是", "a", "{A}", "{B}", "{", "}",
];

const EXPRESSION_PIECES: [&str; 14] =
    ["^", "$", ".+", ".", "+", "a", "b", "ab", "因为", "，", "所以", " ", "aa", "ba"];

const TEXT_PIECES: [&str; 12] =
    ["a", "b", "ab", "ba", "因为", "，", "所以", " ", ".", "+", "^", "$"];

fn specs() -> Vec<CorePlusSpec> {
    [(1u8, 0, 0, 11, 2), (1, 0, 0, 14, 2), (3, 0, 6, 19, 1), (3, 7, 46, 29, 46), (3, 4, 66, 28, 33)]
        .iter()
        .map(|&(level, chain, step1, step2, scene)| {
            spec_from_draw(level, chain, step1, step2, scene).expect("accepted")
        })
        .collect()
}

#[test]
fn matcher_agrees_on_random_expressions() {
    let mut numbers = Numbers(1);
    for _ in 0..20000 {
        let pattern = numbers.text(&EXPRESSION_PIECES, 7);
        let text = numbers.text(&TEXT_PIECES, 8);
        assert_eq!(
            simple_regex_like_match(&pattern, &text),
            expected_match(&pattern, &text),
            "{pattern:?} on {text:?}"
        );
    }
}

#[test]
fn matcher_agrees_on_the_expressions_of_the_catalog() {
    let mut numbers = Numbers(2);
    for row in 0..caatuu_backend::catalog::PATTERN_COUNT {
        let p = caatuu_backend::catalog::pattern_at(row);
        let mut pieces: Vec<&str> = PIECES.to_vec();
        pieces.extend(p.strong_markers.iter());
        pieces.extend(p.weak_markers.iter());
        for _ in 0..300 {
            let text = numbers.text(&pieces, 8);
            assert_eq!(
                simple_regex_like_match(p.check_regex, &text),
                expected_match(p.check_regex, &text),
                "{} on {text:?}",
                p.check_regex
            );
        }
    }
}

#[test]
fn sentences_agree_on_random_texts() {
    let mut numbers = Numbers(3);
    for _ in 0..20000 {
        let text = numbers.text(&PIECES, 10);
        assert_eq!(split_two_sentences(&text), expected_split_two(&text), "{text:?}");
        assert_eq!(trim_sentence_trailing_punct(&text), expected_trim_sentence(&text), "{text:?}");
        assert_eq!(normalize_for_compare(&text), squeeze(&text), "{text:?}");
    }
}

#[test]
fn rendering_agrees_on_random_templates() {
    let mut numbers = Numbers(4);
    for _ in 0..5000 {
        let tpl = numbers.text(&PIECES, 8);
        let a = numbers.text(&PIECES, 3);
        let b = numbers.text(&PIECES, 3);
        assert_eq!(
            render_template_ab(&tpl, &a, &b),
            tpl.replace("{A}", &a).replace("{B}", &b),
            "{tpl:?} {a:?} {b:?}"
        );
    }
}

#[test]
fn scoring_agrees_on_random_answers() {
    let mut numbers = Numbers(5);
    for spec in specs() {
        let reference = build_expected_reference_answer(&spec);
        assert_eq!(reference, expected_reference(&spec));
        let first = spec.step1.strong_markers.first().cloned().unwrap_or_default();
        let second = spec.step2.strong_markers.first().cloned().unwrap_or_default();
        let mut pieces: Vec<&str> = PIECES.to_vec();
        pieces.extend([
            spec.props.p1.as_str(),
            spec.props.p2.as_str(),
            spec.props.p3.as_str(),
            first.as_str(),
            second.as_str(),
            reference.as_str(),
        ]);
        for _ in 0..4000 {
            let answer = numbers.text(&pieces, 9);
            assert_eq!(
                evaluate_core_plus_core_answer(&spec, &answer),
                expected_evaluate(&spec, &answer),
                "{answer:?}"
            );
        }
    }
}

#[test]
fn scoring_agrees_near_the_reference_answer() {
    let mut numbers = Numbers(6);
    for spec in specs() {
        let reference: Vec<char> = build_expected_reference_answer(&spec).chars().collect();
        for _ in 0..3000 {
            // The reference answer with a few pieces put in or taken out.
            let mut answer = reference.clone();
            for _ in 0..numbers.below(4) {
                let at = numbers.below(answer.len() + 1);
                if numbers.below(2) == 0 && at < answer.len() {
                    answer.remove(at);
                } else {
                    let piece: Vec<char> = numbers.pick(&PIECES).chars().collect();
                    for (k, c) in piece.into_iter().enumerate() {
                        answer.insert(at + k, c);
                    }
                }
            }
            let answer: String = answer.into_iter().collect();
            assert_eq!(
                evaluate_core_plus_core_answer(&spec, &answer),
                expected_evaluate(&spec, &answer),
                "{answer:?}"
            );
            let seed = if numbers.below(8) == 0 { "别的" } else { spec.seed.as_str() };
            let item = CorePlusGeneratedItem {
                seed_zh: seed.to_string(),
                _challenge_zh: String::new(),
                reference_answer_zh: answer.clone(),
                _meta: serde_json::Value::Null,
            };
            assert_eq!(
                validate_generated_item(&spec, &item),
                expected_validate(&spec, seed, &answer),
                "{answer:?}"
            );
        }
    }
}

#[test]
fn sentence_checks_agree_on_random_sentences() {
    let mut numbers = Numbers(7);
    for spec in specs() {
        for _ in 0..2000 {
            let sentence = numbers.text(&PIECES, 8);
            let a = numbers.text(&PIECES, 2);
            let b = numbers.text(&PIECES, 2);
            assert_eq!(
                validate_sentence_pattern_only(&spec.step1, &sentence),
                expected_pattern_only(&spec.step1, &sentence),
                "{sentence:?}"
            );
            assert_eq!(
                validate_sentence(&spec.step2, &sentence, &a, &b),
                expected_sentence(&spec.step2, &sentence, &a, &b),
                "{sentence:?} {a:?} {b:?}"
            );
        }
    }
}

#[test]
fn scene_gate_agrees_on_the_catalog_and_on_random_slots() {
    let mut numbers = Numbers(8);
    let tokens: Vec<&str> = caatuu_backend::catalog::LEVEL2_PLUS_TOKENS
        .iter()
        .chain(caatuu_backend::catalog::LEVEL3_PLUS_TOKENS.iter())
        .copied()
        .chain(["我", "今天", "很", "一二三四五", "", "整", "理"])
        .collect();
    for level in 0u8..=4 {
        for row in 0..caatuu_backend::catalog::SCENE_COUNT {
            let s = caatuu_backend::catalog::scene_at(row);
            assert_eq!(
                scene_matches_difficulty(s.slots[0], s.slots[1], s.slots[2], level),
                expected_scene_gate(s.slots[0], s.slots[1], s.slots[2], level),
                "{}",
                s.id
            );
        }
        for _ in 0..1500 {
            let p1 = numbers.text(&tokens, 4);
            let p2 = numbers.text(&tokens, 4);
            let p3 = numbers.text(&tokens, 4);
            assert_eq!(
                scene_matches_difficulty(&p1, &p2, &p3, level),
                expected_scene_gate(&p1, &p2, &p3, level),
                "{p1:?} {p2:?} {p3:?} {level}"
            );
        }
    }
}
