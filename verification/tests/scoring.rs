use caatuu_backend::coreplus::{build_expected_reference_answer, CorePlusSpec};
use caatuu_backend::sampler::spec_from_draw;
use caatuu_backend::scoring::{
    evaluate_core_plus_core_answer, score_of, Findings, MSG_ALL_GOOD, MSG_EMPTY_ANSWER,
};

// 因为…所以… then 于是…, on "下雨了 / 我没去远处 / 我就在附近的小店慢慢逛".
fn rain_spec() -> CorePlusSpec {
    spec_from_draw(1, 0, 0, 14, 2).expect("accepted")
}

const GOOD: Findings = Findings {
    two_sentences: true,
    first_fits: true,
    second_fits: true,
    seed_kept: true,
    second_in_first: false,
    first_in_second: false,
};

#[test]
fn empty_answer_scores_zero() {
    let spec = rain_spec();
    for answer in ["", " ", "\n\t", "\u{3000}"] {
        let (pass, score, explanation) = evaluate_core_plus_core_answer(&spec, answer);
        assert!(!pass);
        assert_eq!(score, 0);
        assert_eq!(explanation, MSG_EMPTY_ANSWER);
    }
}

#[test]
fn reference_answer_scores_full() {
    let spec = rain_spec();
    let answer = build_expected_reference_answer(&spec);
    assert_eq!(answer, "因为下雨了，所以我没去远处。我没去远处，于是我就在附近的小店慢慢逛");
    let (pass, score, explanation) = evaluate_core_plus_core_answer(&spec, &answer);
    assert!(pass);
    assert_eq!(score, 100);
    assert_eq!(explanation, MSG_ALL_GOOD);
    assert_eq!(explanation, "结构正确：两句都满足连接词模式，并围绕种子短语展开。");
}

#[test]
fn answer_is_trimmed_and_may_end_with_a_mark() {
    let spec = rain_spec();
    for answer in [
        "  因为下雨了，所以我没去远处。我没去远处，于是我就在附近的小店慢慢逛。\n",
        "因为下雨了，所以我没去远处！我没去远处，于是我就在附近的小店慢慢逛！",
        "因为下雨了，所以我没去远处？ 我没去远处，于是我就在附近的小店慢慢逛",
    ] {
        let (pass, score, _) = evaluate_core_plus_core_answer(&spec, answer);
        assert!(pass, "{answer}");
        assert_eq!(score, 100, "{answer}");
    }
}

#[test]
fn one_sentence_loses_forty_and_is_scored_as_a_whole() {
    let spec = rain_spec();
    // One sentence that holds every marker: both steps are checked against
    // the whole answer. Step 1 fits; step 2 fits too; the markers of each
    // step stand in the sentence of the other.
    let answer = "因为下雨了，所以我没去远处，于是我就在附近的小店慢慢逛";
    let (pass, score, explanation) = evaluate_core_plus_core_answer(&spec, answer);
    assert_eq!(score, 100 - 40 - 8 - 8);
    assert!(!pass);
    assert_eq!(
        explanation,
        "格式错误：需要正好两句（用句号分隔）；第1句混入了第2步连接标记；第2句混入了第1步连接标记。"
    );
}

#[test]
fn three_sentences_lose_forty() {
    let spec = rain_spec();
    let answer = "因为下雨了，所以我没去远处。我没去远处。于是我就在附近的小店慢慢逛";
    let (_, score, explanation) = evaluate_core_plus_core_answer(&spec, answer);
    // Step 2 asks for a text before "，于是".
    assert_eq!(score, 100 - 40 - 25 - 8 - 8);
    assert!(explanation.starts_with("格式错误：需要正好两句（用句号分隔）；第2句不符合要求：句式不匹配模式 于是…；"));
}

#[test]
fn missing_marker_loses_twenty_five() {
    let spec = rain_spec();
    let answer = "下雨了，我没去远处。我没去远处，于是我就在附近的小店慢慢逛";
    let (pass, score, explanation) = evaluate_core_plus_core_answer(&spec, answer);
    assert!(pass);
    assert_eq!(score, 75);
    assert_eq!(explanation, "第1句不符合要求：缺少强标记：'因为'。");
}

#[test]
fn second_missing_marker_is_named_when_the_first_is_there() {
    let spec = rain_spec();
    let answer = "因为下雨了，我没去远处。我没去远处，于是我就在附近的小店慢慢逛";
    let (_, score, explanation) = evaluate_core_plus_core_answer(&spec, answer);
    assert_eq!(score, 75);
    assert_eq!(explanation, "第1句不符合要求：缺少强标记：'所以'。");
}

#[test]
fn wrong_shape_loses_twenty_five() {
    let spec = rain_spec();
    // Both markers, but the sentence does not begin with the first.
    let answer = "下雨了因为，所以我没去远处。我没去远处，于是我就在附近的小店慢慢逛";
    let (pass, score, explanation) = evaluate_core_plus_core_answer(&spec, answer);
    assert!(pass);
    assert_eq!(score, 75);
    assert_eq!(explanation, "第1句不符合要求：句式不匹配模式 因为…所以…。");
}

#[test]
fn both_sentences_wrong_fail() {
    let spec = rain_spec();
    let answer = "下雨了，我没去远处。我没去远处，我就在附近的小店慢慢逛";
    let (pass, score, explanation) = evaluate_core_plus_core_answer(&spec, answer);
    assert!(!pass);
    assert_eq!(score, 50);
    assert_eq!(
        explanation,
        "第1句不符合要求：缺少强标记：'因为'；第2句不符合要求：缺少强标记：'于是'。"
    );
}

#[test]
fn lost_seed_loses_fifteen() {
    let spec = rain_spec();
    let answer = "因为天气不好，所以我没去远处。我没去远处，于是我就在附近的小店慢慢逛";
    let (pass, score, explanation) = evaluate_core_plus_core_answer(&spec, answer);
    assert!(pass);
    assert_eq!(score, 85);
    assert_eq!(explanation, "内容未围绕种子短语。");
}

#[test]
fn seed_is_looked_for_without_its_terminal_mark() {
    let mut spec = rain_spec();
    spec.seed = " 下雨了。 ".to_string();
    let answer = build_expected_reference_answer(&spec);
    let (_, score, _) = evaluate_core_plus_core_answer(&spec, &answer);
    assert_eq!(score, 100);
    // An empty seed is never missed.
    spec.seed = "。".to_string();
    let (_, score, _) = evaluate_core_plus_core_answer(&spec, "因为甲，所以乙。乙，于是丙");
    assert_eq!(score, 100);
}

#[test]
fn marker_of_step_two_in_sentence_one_loses_eight() {
    let spec = rain_spec();
    let clean = "因为下雨了，所以我没去远处。我没去远处，于是我就在附近的小店慢慢逛";
    let bled = "因为下雨了，所以于是我没去远处。我没去远处，于是我就在附近的小店慢慢逛";
    let (_, clean_score, _) = evaluate_core_plus_core_answer(&spec, clean);
    let (pass, bled_score, explanation) = evaluate_core_plus_core_answer(&spec, bled);
    assert_eq!(clean_score, 100);
    assert_eq!(bled_score, 92);
    assert!(bled_score < clean_score);
    assert!(pass);
    assert_eq!(explanation, "第1句混入了第2步连接标记。");
}

#[test]
fn marker_of_step_one_in_sentence_two_loses_eight() {
    let spec = rain_spec();
    let bled = "因为下雨了，所以我没去远处。因为我没去远处，于是我就在附近的小店慢慢逛";
    let (pass, score, explanation) = evaluate_core_plus_core_answer(&spec, bled);
    assert_eq!(score, 92);
    assert!(pass);
    assert_eq!(explanation, "第2句混入了第1步连接标记。");
}

#[test]
fn garbled_answer_scores_zero_and_says_why() {
    let spec = rain_spec();
    let (pass, score, explanation) = evaluate_core_plus_core_answer(&spec, "???");
    assert!(!pass);
    // 40 + 25 + 25 + 15 are more than 100 points.
    assert_eq!(score, 0);
    assert_eq!(
        explanation,
        "格式错误：需要正好两句（用句号分隔）；第1句不符合要求：缺少强标记：'因为'；第2句不符合要求：缺少强标记：'于是'；内容未围绕种子短语。"
    );
}

#[test]
fn score_of_findings() {
    assert_eq!(score_of(&GOOD), 100);
    assert_eq!(score_of(&Findings { two_sentences: false, ..GOOD }), 60);
    assert_eq!(score_of(&Findings { first_fits: false, ..GOOD }), 75);
    assert_eq!(score_of(&Findings { second_fits: false, ..GOOD }), 75);
    assert_eq!(score_of(&Findings { seed_kept: false, ..GOOD }), 85);
    assert_eq!(score_of(&Findings { second_in_first: true, ..GOOD }), 92);
    assert_eq!(score_of(&Findings { first_in_second: true, ..GOOD }), 92);
    assert_eq!(
        score_of(&Findings { second_in_first: true, first_in_second: true, ..GOOD }),
        84
    );
    assert_eq!(score_of(&Findings { two_sentences: false, seed_kept: false, ..GOOD }), 45);
    let worst = Findings {
        two_sentences: false,
        first_fits: false,
        second_fits: false,
        seed_kept: false,
        second_in_first: true,
        first_in_second: true,
    };
    assert_eq!(score_of(&worst), 0);
    assert_eq!(score_of(&Findings { second_in_first: false, ..worst }), 0);
    assert_eq!(score_of(&Findings { seed_kept: true, ..worst }), 0);
    assert_eq!(
        score_of(&Findings { seed_kept: true, second_in_first: false, first_in_second: false, ..worst }),
        10
    );
}

#[test]
fn marker_bleed_lowers_every_score_above_zero() {
    for bits in 0u8..32 {
        let clean = Findings {
            two_sentences: bits & 1 != 0,
            first_fits: bits & 2 != 0,
            second_fits: bits & 4 != 0,
            seed_kept: bits & 8 != 0,
            second_in_first: false,
            first_in_second: bits & 16 != 0,
        };
        let bled = Findings { second_in_first: true, ..clean };
        let (a, b) = (score_of(&clean), score_of(&bled));
        assert!(a <= 100);
        if a > 0 {
            assert!(b < a);
            assert_eq!(b, a.saturating_sub(8));
        } else {
            assert_eq!(b, 0);
        }
    }
}
