use caatuu_backend::coreplus::{
    build_compact_challenge_zh, build_core_plus_core_user_message,
    build_expected_reference_answer, contains_any, contains_any_marker, render_template_ab,
    validate_generated_item, validate_sentence, validate_sentence_pattern_only,
    CorePlusGeneratedItem, CorePlusSpec, CORE_PLUS_CORE_SYSTEM_PROMPT,
};
use caatuu_backend::sampler::spec_from_draw;

// 因为…所以… then 于是…, on "下雨了 / 我没去远处 / 我就在附近的小店慢慢逛".
fn rain_spec() -> CorePlusSpec {
    spec_from_draw(1, 0, 0, 14, 2).expect("accepted")
}

fn item(seed: &str, reference: &str) -> CorePlusGeneratedItem {
    CorePlusGeneratedItem {
        seed_zh: seed.to_string(),
        _challenge_zh: "用“因为…所以…”和“于是…”，只写两句。".to_string(),
        reference_answer_zh: reference.to_string(),
        _meta: serde_json::Value::Null,
    }
}

const REFERENCE: &str = "因为下雨了，所以我没去远处。我没去远处，于是我就在附近的小店慢慢逛";

#[test]
fn reference_answer_is_rendered_from_both_templates() {
    let spec = rain_spec();
    assert_eq!(build_expected_reference_answer(&spec), REFERENCE);
    assert_eq!(build_expected_reference_answer(&spec), build_expected_reference_answer(&spec));
    assert_eq!(build_expected_reference_answer(&spec.clone()), REFERENCE);
}

#[test]
fn reference_answer_drops_one_terminal_mark_of_each_sentence() {
    let mut spec = rain_spec();
    spec.step1.pattern_tpl = " 因为{A}，所以{B}。 ".to_string();
    spec.step2.pattern_tpl = "{A}，于是{B}！".to_string();
    assert_eq!(build_expected_reference_answer(&spec), REFERENCE);
    spec.step2.pattern_tpl = "{A}，于是{B}！！".to_string();
    assert_eq!(build_expected_reference_answer(&spec), format!("{REFERENCE}！"));
}

#[test]
fn template_with_the_second_placeholder_first() {
    assert_eq!(render_template_ab("{B}，是因为{A}", "下雨了", "我没去"), "我没去，是因为下雨了");
    assert_eq!(render_template_ab("为{B}起见，{A}", "我早走", "安全"), "为安全起见，我早走");
}

#[test]
fn template_placeholders_are_all_replaced_in_turn() {
    assert_eq!(render_template_ab("{A}{A}{B}{B}", "x", "y"), "xxyy");
    assert_eq!(render_template_ab("no holes", "x", "y"), "no holes");
    assert_eq!(render_template_ab("", "x", "y"), "");
    assert_eq!(render_template_ab("{A}", "", "y"), "");
    // What stands for `{A}` is read again for `{B}`.
    assert_eq!(render_template_ab("{A}-{B}", "{B}", "y"), "y-y");
    // What stands for `{B}` is not read again.
    assert_eq!(render_template_ab("{A}-{B}", "x", "{A}"), "x-{A}");
    assert_eq!(render_template_ab("{{A}}{a}{ A}", "x", "y"), "{x}{a}{ A}");
}

#[test]
fn compact_challenge_names_both_labels() {
    let spec = rain_spec();
    assert_eq!(build_compact_challenge_zh(&spec), "用“因为…所以…”和“于是…”，只写两句。");
}

#[test]
fn user_message_has_its_prefix() {
    assert_eq!(build_core_plus_core_user_message("{\"seed\":\"下雨了\"}"), "SPEC_JSON:\n{\"seed\":\"下雨了\"}");
    assert_eq!(build_core_plus_core_user_message(""), "SPEC_JSON:\n");
    assert!(CORE_PLUS_CORE_SYSTEM_PROMPT.starts_with("\nYou are a Chinese learning item generator.\n"));
    assert!(CORE_PLUS_CORE_SYSTEM_PROMPT.ends_with("step2.relation, version\n"));
    assert_eq!(CORE_PLUS_CORE_SYSTEM_PROMPT.lines().count(), 23);
}

#[test]
fn item_with_seed_and_reference_is_accepted() {
    let spec = rain_spec();
    assert_eq!(validate_generated_item(&spec, &item("下雨了", REFERENCE)), Ok(()));
    // White space around the seed and the answer, and a mark at the end.
    let spaced = format!("  {REFERENCE}。\n");
    assert_eq!(validate_generated_item(&spec, &item(" 下雨了\n", &spaced)), Ok(()));
}

#[test]
fn item_with_another_seed_is_refused() {
    let spec = rain_spec();
    for seed in ["", "下雨", "下雨了。", "下 雨了", "我没去远处"] {
        assert_eq!(
            validate_generated_item(&spec, &item(seed, REFERENCE)),
            Err("seed_zh does not match SPEC.seed exactly".to_string()),
            "{seed}"
        );
    }
}

#[test]
fn item_without_two_sentences_is_refused() {
    let spec = rain_spec();
    for reference in [
        "",
        "。",
        "因为下雨了，所以我没去远处",
        "因为下雨了，所以我没去远处。",
        "因为下雨了，所以我没去远处。我没去远处。于是我就在附近的小店慢慢逛",
    ] {
        assert_eq!(
            validate_generated_item(&spec, &item("下雨了", reference)),
            Err("reference_answer_zh must contain exactly two sentences".to_string()),
            "{reference}"
        );
    }
}

#[test]
fn item_for_a_spec_without_two_sentences_is_refused() {
    let mut spec = rain_spec();
    spec.step2.pattern_tpl = "。".to_string();
    assert_eq!(
        validate_generated_item(&spec, &item("下雨了", REFERENCE)),
        Err("Internal error: expected reference split failed".to_string())
    );
}

#[test]
fn item_that_changes_a_sentence_is_refused() {
    let spec = rain_spec();
    for reference in [
        "因为下雨，所以我没去远处。我没去远处，于是我就在附近的小店慢慢逛",
        "因为下雨了，所以我没去远处。我没去远处，于是我在附近的小店慢慢逛",
        "我没去远处，于是我就在附近的小店慢慢逛。因为下雨了，所以我没去远处",
    ] {
        assert_eq!(
            validate_generated_item(&spec, &item("下雨了", reference)),
            Err("reference_answer_zh did not apply templates exactly to P1/P2/P3".to_string()),
            "{reference}"
        );
    }
}

#[test]
fn item_with_white_space_inside_a_proposition_is_refused() {
    let spec = rain_spec();
    assert_eq!(
        validate_generated_item(
            &spec,
            &item("下雨了", "因为下 雨了，所以我没去远处。我没去远处，于是我就在附近的小店慢慢逛")
        ),
        Err("reference sentence1 invalid: 缺少命题片段A：'下雨了'".to_string())
    );
    assert_eq!(
        validate_generated_item(
            &spec,
            &item("下雨了", "因为下雨了，所以我没 去远处。我没去远处，于是我就在附近的小店慢慢逛")
        ),
        Err("reference sentence1 invalid: 缺少命题片段B：'我没去远处'".to_string())
    );
    assert_eq!(
        validate_generated_item(
            &spec,
            &item("下雨了", "因为下雨了，所以我没去远处。我没去 远处，于是我就在附近的小店慢慢逛")
        ),
        Err("reference sentence2 invalid: 缺少命题片段A：'我没去远处'".to_string())
    );
    assert_eq!(
        validate_generated_item(
            &spec,
            &item("下雨了", "因为下雨了，所以我没去远处。我没去远处，于是我就在附近的小 店慢慢逛")
        ),
        Err("reference sentence2 invalid: 缺少命题片段B：'我就在附近的小店慢慢逛'".to_string())
    );
}

#[test]
fn item_with_white_space_inside_a_marker_is_refused() {
    let spec = rain_spec();
    assert_eq!(
        validate_generated_item(
            &spec,
            &item("下雨了", "因 为下雨了，所以我没去远处。我没去远处，于是我就在附近的小店慢慢逛")
        ),
        Err("reference sentence1 invalid: 缺少强标记：'因为'".to_string())
    );
    assert_eq!(
        validate_generated_item(
            &spec,
            &item("下雨了", "因为下雨了，所以我没去远处。我没去远处，于 是我就在附近的小店慢慢逛")
        ),
        Err("reference sentence2 invalid: 缺少强标记：'于是'".to_string())
    );
}

#[test]
fn item_with_white_space_that_breaks_the_shape_is_refused() {
    let spec = rain_spec();
    assert_eq!(
        validate_generated_item(
            &spec,
            &item("下雨了", "因为下雨了， 所以我没去远处。我没去远处，于是我就在附近的小店慢慢逛")
        ),
        Err("reference sentence1 invalid: 句式不匹配模式 因为…所以…".to_string())
    );
    assert_eq!(
        validate_generated_item(
            &spec,
            &item("下雨了", "因为下雨了，所以我没去远处。我没去远处， 于是我就在附近的小店慢慢逛")
        ),
        Err("reference sentence2 invalid: 句式不匹配模式 于是…".to_string())
    );
}

#[test]
fn sentence_by_the_pattern_alone() {
    let spec = rain_spec();
    assert_eq!(validate_sentence_pattern_only(&spec.step1, "因为甲，所以乙"), Ok(()));
    assert_eq!(
        validate_sentence_pattern_only(&spec.step1, "甲，所以乙"),
        Err("缺少强标记：'因为'".to_string())
    );
    assert_eq!(
        validate_sentence_pattern_only(&spec.step1, "因为甲，乙"),
        Err("缺少强标记：'所以'".to_string())
    );
    assert_eq!(
        validate_sentence_pattern_only(&spec.step1, ""),
        Err("缺少强标记：'因为'".to_string())
    );
    assert_eq!(
        validate_sentence_pattern_only(&spec.step1, "所以甲，因为乙"),
        Err("句式不匹配模式 因为…所以…".to_string())
    );
}

#[test]
fn empty_markers_are_passed_over() {
    let mut spec = rain_spec();
    spec.step1.strong_markers = vec![String::new(), "所以".to_string(), String::new()];
    assert_eq!(validate_sentence_pattern_only(&spec.step1, "因为甲，所以乙"), Ok(()));
    spec.step1.strong_markers = vec![];
    assert_eq!(validate_sentence_pattern_only(&spec.step1, "因为甲，所以乙"), Ok(()));
    assert_eq!(
        validate_sentence_pattern_only(&spec.step1, "甲"),
        Err("句式不匹配模式 因为…所以…".to_string())
    );
}

#[test]
fn sentence_by_the_strict_check() {
    let spec = rain_spec();
    assert_eq!(validate_sentence(&spec.step1, "因为甲，所以乙", "甲", "乙"), Ok(()));
    assert_eq!(
        validate_sentence(&spec.step1, "因为甲，所以乙", "丙", "乙"),
        Err("缺少命题片段A：'丙'".to_string())
    );
    assert_eq!(
        validate_sentence(&spec.step1, "因为甲，所以乙", "甲", "丁"),
        Err("缺少命题片段B：'丁'".to_string())
    );
    assert_eq!(
        validate_sentence(&spec.step1, "因为甲，乙", "甲", "乙"),
        Err("缺少强标记：'所以'".to_string())
    );
    assert_eq!(
        validate_sentence(&spec.step1, "甲乙所以，因为", "甲", "乙"),
        Err("句式不匹配模式 因为…所以…".to_string())
    );
    // The empty text stands in every sentence.
    assert_eq!(validate_sentence(&spec.step1, "因为甲，所以乙", "", ""), Ok(()));
}

#[test]
fn any_token_of_a_list() {
    let tokens: Vec<&'static str> = vec!["因为", "所以"];
    assert!(contains_any("因为下雨", &tokens));
    assert!(contains_any("我所以", &tokens));
    assert!(!contains_any("因 为", &tokens));
    assert!(!contains_any("", &tokens));
    assert!(!contains_any("因为", &vec![]));
    // An empty token is never found.
    assert!(!contains_any("因为", &vec![""]));
    // The answer is that of the set of the tokens: their order and a token
    // that occurs twice change nothing.
    for text in ["因为下雨", "我所以", "因 为", "", "所以因为"] {
        let expected = contains_any(text, &tokens);
        assert_eq!(contains_any(text, &vec!["所以", "因为"]), expected);
        assert_eq!(contains_any(text, &vec!["因为", "因为", "所以", "", "因为"]), expected);
        assert_eq!(
            contains_any(text, &vec!["因为"]) || contains_any(text, &vec!["所以"]),
            expected
        );
    }
    let markers = vec!["于是".to_string(), String::new()];
    assert!(contains_any_marker("甲，于是乙", &markers));
    assert!(!contains_any_marker("甲，于 是乙", &markers));
    assert!(!contains_any_marker("", &markers));
    assert!(!contains_any_marker("甲", &vec![String::new()]));
}
