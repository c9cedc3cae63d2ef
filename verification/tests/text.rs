use caatuu_backend::difficulty::{
    difficulty_to_target_level, level_of_normalized, number_level_chars,
};
use caatuu_backend::pinyin::char_is_ascii_punctuation;
use caatuu_backend::sentence::{
    char_is_terminal_mark, normalize_for_compare, split_two_sentences,
    trim_sentence_trailing_punct,
};
use caatuu_backend::text::{
    char_is_white_space, contains_chars, copy_range, find_chars, from_chars, join_chars,
    matches_at, remove_white_space, replace_chars, same_text, split_chars, to_chars, trim_chars,
};

fn chars(s: &str) -> Vec<char> {
    s.chars().collect()
}

fn text(v: &Vec<char>) -> String {
    v.iter().collect()
}

#[test]
fn characters_and_back() {
    assert_eq!(to_chars("因为a"), vec!['因', '为', 'a']);
    assert!(to_chars("").is_empty());
    assert_eq!(from_chars(&chars("因为a")), "因为a");
    assert_eq!(from_chars(&vec![]), "");
    assert_eq!(copy_range(&chars("abcdef"), 2, 4), chars("cd"));
    assert!(copy_range(&chars("abcdef"), 3, 3).is_empty());
    assert!(same_text("因为", "因为"));
    assert!(!same_text("因为", "因"));
    assert!(!same_text("因为", "因此"));
    assert!(same_text("", ""));
}

#[test]
fn white_space_is_what_the_standard_library_says() {
    let mut count = 0;
    for code in 0u32..=0x10FFFF {
        if let Some(c) = char::from_u32(code) {
            assert_eq!(char_is_white_space(c), c.is_whitespace(), "U+{code:04X}");
            if char_is_white_space(c) {
                count += 1;
            }
        }
    }
    assert_eq!(count, 25);
}

#[test]
fn punctuation_is_what_the_standard_library_says() {
    for code in 0u32..=0x10FFFF {
        if let Some(c) = char::from_u32(code) {
            assert_eq!(char_is_ascii_punctuation(c), c.is_ascii_punctuation(), "U+{code:04X}");
            assert_eq!(char_is_terminal_mark(c), "。.!！?？".contains(c), "U+{code:04X}");
        }
    }
}

#[test]
fn trimming() {
    for s in ["", " ", "a", " a", "a ", "  a b  ", "\t\n a\u{3000}", "\u{a0}因为 所以\u{2028}", "   "] {
        assert_eq!(text(&trim_chars(&chars(s))), s.trim(), "{s:?}");
    }
}

#[test]
fn removing_white_space() {
    for s in ["", " ", "a b", " a\tb\nc ", "因 为\u{3000}所 以", "abc"] {
        let expected: String = s.chars().filter(|c| !c.is_whitespace()).collect();
        assert_eq!(text(&remove_white_space(&chars(s))), expected, "{s:?}");
        assert_eq!(normalize_for_compare(s), expected, "{s:?}");
    }
}

#[test]
fn searching() {
    let t = chars("abcabcab");
    assert!(matches_at(&t, &chars("abc"), 0));
    assert!(!matches_at(&t, &chars("abc"), 1));
    assert!(matches_at(&t, &chars("abc"), 3));
    assert!(!matches_at(&t, &chars("abc"), 6));
    assert!(matches_at(&t, &chars(""), 8));
    assert!(!matches_at(&t, &chars(""), 9));
    assert_eq!(find_chars(&t, &chars("abc"), 0), Some(0));
    assert_eq!(find_chars(&t, &chars("abc"), 1), Some(3));
    assert_eq!(find_chars(&t, &chars("abc"), 4), None);
    assert_eq!(find_chars(&t, &chars("ab"), 4), Some(6));
    assert_eq!(find_chars(&t, &chars(""), 5), Some(5));
    assert_eq!(find_chars(&t, &chars(""), 8), Some(8));
    assert_eq!(find_chars(&t, &chars(""), 9), None);
    assert_eq!(find_chars(&t, &chars("abcabcabc"), 0), None);
    assert_eq!(find_chars(&t, &chars("x"), 0), None);
    for (hay, needle) in [("因为下雨", "下雨"), ("因为下雨", "雨下"), ("", ""), ("a", ""), ("", "a"), ("aab", "ab")] {
        assert_eq!(contains_chars(&chars(hay), &chars(needle)), hay.contains(needle));
    }
}

#[test]
fn replacing() {
    for (s, from, to) in [
        ("因为{A}，所以{B}", "{A}", "下雨"),
        ("aaa", "aa", "b"),
        ("aaaa", "aa", "b"),
        ("abc", "x", "y"),
        ("", "x", "y"),
        ("abab", "ab", ""),
        ("abab", "ab", "abab"),
        ("a b c", " ", ""),
    ] {
        assert_eq!(
            text(&replace_chars(&chars(s), &chars(from), &chars(to))),
            s.replace(from, to),
            "{s:?} {from:?} {to:?}"
        );
    }
}

#[test]
fn splitting() {
    for (s, sep) in [
        ("a.+b.+c", ".+"),
        (".+a.+", ".+"),
        ("", ".+"),
        ("abc", ".+"),
        (".+", ".+"),
        (".+.+", ".+"),
        ("a.b+c", ".+"),
        ("甲。乙。丙", "。"),
        ("。。", "。"),
        ("aaa", "aa"),
    ] {
        let got: Vec<String> = split_chars(&chars(s), &chars(sep)).iter().map(text).collect();
        let expected: Vec<String> = s.split(sep).map(|p| p.to_string()).collect();
        assert_eq!(got, expected, "{s:?} {sep:?}");
    }
}

#[test]
fn joining() {
    assert_eq!(text(&join_chars(&vec![], "；")), "");
    assert_eq!(text(&join_chars(&vec![chars("甲")], "；")), "甲");
    assert_eq!(text(&join_chars(&vec![chars("甲"), chars(""), chars("乙")], "；")), "甲；；乙");
    assert_eq!(text(&join_chars(&vec![chars("a"), chars("b")], "")), "ab");
}

#[test]
fn sentence_without_one_terminal_mark() {
    assert_eq!(trim_sentence_trailing_punct(" 下雨了。 "), "下雨了");
    assert_eq!(trim_sentence_trailing_punct("下雨了"), "下雨了");
    assert_eq!(trim_sentence_trailing_punct("下雨了."), "下雨了");
    assert_eq!(trim_sentence_trailing_punct("下雨了!"), "下雨了");
    assert_eq!(trim_sentence_trailing_punct("下雨了！"), "下雨了");
    assert_eq!(trim_sentence_trailing_punct("下雨了?"), "下雨了");
    assert_eq!(trim_sentence_trailing_punct("下雨了？"), "下雨了");
    assert_eq!(trim_sentence_trailing_punct("下雨了 。"), "下雨了");
    assert_eq!(trim_sentence_trailing_punct("。下雨了"), "。下雨了");
    assert_eq!(trim_sentence_trailing_punct("下雨了，"), "下雨了，");
    assert_eq!(trim_sentence_trailing_punct("。"), "");
    assert_eq!(trim_sentence_trailing_punct(""), "");
    assert_eq!(trim_sentence_trailing_punct("  "), "");
    // One mark is taken, a second one stays.
    assert_eq!(trim_sentence_trailing_punct("下雨了。。"), "下雨了。");
    assert_eq!(trim_sentence_trailing_punct("下雨了？！"), "下雨了？");
}

#[test]
fn two_sentences() {
    let pair = |a: &str, b: &str| Some((a.to_string(), b.to_string()));
    assert_eq!(split_two_sentences("甲。乙"), pair("甲", "乙"));
    assert_eq!(split_two_sentences("甲。乙。"), pair("甲", "乙"));
    assert_eq!(split_two_sentences(" 甲 。 乙 。 "), pair("甲", "乙"));
    assert_eq!(split_two_sentences("甲！乙？"), pair("甲", "乙"));
    assert_eq!(split_two_sentences("甲!乙?"), pair("甲", "乙"));
    assert_eq!(split_two_sentences("甲？乙"), pair("甲", "乙"));
    // Empty pieces are left out.
    assert_eq!(split_two_sentences("甲。。乙"), pair("甲", "乙"));
    assert_eq!(split_two_sentences("。甲。 。乙。。"), pair("甲", "乙"));
    // A period ends the text and does not cut it.
    assert_eq!(split_two_sentences("甲。乙."), pair("甲", "乙"));
    assert_eq!(split_two_sentences("甲.乙"), None);
    assert_eq!(split_two_sentences("甲.乙。丙"), pair("甲.乙", "丙"));
    // White space inside a sentence stays.
    assert_eq!(split_two_sentences("甲 乙。丙\t丁"), pair("甲 乙", "丙\t丁"));
    assert_eq!(split_two_sentences(""), None);
    assert_eq!(split_two_sentences("。"), None);
    assert_eq!(split_two_sentences("甲"), None);
    assert_eq!(split_two_sentences("甲。"), None);
    assert_eq!(split_two_sentences("甲。乙。丙"), None);
}

#[test]
fn level_of_a_number_of_any_length() {
    let level = |s: &str| number_level_chars(&chars(s), 0);
    assert_eq!(level("0"), Some(1));
    assert_eq!(level("1"), Some(1));
    assert_eq!(level("2"), Some(1));
    assert_eq!(level("3"), Some(2));
    assert_eq!(level("4"), Some(2));
    assert_eq!(level("5"), Some(3));
    assert_eq!(level("6"), Some(3));
    assert_eq!(level("9"), Some(3));
    assert_eq!(level("10"), Some(3));
    assert_eq!(level("20"), Some(3));
    assert_eq!(level("40"), Some(3));
    assert_eq!(level("255"), Some(3));
    assert_eq!(level("256"), Some(3));
    assert_eq!(level("300"), Some(3));
    assert_eq!(level("1000"), Some(3));
    assert_eq!(level("4294967296"), Some(3));
    assert_eq!(level("18446744073709551616"), Some(3));
    assert_eq!(level("99999999999999999999999999999999999999999999999999"), Some(3));
    // Zeros in front do not count.
    assert_eq!(level("007"), Some(3));
    assert_eq!(level("002"), Some(1));
    assert_eq!(level("0000000000000000000000000000000000000000000000004"), Some(2));
    assert_eq!(level("000"), Some(1));
    // One `+` in front is taken.
    assert_eq!(level("+0"), Some(1));
    assert_eq!(level("+4"), Some(2));
    assert_eq!(level("+300"), Some(3));
    // Anything else writes no number.
    for other in ["", "+", "-1", "-0", "++1", "1+", " 1", "1 ", "1a", "a1", "1e1", "1.0", "３", "x"] {
        assert_eq!(level(other), None, "{other:?}");
    }
    // A text that the standard library reads as a number is read as the
    // same number.
    for n in 0u32..=300 {
        let expected = if n <= 2 { 1 } else if n <= 4 { 2 } else { 3 };
        assert_eq!(level(&n.to_string()), Some(expected), "{n}");
        assert_eq!(level(&format!("+{n}")), Some(expected), "{n}");
        assert_eq!(level(&format!("00{n}")), Some(expected), "{n}");
    }
    assert_eq!(number_level_chars(&chars("hsk12"), 3), Some(3));
    assert_eq!(number_level_chars(&chars("hsk2"), 3), Some(1));
    assert_eq!(number_level_chars(&chars("hsk"), 3), None);
    assert_eq!(number_level_chars(&chars("hsk4"), 4), None);
}

#[test]
fn level_of_a_difficulty() {
    assert_eq!(difficulty_to_target_level("hsk0"), 1);
    assert_eq!(difficulty_to_target_level("hsk1"), 1);
    assert_eq!(difficulty_to_target_level("hsk2"), 1);
    assert_eq!(difficulty_to_target_level("hsk3"), 2);
    assert_eq!(difficulty_to_target_level("hsk4"), 2);
    assert_eq!(difficulty_to_target_level("hsk5"), 3);
    assert_eq!(difficulty_to_target_level("hsk6"), 3);
    assert_eq!(difficulty_to_target_level("hsk9"), 3);
    // A number of any length is read.
    assert_eq!(difficulty_to_target_level("hsk10"), 3);
    assert_eq!(difficulty_to_target_level("hsk255"), 3);
    assert_eq!(difficulty_to_target_level("hsk256"), 3);
    assert_eq!(difficulty_to_target_level("hsk300"), 3);
    assert_eq!(difficulty_to_target_level("hsk99999999999999999999999999"), 3);
    assert_eq!(difficulty_to_target_level("hsk00000000000000000000000001"), 1);
    // The text is read without regard to case and to white space around it.
    assert_eq!(difficulty_to_target_level("HSK1"), 1);
    assert_eq!(difficulty_to_target_level("Hsk5"), 3);
    assert_eq!(difficulty_to_target_level("HSK300"), 3);
    assert_eq!(difficulty_to_target_level("  hsk1\n"), 1);
    assert_eq!(difficulty_to_target_level("hsk+2"), 1);
    assert_eq!(difficulty_to_target_level("hsk01"), 1);
    // A text that is not `hsk` and a number gives level 2.
    for other in ["", "hsk", "hsk-1", "hsk 1", "hsk1 a", "hsk+", "hsk1.5", "1", "300", "level1", "hsk１", "h sk1"] {
        assert_eq!(difficulty_to_target_level(other), 2, "{other:?}");
    }
}

#[test]
fn level_of_a_normalized_difficulty() {
    assert_eq!(level_of_normalized("hsk1"), 1);
    assert_eq!(level_of_normalized("hsk4"), 2);
    assert_eq!(level_of_normalized("hsk5"), 3);
    assert_eq!(level_of_normalized("hsk300"), 3);
    // The caller lowers the case.
    assert_eq!(level_of_normalized("HSK1"), 2);
    assert_eq!(level_of_normalized(" hsk1"), 2);
    assert_eq!(level_of_normalized(""), 2);
}
