use caatuu_backend::matcher::simple_regex_like_match;

#[test]
fn literal_chunks_in_order() {
    let pattern = "^因为.+，所以.+$";
    assert!(simple_regex_like_match(pattern, "因为下雨，所以我没去"));
    // The first literal is missing at the start.
    assert!(!simple_regex_like_match(pattern, "下雨所以我没去"));
    // The second literal is missing.
    assert!(!simple_regex_like_match(pattern, "因为下雨"));
}

#[test]
fn first_chunk_is_pinned_to_the_start() {
    assert!(simple_regex_like_match("^abc.+", "abcdef"));
    assert!(!simple_regex_like_match("^abc.+", "xabcdef"));
    // Without the anchor the chunk may stand anywhere.
    assert!(simple_regex_like_match("abc.+", "xabcdef"));
    // With a wildcard at the start it may stand anywhere too.
    assert!(simple_regex_like_match("^.+abc", "xabc"));
    assert!(simple_regex_like_match("^.+abc", "xxabcx"));
}

#[test]
fn wildcard_takes_the_empty_text_too() {
    // The scan does not ask for a character between two chunks.
    assert!(simple_regex_like_match("^因为.+，所以.+$", "因为，所以"));
    assert!(simple_regex_like_match("^a.+b.+$", "ab"));
    assert!(simple_regex_like_match("^.+abc", "abc"));
}

#[test]
fn last_chunk_is_pinned_to_the_end() {
    assert!(simple_regex_like_match("^a.+b$", "axb"));
    assert!(!simple_regex_like_match("^a.+b$", "axbx"));
    // The first place found is taken, and the scan never goes back.
    assert!(!simple_regex_like_match("^a.+b$", "axbyb"));
    // Without the anchor, or with a wildcard at the end, the rest is free.
    assert!(simple_regex_like_match("^a.+b", "axbyb"));
    assert!(simple_regex_like_match("^a.+b.+$", "axbyb"));
    assert!(simple_regex_like_match("abc$", "abc"));
    assert!(!simple_regex_like_match("abc$", "abcd"));
    assert!(simple_regex_like_match("abc$", "xabc"));
    assert!(!simple_regex_like_match("abc$", "abcabc"));
}

#[test]
fn chunks_do_not_overlap() {
    assert!(simple_regex_like_match("ab.+bc", "abbc"));
    assert!(!simple_regex_like_match("ab.+bc", "abc"));
    assert!(simple_regex_like_match("aa.+aa", "aaaa"));
    assert!(!simple_regex_like_match("aa.+aa", "aaa"));
}

#[test]
fn chunks_are_found_in_order() {
    assert!(simple_regex_like_match("one.+two.+three", "one, two, three"));
    assert!(!simple_regex_like_match("one.+two.+three", "two, one, three"));
    assert!(!simple_regex_like_match("one.+two.+three", "one, three, two"));
    assert!(simple_regex_like_match("one.+two.+three", "three one three two one three"));
}

#[test]
fn expression_without_a_literal_takes_any_text_but_the_empty_one() {
    for pattern in ["", "^", "$", "^$", ".+", "^.+$", ".+.+", "^.+.+$", "  ^.+$  "] {
        assert!(simple_regex_like_match(pattern, "x"), "{pattern:?}");
        assert!(simple_regex_like_match(pattern, " "), "{pattern:?}");
        assert!(!simple_regex_like_match(pattern, ""), "{pattern:?}");
    }
}

#[test]
fn expression_is_trimmed_and_the_text_is_not() {
    assert!(simple_regex_like_match("  ^abc$\n", "abc"));
    assert!(!simple_regex_like_match("^abc$", " abc"));
    assert!(!simple_regex_like_match("^abc$", "abc "));
    assert!(simple_regex_like_match("^ abc$", " abc"));
}

#[test]
fn only_the_outer_anchors_are_read() {
    // A second `^` is a literal.
    assert!(simple_regex_like_match("^^a", "^a"));
    assert!(!simple_regex_like_match("^^a", "a"));
    // So is a `$` before the last one.
    assert!(simple_regex_like_match("a$$", "a$"));
    assert!(!simple_regex_like_match("a$$", "a"));
    // And a lone dot or plus.
    assert!(simple_regex_like_match("^a.b$", "a.b"));
    assert!(!simple_regex_like_match("^a.b$", "axb"));
    assert!(simple_regex_like_match("^a+$", "a+"));
    assert!(!simple_regex_like_match("^a+$", "aa"));
}

#[test]
fn empty_text_against_a_literal() {
    assert!(!simple_regex_like_match("abc", ""));
    assert!(!simple_regex_like_match("^.+a.+$", ""));
}

#[test]
fn every_pattern_of_the_catalog_takes_its_own_rendering() {
    for row in 0..caatuu_backend::catalog::PATTERN_COUNT {
        let p = caatuu_backend::catalog::pattern_at(row);
        let sentence = p.tpl.replace("{A}", "我下课了").replace("{B}", "我去图书馆复习");
        assert!(simple_regex_like_match(p.check_regex, &sentence), "{}", p.id);
        for marker in p.strong_markers.iter() {
            assert!(sentence.contains(marker), "{}", p.id);
        }
    }
}
