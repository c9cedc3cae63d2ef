//! Small text helpers shared by the other modules.

use vstd::prelude::*;
use vstd::string::StringSliceAdditionalSpecFns;
use vstd::utf8::{decode_utf8, encode_utf8_decode_utf8, is_char_boundary};
use crate::text::{
    from_chars,
    push_chars,
    push_str,
    remove_white_space,
    replace_chars,
    spec_replace,
    to_chars,
    without_white_space,
};

verus! {

/// The placeholder of a key: the key between braces.
pub open spec fn needle_of(key: Seq<char>) -> Seq<char> {
    seq!['{'] + key + seq!['}']
}

/// What a list of pairs of a key and a value holds.
pub open spec fn pairs_of(pairs: Seq<(&str, &str)>) -> Seq<(Seq<char>, Seq<char>)> {
    Seq::new(pairs.len(), |i: int| (pairs[i].0@, pairs[i].1@))
}

/// The template after the first `n` pairs were applied, one after the
/// other: each replaces every placeholder of its key by its value.
pub open spec fn fill_upto(tpl: Seq<char>, pairs: Seq<(Seq<char>, Seq<char>)>, n: int) -> Seq<
    char,
>
    decreases n,
{
    if n <= 0 {
        tpl
    } else {
        spec_replace(fill_upto(tpl, pairs, n - 1), needle_of(pairs[n - 1].0), pairs[n - 1].1)
    }
}

/// The template with all pairs applied.
pub open spec fn spec_fill_template(tpl: Seq<char>, pairs: Seq<(Seq<char>, Seq<char>)>) -> Seq<
    char,
> {
    fill_upto(tpl, pairs, pairs.len() as int)
}

/// Fills a template: each `{key}` is replaced by the value of the key. The
/// pairs are applied in the order given, each to the result of those before
/// it.
pub fn fill_template(tpl: &str, pairs: &[(&str, &str)]) -> (r: String)
    ensures
        r@ == spec_fill_template(tpl@, pairs_of(pairs@)),
{
    let mut out = to_chars(tpl);
    let mut i: usize = 0;
    while i < pairs.len()
        invariant
            i <= pairs.len(),
            out@ == fill_upto(tpl@, pairs_of(pairs@), i as int),
        decreases pairs.len() - i,
    {
        let mut needle: Vec<char> = Vec::new();
        needle.push('{');
        push_str(&mut needle, pairs[i].0);
        needle.push('}');
        assert(needle@ == needle_of(pairs_of(pairs@)[i as int].0));
        let value = to_chars(pairs[i].1);
        out = replace_chars(&out, &needle, &value);
        i += 1;
    }
    from_chars(&out)
}

/// Whether `ch` lies in one of the CJK unified ideograph blocks.
pub open spec fn spec_is_cjk(ch: char) -> bool {
    ||| ('\u{4E00}' <= ch && ch <= '\u{9FFF}')
    ||| ('\u{3400}' <= ch && ch <= '\u{4DBF}')
    ||| ('\u{20000}' <= ch && ch <= '\u{2A6DF}')
    ||| ('\u{2A700}' <= ch && ch <= '\u{2B73F}')
    ||| ('\u{2B740}' <= ch && ch <= '\u{2B81F}')
    ||| ('\u{2B820}' <= ch && ch <= '\u{2CEAF}')
    ||| ('\u{F900}' <= ch && ch <= '\u{FAFF}')
}

/// True if the character belongs to the CJK ranges.
pub fn is_cjk(ch: char) -> (b: bool)
    ensures
        b == spec_is_cjk(ch),
{
    (ch >= '\u{4E00}' && ch <= '\u{9FFF}') || (ch >= '\u{3400}' && ch <= '\u{4DBF}') || (ch
        >= '\u{20000}' && ch <= '\u{2A6DF}') || (ch >= '\u{2A700}' && ch <= '\u{2B73F}') || (ch
        >= '\u{2B740}' && ch <= '\u{2B81F}') || (ch >= '\u{2B820}' && ch <= '\u{2CEAF}') || (ch
        >= '\u{F900}' && ch <= '\u{FAFF}')
}

/// The sentence without any white space, for comparisons that pass over
/// spacing.
pub fn normalize(s: &str) -> (r: String)
    ensures
        r@ == without_white_space(s@),
{
    let r = remove_white_space(&to_chars(s));
    from_chars(&r)
}

/// `s` without its space characters.
pub open spec fn without_spaces(s: Seq<char>) -> Seq<char> {
    s.filter(|c: char| c != ' ')
}

/// A pinyin text without the spaces between its syllables.
pub fn pinyin_concat_no_space(pinyin_with_spaces: &str) -> (r: String)
    ensures
        r@ == without_spaces(pinyin_with_spaces@),
{
    let v = to_chars(pinyin_with_spaces);
    let mut r: Vec<char> = Vec::new();
    let mut i: usize = 0;
    proof {
        reveal(Seq::filter);
        assert(v@.subrange(0, 0).len() == 0);
    }
    while i < v.len()
        invariant
            i <= v.len(),
            r@ == without_spaces(v@.subrange(0, i as int)),
        decreases v.len() - i,
    {
        proof {
            let p = |c: char| c != ' ';
            v@.subrange(0, i as int).lemma_filter_push(v@[i as int], p);
            assert(v@.subrange(0, i + 1) == v@.subrange(0, i as int).push(v@[i as int]));
        }
        if v[i] != ' ' {
            r.push(v[i]);
        }
        i += 1;
    }
    assert(v@.subrange(0, v.len() as int) == v@);
    from_chars(&r)
}

/// The digit that writes `d`, for `d` below ten.
pub open spec fn digit_char(d: int) -> char {
    if d == 0 {
        '0'
    } else if d == 1 {
        '1'
    } else if d == 2 {
        '2'
    } else if d == 3 {
        '3'
    } else if d == 4 {
        '4'
    } else if d == 5 {
        '5'
    } else if d == 6 {
        '6'
    } else if d == 7 {
        '7'
    } else if d == 8 {
        '8'
    } else {
        '9'
    }
}

/// The digits that write `n` in base ten, without leading zeros.
pub open spec fn decimal(n: nat) -> Seq<char>
    decreases n,
{
    if n < 10 {
        seq![digit_char(n as int)]
    } else {
        decimal(n / 10).push(digit_char((n % 10) as int))
    }
}

/// The digit that writes `d`.
fn digit_of(d: usize) -> (c: char)
    requires
        d < 10,
    ensures
        c == digit_char(d as int),
{
    if d == 0 {
        '0'
    } else if d == 1 {
        '1'
    } else if d == 2 {
        '2'
    } else if d == 3 {
        '3'
    } else if d == 4 {
        '4'
    } else if d == 5 {
        '5'
    } else if d == 6 {
        '6'
    } else if d == 7 {
        '7'
    } else if d == 8 {
        '8'
    } else {
        '9'
    }
}

/// The digits that write `n` in base ten.
pub fn decimal_chars(n: usize) -> (r: Vec<char>)
    ensures
        r@ == decimal(n as nat),
{
    let mut low: Vec<char> = Vec::new();
    let mut rest: usize = n;
    while rest >= 10
        invariant
            decimal(n as nat) == decimal(rest as nat) + low@.reverse(),
        decreases rest,
    {
        let ghost before = low@;
        low.push(digit_of(rest % 10));
        assert(low@.reverse() =~= seq![digit_char((rest % 10) as int)] + before.reverse());
        assert(decimal(rest as nat) == decimal((rest / 10) as nat).push(
            digit_char((rest % 10) as int),
        ));
        rest = rest / 10;
    }
    let mut r: Vec<char> = Vec::new();
    r.push(digit_of(rest));
    let mut k: usize = low.len();
    while k > 0
        invariant
            k <= low.len(),
            r@ == decimal(rest as nat) + low@.reverse().subrange(0, low.len() - k),
        decreases k,
    {
        k -= 1;
        r.push(low[k]);
        assert(low@.reverse()[low.len() - 1 - k] == low@[k as int]);
    }
    assert(low@.reverse().subrange(0, low.len() as int) == low@.reverse());
    r
}

pub const TRUNCATED_OPEN: &'static str = "… (";

pub const TRUNCATED_CLOSE: &'static str = " bytes total)";

/// A text cut for a log line: the text itself where it has at most `max`
/// bytes, else its first `max` bytes followed by a note of its full length
/// in bytes.
pub open spec fn spec_trunc_for_log(s: &str, max: usize) -> Seq<char> {
    if s.len() <= max {
        s@
    } else {
        decode_utf8(s.spec_bytes().subrange(0, max as int)) + TRUNCATED_OPEN@ + decimal(
            s.len() as nat,
        ) + TRUNCATED_CLOSE@
    }
}

/// A text cut for a log line. Where the text is longer than `max` bytes,
/// byte `max` has to begin a character.
pub fn trunc_for_log(s: &str, max: usize) -> (r: String)
    requires
        s.len() > max ==> is_char_boundary(s.spec_bytes(), max as int),
    ensures
        r@ == spec_trunc_for_log(s, max),
{
    if s.len() <= max {
        return s.to_string();
    }
    let (head, _tail) = s.split_at(max);
    proof {
        encode_utf8_decode_utf8(head@);
    }
    let mut r = to_chars(head);
    push_str(&mut r, TRUNCATED_OPEN);
    let digits = decimal_chars(s.len());
    push_chars(&mut r, &digits);
    push_str(&mut r, TRUNCATED_CLOSE);
    assert(r@ == spec_trunc_for_log(s, max));
    from_chars(&r)
}

} // verus!
