//! Hanzi to Hanyu Pinyin with tone marks, syllable by syllable.
//!
//! Each character that has a reading is replaced by it; any other character
//! is copied. Readings that follow one another are set apart by one space.
//! The conversion goes character by character, without word segmentation, so
//! a character with several readings gets its first.

use ::pinyin::ToPinyin;
use std::collections::HashMap;
use vstd::prelude::*;
use vstd::std_specs::hash::group_hash_axioms;
use crate::text::{
    char_is_white_space,
    from_chars,
    is_white_space,
    push_str,
    spec_trim,
    to_chars,
    trim_chars,
};
use crate::util::{is_cjk, spec_is_cjk};

verus! {

broadcast use group_hash_axioms;

/// The reading of a character with tone marks, where the tables of the
/// `pinyin` crate hold one.
pub uninterp spec fn pinyin_with_tone(ch: char) -> Option<Seq<char>>;

/// Trusted: `ToPinyin::to_pinyin` of the `pinyin` crate on a character, and
/// `Pinyin::with_tone` to read the text out of what it found. The contract
/// names the result and states no more: it is the reading that the tables of
/// the crate hold for the character, or none where they hold none.
#[verifier::external_body]
fn char_pinyin(ch: char) -> (r: Option<&'static str>)
    ensures
        match r {
            Some(syllable) => pinyin_with_tone(ch) == Some(syllable@),
            None => pinyin_with_tone(ch) is None,
        },
{
    match ch.to_pinyin() {
        Some(reading) => Some(reading.with_tone()),
        None => None,
    }
}

/// What one character adds to the output, given its reading and whether the
/// character before it had one.
pub open spec fn spec_syllable(last_was_hanzi: bool, ch: char, reading: Option<Seq<char>>) -> Seq<
    char,
> {
    match reading {
        Some(syllable) => if last_was_hanzi {
            seq![' '] + syllable
        } else {
            syllable
        },
        None => seq![ch],
    }
}

/// The pinyin text of the first `n` characters of `text`.
pub open spec fn pinyin_upto(text: Seq<char>, n: int) -> Seq<char>
    decreases n,
{
    if n <= 0 {
        Seq::empty()
    } else {
        pinyin_upto(text, n - 1) + spec_syllable(
            n >= 2 && pinyin_with_tone(text[n - 2]) is Some,
            text[n - 1],
            pinyin_with_tone(text[n - 1]),
        )
    }
}

/// The pinyin text of `text`.
pub open spec fn spec_pinyin(text: Seq<char>) -> Seq<char> {
    pinyin_upto(text, text.len() as int)
}

/// Writes one character to the output: its reading, behind a space where
/// the character before it was written as a reading too, or the character
/// itself where it has no reading. Returns whether a reading was written.
pub fn push_syllable(out: &mut Vec<char>, last_was_hanzi: bool, ch: char, reading: Option<&str>) -> (r:
    bool)
    ensures
        final(out)@ == old(out)@ + spec_syllable(
            last_was_hanzi,
            ch,
            match reading {
                Some(syllable) => Some(syllable@),
                None => None,
            },
        ),
        r == reading is Some,
{
    let ghost before = out@;
    match reading {
        Some(syllable) => {
            if last_was_hanzi {
                out.push(' ');
            }
            push_str(out, syllable);
            assert(out@ == before + spec_syllable(last_was_hanzi, ch, Some(syllable@)));
            true
        },
        None => {
            out.push(ch);
            assert(out@ == before + spec_syllable(last_was_hanzi, ch, None));
            false
        },
    }
}

/// Converts Chinese text into pinyin with tone marks. Characters without a
/// reading are copied as they are.
pub fn to_pinyin_diacritics(text: &str) -> (r: String)
    ensures
        r@ == spec_pinyin(text@),
{
    let v = to_chars(text);
    let mut out: Vec<char> = Vec::new();
    let mut last_was_hanzi = false;
    let mut i: usize = 0;
    while i < v.len()
        invariant
            i <= v.len(),
            out@ == pinyin_upto(v@, i as int),
            last_was_hanzi == (i >= 1 && pinyin_with_tone(v@[i - 1]) is Some),
        decreases v.len() - i,
    {
        let reading = char_pinyin(v[i]);
        last_was_hanzi = push_syllable(&mut out, last_was_hanzi, v[i], reading);
        i += 1;
    }
    from_chars(&out)
}

/// The punctuation marks of ASCII.
pub open spec fn is_ascii_punctuation(c: char) -> bool {
    ||| ('!' <= c && c <= '/')
    ||| (':' <= c && c <= '@')
    ||| ('[' <= c && c <= '`')
    ||| ('{' <= c && c <= '~')
}

/// Whether `c` is a punctuation mark of ASCII.
pub fn char_is_ascii_punctuation(c: char) -> (b: bool)
    ensures
        b == is_ascii_punctuation(c),
{
    (c >= '!' && c <= '/') || (c >= ':' && c <= '@') || (c >= '[' && c <= '`') || (c >= '{' && c
        <= '~')
}

/// The reading that a table holds for a character.
pub open spec fn reading_in(table: Map<u32, &'static str>, ch: char) -> Option<Seq<char>> {
    if table.contains_key(ch as u32) {
        Some(table[ch as u32]@)
    } else {
        None
    }
}

/// The output after one more character. A reading is set apart from what
/// stands before it by a space, unless the output is empty or ends with a
/// space. A character without a reading is copied; where it is a CJK
/// character it is set apart in the same way, and punctuation and white
/// space never are.
pub open spec fn local_step(out: Seq<char>, reading: Option<Seq<char>>, ch: char) -> Seq<char> {
    let spaced = if out.len() > 0 && out.last() != ' ' {
        out.push(' ')
    } else {
        out
    };
    match reading {
        Some(syllable) => spaced + syllable,
        None => if is_ascii_punctuation(ch) || is_white_space(ch) || !spec_is_cjk(ch) {
            out.push(ch)
        } else {
            spaced.push(ch)
        },
    }
}

/// The output after the first `n` characters of `text`.
pub open spec fn local_pinyin_upto(table: Map<u32, &'static str>, text: Seq<char>, n: int) -> Seq<
    char,
>
    decreases n,
{
    if n <= 0 {
        Seq::empty()
    } else {
        local_step(
            local_pinyin_upto(table, text, n - 1),
            reading_in(table, text[n - 1]),
            text[n - 1],
        )
    }
}

/// The pinyin text of `text` by a table of readings, trimmed.
pub open spec fn spec_pinyin_local(table: Map<u32, &'static str>, text: Seq<char>) -> Seq<char> {
    spec_trim(local_pinyin_upto(table, text, text.len() as int))
}

/// Converts text into pinyin by a table of readings, keyed by the code
/// point of the character.
pub fn pinyin_for_text_local(char_pinyin: &HashMap<u32, &'static str>, text: &str) -> (r: String)
    ensures
        r@ == spec_pinyin_local(char_pinyin@, text@),
{
    let v = to_chars(text);
    let mut out: Vec<char> = Vec::new();
    let mut i: usize = 0;
    while i < v.len()
        invariant
            i <= v.len(),
            out@ == local_pinyin_upto(char_pinyin@, v@, i as int),
        decreases v.len() - i,
    {
        let ch = v[i];
        let ghost before = out@;
        let code: u32 = ch as u32;
        let open = out.len() > 0 && out[out.len() - 1] != ' ';
        match char_pinyin.get(&code) {
            Some(syllable) => {
                if open {
                    out.push(' ');
                }
                push_str(&mut out, *syllable);
                assert(out@ == local_step(before, reading_in(char_pinyin@, ch), ch));
            },
            None => {
                if char_is_ascii_punctuation(ch) || char_is_white_space(ch) {
                    out.push(ch);
                } else {
                    if open && is_cjk(ch) {
                        out.push(' ');
                    }
                    out.push(ch);
                }
                assert(out@ == local_step(before, reading_in(char_pinyin@, ch), ch));
            },
        }
        i += 1;
    }
    from_chars(&trim_chars(&out))
}

} // verus!
