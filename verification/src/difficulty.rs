//! From a difficulty text such as `hsk3` to one of three levels.

use vstd::prelude::*;
use crate::matcher::spec_starts_with;
use crate::text::{
    from_chars,
    lowercase_of,
    matches_at,
    spec_trim,
    to_chars,
    to_lowercase,
    trim_chars,
};

verus! {

/// Whether `c` is one of the digits `0` to `9`.
pub open spec fn is_digit(c: char) -> bool {
    '0' <= c && c <= '9'
}

/// The number that a digit writes.
pub open spec fn digit_value(c: char) -> nat {
    if is_digit(c) {
        (c as int - '0' as int) as nat
    } else {
        0
    }
}

/// The number that the first `n` digits of `s` write in base ten.
pub open spec fn digits_value(s: Seq<char>, n: int) -> nat
    decreases n,
{
    if n <= 0 {
        0
    } else {
        digits_value(s, n - 1) * 10 + digit_value(s[n - 1])
    }
}

/// Whether `s` holds digits only.
pub open spec fn all_digits(s: Seq<char>) -> bool {
    forall|i: int| 0 <= i < s.len() ==> is_digit(#[trigger] s[i])
}

/// The natural number that `s` writes: an optional `+`, then one digit or
/// more, and nothing else. The number may be of any length. `None` for any
/// other text.
pub open spec fn spec_number(s: Seq<char>) -> Option<nat> {
    let digits = if s.len() > 0 && s[0] == '+' {
        s.skip(1)
    } else {
        s
    };
    if digits.len() > 0 && all_digits(digits) {
        Some(digits_value(digits, digits.len() as int))
    } else {
        None
    }
}

/// The level of a number: up to 2 is level 1, 3 and 4 are level 2, 5 and
/// more are level 3.
pub open spec fn level_of_number(n: nat) -> u8 {
    if n <= 2 {
        1
    } else if n <= 4 {
        2
    } else {
        3
    }
}

/// The level of the number that `s` writes, or `None` where `s` writes
/// none.
pub open spec fn spec_number_level(s: Seq<char>) -> Option<u8> {
    match spec_number(s) {
        Some(n) => Some(level_of_number(n)),
        None => None,
    }
}

/// A number, or 5 in place of every number above 5: all of them are of the
/// same level.
pub open spec fn capped(n: nat) -> nat {
    if n > 5 {
        5
    } else {
        n
    }
}

/// The level of the number that the characters from `start` on write, or
/// `None` where they write none. A number of any length is read: only
/// whether it has passed 5 is kept of it, so nothing grows without bound.
#[verifier::loop_isolation(false)]
pub fn number_level_chars(v: &Vec<char>, start: usize) -> (r: Option<u8>)
    requires
        start <= v.len(),
    ensures
        r == spec_number_level(v@.skip(start as int)),
{
    let ghost s = v@.skip(start as int);
    let first: usize = if start < v.len() && v[start] == '+' {
        start + 1
    } else {
        start
    };
    let ghost digits = v@.skip(first as int);
    assert(digits == if s.len() > 0 && s[0] == '+' {
        s.skip(1)
    } else {
        s
    });
    if first == v.len() {
        return None;
    }
    let mut value: u32 = 0;
    let mut i: usize = first;
    while i < v.len()
        invariant
            first <= i <= v.len(),
            digits == v@.skip(first as int),
            forall|j: int| 0 <= j < i - first ==> is_digit(#[trigger] digits[j]),
            value == capped(digits_value(digits, i - first)),
        decreases v.len() - i,
    {
        let c = v[i];
        assert(digits[i - first] == c);
        if !(c >= '0' && c <= '9') {
            assert(!is_digit(digits[i - first]));
            return None;
        }
        let digit: u32 = c as u32 - '0' as u32;
        assert(digit == digit_value(c));
        let next: u32 = value * 10 + digit;
        value = if next > 5 {
            5
        } else {
            next
        };
        i += 1;
    }
    if value <= 2 {
        Some(1)
    } else if value <= 4 {
        Some(2)
    } else {
        Some(3)
    }
}

/// The prefix of a normalized difficulty text.
pub open spec fn hsk_prefix() -> Seq<char> {
    seq!['h', 's', 'k']
}

/// The level of a trimmed, lowercase difficulty text: that of the number
/// behind `hsk`, whatever its length. A text of any other form gives level
/// 2.
pub open spec fn spec_level_of_normalized(norm: Seq<char>) -> u8 {
    if spec_starts_with(norm, hsk_prefix()) {
        match spec_number_level(norm.skip(3)) {
            Some(level) => level,
            None => 2,
        }
    } else {
        2
    }
}

/// The level of a difficulty text: that of its trimmed, lowercase form.
pub open spec fn spec_target_level(difficulty: Seq<char>) -> u8 {
    spec_level_of_normalized(lowercase_of(spec_trim(difficulty)))
}

/// The level of a trimmed, lowercase difficulty text.
pub fn level_of_normalized(norm: &str) -> (level: u8)
    ensures
        level == spec_level_of_normalized(norm@),
        1 <= level <= 3,
{
    let v = to_chars(norm);
    let prefix: Vec<char> = vec!['h', 's', 'k'];
    assert(prefix@ == hsk_prefix());
    if matches_at(&v, &prefix, 0) {
        match number_level_chars(&v, 3) {
            Some(level) => level,
            None => 2,
        }
    } else {
        2
    }
}

/// The level of a difficulty text, from 1 (basic) to 3 (advanced). The text
/// is read without regard to case or to white space around it. Behind `hsk`
/// stands a number of any length: up to 2 gives level 1, 3 and 4 give level
/// 2, 5 and more give level 3. A text that is not `hsk` and a number gives
/// level 2.
pub fn difficulty_to_target_level(difficulty: &str) -> (level: u8)
    ensures
        level == spec_target_level(difficulty@),
        1 <= level <= 3,
{
    let trimmed = from_chars(&trim_chars(&to_chars(difficulty)));
    let norm = to_lowercase(trimmed.as_str());
    level_of_normalized(norm.as_str())
}

} // verus!
