//! Where challenges come from: the built-in seeds, the bank of the
//! configuration, the reply of a text generator, and the fallback of last
//! resort. Also a small built-in table of readings.

use std::collections::HashMap;
use vstd::prelude::*;
use vstd::std_specs::hash::group_hash_axioms;
use crate::config::ChallengeCfg;
use crate::domain::{Challenge, ChallengeKind, ChallengeSource, Rubric};
use crate::text::texts_of;

verus! {

broadcast use group_hash_axioms;

/// Trusted: `Uuid::new_v4` of the `uuid` crate, written out by its
/// `Display`. The identifier is random, so nothing is stated of it. The call
/// panics where the operating system has no randomness to give; no argument
/// decides that.
#[verifier::external_body]
fn fresh_id() -> (id: String) {
    uuid::Uuid::new_v4().to_string()
}

pub const SEED1_ID: &'static str = "c123";

pub const SEED1_DIFFICULTY: &'static str = "hsk3";

pub const SEED1_ZH: &'static str = "今天天气很好";

pub const SEED1_EN: &'static str = "The weather is great today.";

pub const SEED2_ID: &'static str = "c124";

pub const SEED2_DIFFICULTY: &'static str = "hsk2";

pub const SEED2_ZH: &'static str = "我想喝咖啡";

pub const SEED2_EN: &'static str = "I want to drink coffee.";

pub const FALLBACK_ZH: &'static str = "他是老师。";

pub const FALLBACK_EN: &'static str = "He is a teacher.";

/// Whether `c` is a built-in challenge with the given texts: a free-text
/// task that holds a seed sentence and its translation and nothing else.
pub open spec fn is_seed_of(
    c: Challenge,
    id: Seq<char>,
    difficulty: Seq<char>,
    zh: Seq<char>,
    en: Seq<char>,
) -> bool {
    &&& c.id@ == id
    &&& c.difficulty@ == difficulty
    &&& c.kind == ChallengeKind::FreeformZh
    &&& c.source == ChallengeSource::Seed
    &&& c.seed_zh@ == zh
    &&& c.seed_en@ == en
    &&& c.challenge_zh@.len() == 0
    &&& c.challenge_en@.len() == 0
    &&& c.summary_en@.len() == 0
    &&& c.instructions@.len() == 0
    &&& c.rubric is None
}

/// A built-in challenge with the given texts.
fn seed_of(id: String, difficulty: String, zh: &str, en: &str) -> (c: Challenge)
    ensures
        is_seed_of(c, id@, difficulty@, zh@, en@),
{
    Challenge {
        id,
        difficulty,
        kind: ChallengeKind::FreeformZh,
        source: ChallengeSource::Seed,
        seed_zh: zh.to_string(),
        seed_en: en.to_string(),
        challenge_zh: String::new(),
        challenge_en: String::new(),
        summary_en: String::new(),
        instructions: String::new(),
        rubric: None,
    }
}

/// The built-in challenges, which keep the service useful without any
/// configuration.
pub fn seed_challenges() -> (seeds: Vec<Challenge>)
    ensures
        seeds.len() == 2,
        is_seed_of(seeds[0], SEED1_ID@, SEED1_DIFFICULTY@, SEED1_ZH@, SEED1_EN@),
        is_seed_of(seeds[1], SEED2_ID@, SEED2_DIFFICULTY@, SEED2_ZH@, SEED2_EN@),
{
    let mut seeds: Vec<Challenge> = Vec::new();
    seeds.push(seed_of(SEED1_ID.to_string(), SEED1_DIFFICULTY.to_string(), SEED1_ZH, SEED1_EN));
    seeds.push(seed_of(SEED2_ID.to_string(), SEED2_DIFFICULTY.to_string(), SEED2_ZH, SEED2_EN));
    seeds
}

/// The fallback of last resort under a given identifier.
pub fn hard_fallback_with_id(id: String, difficulty: String) -> (c: Challenge)
    ensures
        is_seed_of(c, id@, difficulty@, FALLBACK_ZH@, FALLBACK_EN@),
{
    seed_of(id, difficulty, FALLBACK_ZH, FALLBACK_EN)
}

/// The fallback of last resort, for when every store is empty. Its
/// identifier is fresh and random.
pub fn hard_fallback_challenge(difficulty: String) -> (c: Challenge)
    ensures
        is_seed_of(c, c.id@, difficulty@, FALLBACK_ZH@, FALLBACK_EN@),
{
    hard_fallback_with_id(fresh_id(), difficulty)
}

/// Copies of a list of texts.
fn copy_texts(items: &Vec<String>) -> (r: Vec<String>)
    ensures
        texts_of(r@) == texts_of(items@),
{
    let mut r: Vec<String> = Vec::new();
    let mut k: usize = 0;
    while k < items.len()
        invariant
            k <= items.len(),
            texts_of(r@) == texts_of(items@).subrange(0, k as int),
        decreases items.len() - k,
    {
        let ghost before = texts_of(r@);
        r.push(items[k].clone());
        assert(texts_of(r@) =~= before.push(items@[k as int]@));
        k += 1;
    }
    assert(texts_of(items@).subrange(0, items.len() as int) == texts_of(items@));
    r
}

/// A copy of an optional list of texts.
fn copy_optional_texts(items: &Option<Vec<String>>) -> (r: Option<Vec<String>>)
    ensures
        match (r, *items) {
            (Some(copy), Some(list)) => texts_of(copy@) == texts_of(list@),
            (None, None) => true,
            _ => false,
        },
{
    match items {
        Some(list) => Some(copy_texts(list)),
        None => None,
    }
}

/// A copy of a rubric.
pub fn copy_rubric(rubric: &Rubric) -> (r: Rubric)
    ensures
        r@ == rubric@,
{
    Rubric {
        min_chars: rubric.min_chars,
        must_include: copy_optional_texts(&rubric.must_include),
        avoid: copy_optional_texts(&rubric.avoid),
        target_level: match &rubric.target_level {
            Some(level) => Some(level.clone()),
            None => None,
        },
    }
}

/// Whether `c` is the challenge of the entry `entry` of the bank under the
/// identifier `id`: a free-text task by the instructions and the rubric of
/// the entry.
pub open spec fn is_bank_challenge(c: Challenge, entry: ChallengeCfg, id: Seq<char>) -> bool {
    &&& c.id@ == id
    &&& c.difficulty@ == entry.difficulty@
    &&& c.kind == ChallengeKind::FreeformZh
    &&& c.source == ChallengeSource::LocalBank
    &&& c.seed_zh@.len() == 0
    &&& c.seed_en@.len() == 0
    &&& c.challenge_zh@.len() == 0
    &&& c.challenge_en@.len() == 0
    &&& c.summary_en@.len() == 0
    &&& entry.instructions matches Some(text) && c.instructions@ == text@
    &&& match (c.rubric, entry.rubric) {
        (Some(a), Some(b)) => a@ == b@,
        (None, None) => true,
        _ => false,
    }
}

/// Whether an entry of the bank can be used: it has instructions, and they
/// are not empty.
pub open spec fn entry_is_usable(entry: ChallengeCfg) -> bool {
    entry.instructions matches Some(text) && text@.len() > 0
}

/// The challenge of an entry of the bank under a given identifier, or
/// `None` where the entry cannot be used.
pub fn bank_challenge_with_id(entry: &ChallengeCfg, id: String) -> (r: Option<Challenge>)
    ensures
        r is Some <==> entry_is_usable(*entry),
        r matches Some(c) ==> is_bank_challenge(c, *entry, id@),
{
    let instructions = match &entry.instructions {
        Some(text) => {
            if text.as_str().is_empty() {
                return None;
            }
            text.clone()
        },
        None => {
            return None;
        },
    };
    Some(
        Challenge {
            id,
            difficulty: entry.difficulty.clone(),
            kind: ChallengeKind::FreeformZh,
            source: ChallengeSource::LocalBank,
            seed_zh: String::new(),
            seed_en: String::new(),
            challenge_zh: String::new(),
            challenge_en: String::new(),
            summary_en: String::new(),
            instructions,
            rubric: match &entry.rubric {
                Some(rubric) => Some(copy_rubric(rubric)),
                None => None,
            },
        },
    )
}

/// The challenge of an entry of the bank, or `None` where the entry cannot
/// be used. An entry without an identifier gets a fresh, random one.
pub fn bank_challenge(entry: &ChallengeCfg) -> (r: Option<Challenge>)
    ensures
        r is Some <==> entry_is_usable(*entry),
        r matches Some(c) ==> is_bank_challenge(c, *entry, c.id@) && (entry.id matches Some(id)
            ==> c.id@ == id@),
{
    let id = match &entry.id {
        Some(id) => id.clone(),
        None => fresh_id(),
    };
    bank_challenge_with_id(entry, id)
}

/// The texts that a generator writes for a challenge.
pub struct GeneratedTexts {
    pub seed_zh: String,
    pub seed_en: String,
    pub challenge_zh: String,
    pub challenge_en: String,
    pub summary_en: String,
}

/// Whether `c` is the generated challenge of the given texts.
pub open spec fn is_generated_challenge(
    c: Challenge,
    id: Seq<char>,
    difficulty: Seq<char>,
    texts: GeneratedTexts,
) -> bool {
    &&& c.id@ == id
    &&& c.difficulty@ == difficulty
    &&& c.kind == ChallengeKind::FreeformZh
    &&& c.source == ChallengeSource::Generated
    &&& c.seed_zh@ == texts.seed_zh@
    &&& c.seed_en@ == texts.seed_en@
    &&& c.challenge_zh@ == texts.challenge_zh@
    &&& c.challenge_en@ == texts.challenge_en@
    &&& c.summary_en@ == texts.summary_en@
    &&& c.instructions@.len() == 0
    &&& c.rubric is None
}

/// The challenge made of the texts of a generator, under a given
/// identifier.
pub fn generated_challenge_with_id(id: String, difficulty: &str, texts: GeneratedTexts) -> (c:
    Challenge)
    ensures
        is_generated_challenge(c, id@, difficulty@, texts),
{
    Challenge {
        id,
        difficulty: difficulty.to_string(),
        kind: ChallengeKind::FreeformZh,
        source: ChallengeSource::Generated,
        seed_zh: texts.seed_zh,
        seed_en: texts.seed_en,
        challenge_zh: texts.challenge_zh,
        challenge_en: texts.challenge_en,
        summary_en: texts.summary_en,
        instructions: String::new(),
        rubric: None,
    }
}

/// The challenge made of the texts of a generator. Its identifier is fresh
/// and random.
pub fn generated_challenge(difficulty: &str, texts: GeneratedTexts) -> (c: Challenge)
    ensures
        is_generated_challenge(c, c.id@, difficulty@, texts),
{
    generated_challenge_with_id(fresh_id(), difficulty, texts)
}

/// The number of characters in the table of readings.
pub const SEED_PINYIN_COUNT: usize = 30;

/// The characters of the table of readings.
pub const SEED_PINYIN_CHARS: [char; 30] = [
    '今', '天', '气', '很', '好',
    '我', '想', '喝', '咖', '啡',
    '你', '吃', '饭', '了', '吗',
    '他', '昨', '去', '北', '京',
    '们', '一', '起', '学', '习',
    '吧', '。', '，', '？', '！',
];

/// The reading of each character of `SEED_PINYIN_CHARS`, in the same order.
pub const SEED_PINYIN_READINGS: [&'static str; 30] = [
    "jīn", "tiān", "qì", "hěn", "hǎo",
    "wǒ", "xiǎng", "hē", "kā", "fēi",
    "nǐ", "chī", "fàn", "le", "ma",
    "tā", "zuó", "qù", "běi", "jīng",
    "men", "yī", "qǐ", "xué", "xí",
    "ba", ".", ",", "?", "!",
];

/// The table of readings made of its first `n` entries, keyed by the code
/// point of the character.
pub open spec fn seed_pinyin_upto(n: int) -> Map<u32, &'static str>
    decreases n,
{
    if n <= 0 {
        Map::empty()
    } else {
        seed_pinyin_upto(n - 1).insert(SEED_PINYIN_CHARS[n - 1] as u32, SEED_PINYIN_READINGS[n - 1])
    }
}

/// A small table from a character, given by its code point, to its reading
/// with tone marks. It serves where no other source of readings is at hand.
/// The key is the code point as a number, a key of which the contents of the
/// table can be stated; each character has one code point and each code point
/// of the table one character.
pub fn seed_pinyin_map() -> (map: HashMap<u32, &'static str>)
    ensures
        map@ == seed_pinyin_upto(SEED_PINYIN_COUNT as int),
{
    let mut map: HashMap<u32, &'static str> = HashMap::new();
    let mut i: usize = 0;
    while i < SEED_PINYIN_COUNT
        invariant
            i <= SEED_PINYIN_COUNT,
            map@ == seed_pinyin_upto(i as int),
        decreases SEED_PINYIN_COUNT - i,
    {
        map.insert(SEED_PINYIN_CHARS[i] as u32, SEED_PINYIN_READINGS[i]);
        i += 1;
    }
    map
}

} // verus!
