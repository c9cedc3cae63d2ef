//! Two-step connective-pattern writing exercises for learners of Chinese.
//!
//! A challenge names two connective patterns, chained over a short scene of
//! three propositions. The library samples challenges from its catalogs,
//! renders the reference answer of a challenge, checks an item that a text
//! generator wrote for it, and scores a learner's free-text answer.
//!
//! - `catalog`: the patterns, chains and scenes.
//! - `sampler`, `difficulty`: from a difficulty to a sampled challenge.
//! - `coreplus`: the challenge, its reference answer, the strict check.
//! - `matcher`, `sentence`, `text`: structural expressions, sentences, text.
//! - `scoring`: the lenient scorer.
//! - `laws`, `shape`, `catalog_facts`, `text_lemmas`: what is proved of every
//!   challenge that the sampler can give.
//! - `domain`, `protocol`, `config`, `seeds`, `logic`, `pinyin`, `util`: the
//!   data and the local rules of the service around the exercises.

pub mod catalog;
pub mod catalog_facts;
pub mod config;
pub mod coreplus;
pub mod difficulty;
pub mod domain;
pub mod laws;
pub mod logic;
pub mod matcher;
pub mod pinyin;
pub mod protocol;
pub mod sampler;
pub mod scoring;
pub mod seeds;
pub mod sentence;
pub mod shape;
pub mod text;
pub mod text_lemmas;
pub mod util;
