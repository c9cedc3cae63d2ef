//! Domain models: challenge kinds and sources, the rubric, and the challenge
//! itself.

use vstd::prelude::*;
use crate::text::texts_of;

verus! {

/// What kind of challenge is presented to the learner.
#[derive(Clone, Copy, Debug, PartialEq, Eq)]
pub enum ChallengeKind {
    /// A free-text task, driven by instructions or by a seed and a challenge.
    FreeformZh,
}

impl Default for ChallengeKind {
    fn default() -> (kind: Self)
        ensures
            kind == ChallengeKind::FreeformZh,
    {
        ChallengeKind::FreeformZh
    }
}

/// Where a challenge came from.
#[derive(Clone, Copy, Debug, PartialEq, Eq, Hash)]
pub enum ChallengeSource {
    /// From a bank that the operator provided.
    LocalBank,
    /// Written by a text generator and kept in memory.
    Generated,
    /// One of the built-in seeds.
    Seed,
}

/// An optional rubric for grading a free-text task.
#[derive(Clone, Debug)]
pub struct Rubric {
    pub min_chars: Option<usize>,
    pub must_include: Option<Vec<String>>,
    pub avoid: Option<Vec<String>>,
    pub target_level: Option<String>,
}

/// What a rubric holds.
pub struct RubricView {
    pub min_chars: Option<usize>,
    pub must_include: Option<Seq<Seq<char>>>,
    pub avoid: Option<Seq<Seq<char>>>,
    pub target_level: Option<Seq<char>>,
}

impl View for Rubric {
    type V = RubricView;

    open spec fn view(&self) -> RubricView {
        RubricView {
            min_chars: self.min_chars,
            must_include: match self.must_include {
                Some(words) => Some(texts_of(words@)),
                None => None,
            },
            avoid: match self.avoid {
                Some(words) => Some(texts_of(words@)),
                None => None,
            },
            target_level: match self.target_level {
                Some(level) => Some(level@),
                None => None,
            },
        }
    }
}

impl Default for Rubric {
    fn default() -> (rubric: Self)
        ensures
            rubric.min_chars is None,
            rubric.must_include is None,
            rubric.avoid is None,
            rubric.target_level is None,
    {
        Rubric { min_chars: None, must_include: None, avoid: None, target_level: None }
    }
}

/// A challenge as it is kept in memory.
#[derive(Clone, Debug)]
pub struct Challenge {
    pub id: String,
    /// Free-form, such as `hsk2` or `hsk3`.
    pub difficulty: String,
    pub kind: ChallengeKind,
    pub source: ChallengeSource,
    pub seed_zh: String,
    pub seed_en: String,
    pub challenge_zh: String,
    pub challenge_en: String,
    pub summary_en: String,
    pub instructions: String,
    pub rubric: Option<Rubric>,
}

} // verus!
