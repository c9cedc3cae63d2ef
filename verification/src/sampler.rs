//! The sampler: draws a chain, a pattern for each of its two steps and a
//! scene, until a draw passes every gate or the budget of tries is spent.

use rand::seq::SliceRandom;
use vstd::prelude::*;
use crate::catalog::{
    chain_at,
    chain_view,
    pattern_at,
    pattern_view,
    patterns_for_relation,
    lemma_relation_rows,
    relation_rows,
    rows_of,
    scene_at,
    scene_view,
    ChainPatternDef,
    PatternDef,
    PatternView,
    CHAIN_COUNT,
    LEVEL2_PLUS_TOKENS,
    LEVEL3_PLUS_TOKENS,
    PATTERN_COUNT,
    PATTERN_LEVELS,
    SCENES,
    SCENE_COUNT,
};
use crate::coreplus::{
    any_marker_in,
    contains_any,
    CorePlusProps,
    CorePlusSpec,
    CorePlusSpecStep,
    PropsView,
    SpecView,
    StepView,
    LANGUAGE,
    MODE,
    VERSION,
};
use crate::difficulty::{difficulty_to_target_level, spec_target_level};
use crate::text::{
    contains_chars,
    push_str,
    same_text,
    spec_contains,
    strs_of,
    texts_of,
    to_chars,
};

verus! {

/// Trusted: the type `rand::rngs::ThreadRng`, the handle of the random
/// generator of the running thread. Nothing is stated of its state.
#[verifier::external_type_specification]
#[verifier::external_body]
pub struct ExThreadRng(rand::rngs::ThreadRng);

/// Trusted: `rand::thread_rng`, which hands out the generator of the
/// running thread. Nothing is stated of the generator. The call panics where
/// the operating system has no randomness to seed the generator with; no
/// argument decides that.
pub assume_specification[ rand::thread_rng ]() -> rand::rngs::ThreadRng
;

/// Trusted: `SliceRandom::choose` of `rand` on the slice of `rows`, with the
/// row that it points to copied out. The draw is random, so the contract says
/// only what holds of every draw: there is none exactly when the list is
/// empty, and a row that is drawn is one of the list. A draw at which the
/// generator has to seed itself anew panics where the operating system has no
/// randomness to give; no argument decides that.
#[verifier::external_body]
fn choose_row(rng: &mut rand::rngs::ThreadRng, rows: &Vec<usize>) -> (r: Option<usize>)
    ensures
        r is None <==> rows.len() == 0,
        r matches Some(row) ==> rows@.contains(row),
{
    rows.as_slice().choose(rng).copied()
}

pub const MSG_NO_CHAINS: &'static str = "No chain patterns configured";

pub const MSG_EXHAUSTED: &'static str =
    "SAMPLE_COREPLUSCORE_SPEC: failed to sample a valid SPEC within max_tries";

pub const SCHEMA_REASON_OUTCOME: &'static str = "reason_outcome_followup";

pub const SCHEMA_CONDITION_OUTCOME: &'static str = "condition_outcome_followup";

pub const SCHEMA_TIME_EVENT: &'static str = "time_event_outcome";

pub const SCHEMA_TWO_FACTS: &'static str = "fact1_fact2_inference";

pub const SCHEMA_ACTION_GOAL: &'static str = "action_goal_effect";

pub const SCHEMA_EXPECTED_SURPRISE: &'static str = "condition_expected_surprise";

/// The scene schemas open to the basic level.
pub open spec fn is_basic_schema(schema: Seq<char>) -> bool {
    ||| schema == SCHEMA_REASON_OUTCOME@
    ||| schema == SCHEMA_CONDITION_OUTCOME@
    ||| schema == SCHEMA_TIME_EVENT@
    ||| schema == SCHEMA_TWO_FACTS@
    ||| schema == SCHEMA_ACTION_GOAL@
}

/// The chain gate. Level 1 takes the basic schemas only, level 2 all but one
/// schema, level 3 all.
pub open spec fn chain_allowed(schema: Seq<char>, level: u8) -> bool {
    if level <= 1 {
        is_basic_schema(schema)
    } else if level == 2 {
        schema != SCHEMA_EXPECTED_SURPRISE@
    } else {
        true
    }
}

/// Whether a chain is open to a level.
pub fn chain_matches_difficulty(chain: &ChainPatternDef, target_level_max: u8) -> (r: bool)
    ensures
        r == chain_allowed(chain@.scene_schema, target_level_max),
{
    if target_level_max <= 1 {
        return same_text(chain.scene_schema, SCHEMA_REASON_OUTCOME) || same_text(
            chain.scene_schema,
            SCHEMA_CONDITION_OUTCOME,
        ) || same_text(chain.scene_schema, SCHEMA_TIME_EVENT) || same_text(
            chain.scene_schema,
            SCHEMA_TWO_FACTS,
        ) || same_text(chain.scene_schema, SCHEMA_ACTION_GOAL);
    }
    if target_level_max == 2 {
        return !same_text(chain.scene_schema, SCHEMA_EXPECTED_SURPRISE);
    }
    true
}

/// Whether one of `tokens` stands in `text`.
pub open spec fn any_token_in(text: Seq<char>, tokens: Seq<Seq<char>>) -> bool {
    exists|k: int| 0 <= k < tokens.len() && spec_contains(text, #[trigger] tokens[k])
}

/// The scene gate. Level 1 takes slots of at most 12 characters, 32 in all,
/// and none of the vocabulary of the two lists. Level 2 takes slots of at
/// most 16 characters, 44 in all, and none of the advanced vocabulary. Level
/// 3 takes every scene. The vocabulary is looked for in the three slots
/// written one after the other.
pub open spec fn scene_allowed(p1: Seq<char>, p2: Seq<char>, p3: Seq<char>, level: u8) -> bool {
    let joined = p1 + p2 + p3;
    if level <= 1 {
        &&& p1.len() <= 12
        &&& p2.len() <= 12
        &&& p3.len() <= 12
        &&& p1.len() + p2.len() + p3.len() <= 32
        &&& !any_token_in(joined, strs_of(LEVEL3_PLUS_TOKENS@))
        &&& !any_token_in(joined, strs_of(LEVEL2_PLUS_TOKENS@))
    } else if level == 2 {
        &&& p1.len() <= 16
        &&& p2.len() <= 16
        &&& p3.len() <= 16
        &&& p1.len() + p2.len() + p3.len() <= 44
        &&& !any_token_in(joined, strs_of(LEVEL3_PLUS_TOKENS@))
    } else {
        true
    }
}

/// Whether one of `tokens` stands in `text`.
fn any_token_in_chars(text: &Vec<char>, tokens: &[&'static str]) -> (r: bool)
    ensures
        r == any_token_in(text@, strs_of(tokens@)),
{
    let mut k: usize = 0;
    while k < tokens.len()
        invariant
            k <= tokens.len(),
            forall|j: int| 0 <= j < k ==> !spec_contains(text@, #[trigger] strs_of(tokens@)[j]),
        decreases tokens.len() - k,
    {
        let token = to_chars(tokens[k]);
        assert(strs_of(tokens@)[k as int] == token@);
        if contains_chars(text, &token) {
            return true;
        }
        k += 1;
    }
    false
}

/// Whether a scene, given by its three slots, is open to a level.
pub fn scene_matches_difficulty(p1: &str, p2: &str, p3: &str, target_level_max: u8) -> (r: bool)
    ensures
        r == scene_allowed(p1@, p2@, p3@, target_level_max),
{
    if target_level_max > 2 {
        return true;
    }
    let mut joined = to_chars(p1);
    let c1 = joined.len();
    let c2 = p2.unicode_len();
    let c3 = p3.unicode_len();
    push_str(&mut joined, p2);
    push_str(&mut joined, p3);
    assert(joined@ == p1@ + p2@ + p3@);
    if target_level_max <= 1 {
        if c1 > 12 || c2 > 12 || c3 > 12 || c1 + c2 + c3 > 32 {
            return false;
        }
        if any_token_in_chars(&joined, LEVEL3_PLUS_TOKENS.as_slice()) {
            return false;
        }
        if any_token_in_chars(&joined, LEVEL2_PLUS_TOKENS.as_slice()) {
            return false;
        }
    } else {
        if c1 > 16 || c2 > 16 || c3 > 16 || c1 + c2 + c3 > 44 {
            return false;
        }
        if any_token_in_chars(&joined, LEVEL3_PLUS_TOKENS.as_slice()) {
            return false;
        }
    }
    true
}

/// The step that copies a pattern under a relation.
pub open spec fn step_of(relation: Seq<char>, p: PatternView) -> StepView {
    StepView {
        relation,
        pattern_id: p.id,
        pattern_tpl: p.tpl,
        markers_zh: p.markers_zh,
        kind: p.kind,
        level: p.level,
        check_regex: p.check_regex,
        strong_markers: p.strong_markers,
        weak_markers: p.weak_markers,
    }
}

/// Owned copies of a list of texts.
fn owned_texts(items: &Vec<&'static str>) -> (r: Vec<String>)
    ensures
        texts_of(r@) == strs_of(items@),
{
    let mut r: Vec<String> = Vec::new();
    let mut k: usize = 0;
    while k < items.len()
        invariant
            k <= items.len(),
            texts_of(r@) == strs_of(items@).subrange(0, k as int),
        decreases items.len() - k,
    {
        let ghost before = texts_of(r@);
        let item = items[k].to_string();
        r.push(item);
        assert(texts_of(r@) =~= before.push(items@[k as int]@));
        k += 1;
    }
    assert(strs_of(items@).subrange(0, items.len() as int) == strs_of(items@));
    r
}

/// The step that copies the pattern `p` under `relation`.
pub fn to_spec_step(relation: &str, p: &PatternDef) -> (step: CorePlusSpecStep)
    ensures
        step@ == step_of(relation@, p@),
{
    CorePlusSpecStep {
        relation: relation.to_string(),
        pattern_id: p.id.to_string(),
        pattern_tpl: p.tpl.to_string(),
        markers_zh: p.markers_zh.to_string(),
        kind: p.kind.to_string(),
        level: p.level,
        check_regex: p.check_regex.to_string(),
        strong_markers: owned_texts(&p.strong_markers),
        weak_markers: owned_texts(&p.weak_markers),
    }
}

/// Whether the pattern in row `row` can take a step of `relation` at
/// `level`.
pub open spec fn fits_step(row: int, relation: Seq<char>, level: u8) -> bool {
    &&& 0 <= row < PATTERN_COUNT
    &&& pattern_view(row).relation == relation
    &&& pattern_view(row).level <= level
}

/// Whether a draw passes every gate: the chain is open to the level; each
/// pattern is of the relation of its step and of a level up to `level`; the
/// scene is of the schema of the chain and open to the level; and the seed,
/// which is the first slot of the scene, holds no token that either pattern
/// bans.
pub open spec fn draw_accepted(level: u8, chain: int, step1: int, step2: int, scene: int) -> bool {
    &&& 0 <= chain < CHAIN_COUNT
    &&& 0 <= scene < SCENE_COUNT
    &&& chain_allowed(chain_view(chain).scene_schema, level)
    &&& fits_step(step1, chain_view(chain).step1, level)
    &&& fits_step(step2, chain_view(chain).step2, level)
    &&& scene_view(scene).schema == chain_view(chain).scene_schema
    &&& scene_allowed(scene_view(scene).p1, scene_view(scene).p2, scene_view(scene).p3, level)
    &&& !any_marker_in(scene_view(scene).p1, pattern_view(step1).seed_banned)
    &&& !any_marker_in(scene_view(scene).p1, pattern_view(step2).seed_banned)
}

/// The challenge put together from a chain, two patterns and a scene.
pub open spec fn assembled(chain: int, step1: int, step2: int, scene: int) -> SpecView {
    SpecView {
        version: VERSION@,
        language: LANGUAGE@,
        mode: MODE@,
        chain_id: chain_view(chain).id,
        chain_step1_relation: chain_view(chain).step1,
        chain_step2_relation: chain_view(chain).step2,
        scene_id: scene_view(scene).id,
        scene_schema: scene_view(scene).schema,
        step1: step_of(chain_view(chain).step1, pattern_view(step1)),
        step2: step_of(chain_view(chain).step2, pattern_view(step2)),
        seed: scene_view(scene).p1,
        props: PropsView {
            p1: scene_view(scene).p1,
            p2: scene_view(scene).p2,
            p3: scene_view(scene).p3,
        },
    }
}

/// Whether the sampler can give `spec` at `level`: some draw that passes
/// every gate at that level is put together to it.
pub open spec fn producible(spec: SpecView, level: u8) -> bool {
    exists|chain: int, step1: int, step2: int, scene: int|
        draw_accepted(level, chain, step1, step2, scene) && spec == #[trigger] assembled(
            chain,
            step1,
            step2,
            scene,
        )
}

/// The challenge of a draw, given by the rows of its chain, its two
/// patterns and its scene: `Some` exactly when the draw passes every gate at
/// `level`.
pub fn spec_from_draw(level: u8, chain: usize, step1: usize, step2: usize, scene: usize) -> (r:
    Option<CorePlusSpec>)
    ensures
        r is Some <==> draw_accepted(level, chain as int, step1 as int, step2 as int, scene as int),
        r matches Some(spec) ==> spec@ == assembled(
            chain as int,
            step1 as int,
            step2 as int,
            scene as int,
        ),
{
    if chain >= CHAIN_COUNT || step1 >= PATTERN_COUNT || step2 >= PATTERN_COUNT || scene
        >= SCENE_COUNT {
        return None;
    }
    let c = chain_at(chain);
    let first = pattern_at(step1);
    let second = pattern_at(step2);
    let s = scene_at(scene);
    if !chain_matches_difficulty(&c, level) {
        return None;
    }
    if !same_text(first.relation, c.step1) || first.level > level {
        return None;
    }
    if !same_text(second.relation, c.step2) || second.level > level {
        return None;
    }
    if !same_text(s.schema, c.scene_schema) {
        return None;
    }
    if !scene_matches_difficulty(s.slots[0], s.slots[1], s.slots[2], level) {
        return None;
    }
    if contains_any(s.slots[0], &first.seed_banned) || contains_any(
        s.slots[0],
        &second.seed_banned,
    ) {
        return None;
    }
    let spec = CorePlusSpec {
        version: VERSION.to_string(),
        language: LANGUAGE.to_string(),
        mode: MODE.to_string(),
        chain_id: c.id.to_string(),
        chain_step1_relation: c.step1.to_string(),
        chain_step2_relation: c.step2.to_string(),
        scene_id: s.id.to_string(),
        scene_schema: s.schema.to_string(),
        step1: to_spec_step(c.step1, &first),
        step2: to_spec_step(c.step2, &second),
        seed: s.slots[0].to_string(),
        props: CorePlusProps {
            p1: s.slots[0].to_string(),
            p2: s.slots[1].to_string(),
            p3: s.slots[2].to_string(),
        },
    };
    Some(spec)
}

/// The rows of the patterns that can take a step of `relation` at `level`:
/// those and no others, each below `PATTERN_COUNT`.
pub fn step_pool(relation: &str, level: u8) -> (pool: Vec<usize>)
    ensures
        forall|k: int| 0 <= k < pool.len() ==> fits_step(#[trigger] pool[k] as int, relation@, level),
        forall|row: int|
            fits_step(row, relation@, level) ==> exists|k: int|
                0 <= k < pool.len() && #[trigger] pool[k] == row,
{
    let rows = patterns_for_relation(relation);
    proof {
        lemma_relation_rows(relation@, PATTERN_COUNT as int);
    }
    let ghost all = relation_rows(relation@, PATTERN_COUNT as int);
    let mut pool: Vec<usize> = Vec::new();
    let mut i: usize = 0;
    while i < rows.len()
        invariant
            i <= rows.len(),
            all == rows_of(rows@),
            forall|k: int|
                0 <= k < all.len() ==> 0 <= #[trigger] all[k] < PATTERN_COUNT && pattern_view(
                    all[k],
                ).relation == relation@,
            forall|k: int|
                0 <= k < pool.len() ==> fits_step(#[trigger] pool[k] as int, relation@, level),
            forall|j: int|
                0 <= j < i && fits_step(#[trigger] all[j], relation@, level) ==> exists|k: int|
                    0 <= k < pool.len() && #[trigger] pool[k] == all[j],
        decreases rows.len() - i,
    {
        let row = rows[i];
        assert(all[i as int] == row);
        let ghost before = pool@;
        if PATTERN_LEVELS[row] <= level {
            pool.push(row);
            assert(forall|k: int| 0 <= k < before.len() ==> pool[k] == before[k]);
            assert(pool[pool.len() - 1] == row);
        }
        i += 1;
    }
    assert forall|row: int| fits_step(row, relation@, level) implies exists|k: int|
        0 <= k < pool.len() && #[trigger] pool[k] == row by {
        assert(all.contains(row));
        let j = choose|j: int| 0 <= j < all.len() && all[j] == row;
        assert(fits_step(all[j], relation@, level));
    }
    pool
}

/// The rows of the scenes of the schema `schema`: those and no others, each
/// below `SCENE_COUNT`.
pub fn scene_pool(schema: &str) -> (pool: Vec<usize>)
    ensures
        forall|k: int|
            0 <= k < pool.len() ==> (#[trigger] pool[k]) < SCENE_COUNT && scene_view(
                pool[k] as int,
            ).schema == schema@,
        forall|row: int|
            0 <= row < SCENE_COUNT && scene_view(row).schema == schema@ ==> exists|k: int|
                0 <= k < pool.len() && #[trigger] pool[k] == row,
{
    let mut pool: Vec<usize> = Vec::new();
    let mut i: usize = 0;
    while i < SCENE_COUNT
        invariant
            i <= SCENE_COUNT,
            forall|k: int|
                0 <= k < pool.len() ==> (#[trigger] pool[k]) < SCENE_COUNT && scene_view(
                    pool[k] as int,
                ).schema == schema@,
            forall|row: int|
                0 <= row < i && scene_view(row).schema == schema@ ==> exists|k: int|
                    0 <= k < pool.len() && #[trigger] pool[k] == row,
        decreases SCENE_COUNT - i,
    {
        let ghost before = pool@;
        if same_text(SCENES[i][1], schema) {
            pool.push(i);
            assert(forall|k: int| 0 <= k < before.len() ==> pool[k] == before[k]);
            assert(pool[pool.len() - 1] == i);
        }
        i += 1;
    }
    pool
}

/// The rows of all chains, in the order of the table.
fn chain_rows() -> (rows: Vec<usize>)
    ensures
        rows.len() == CHAIN_COUNT,
        forall|k: int| 0 <= k < rows.len() ==> #[trigger] rows[k] == k,
{
    let mut rows: Vec<usize> = Vec::new();
    let mut i: usize = 0;
    while i < CHAIN_COUNT
        invariant
            i <= CHAIN_COUNT,
            rows.len() == i,
            forall|k: int| 0 <= k < rows.len() ==> #[trigger] rows[k] == k,
        decreases CHAIN_COUNT - i,
    {
        rows.push(i);
        i += 1;
    }
    rows
}

/// Samples a challenge for a difficulty, with at most `max_tries` draws.
///
/// Each try draws a chain, then a pattern for each step among those that fit
/// the step at the level of the difficulty, then a scene of the schema of the
/// chain. The first draw that passes every gate is put together and
/// returned. When the tries are spent the sampler gives up; the caller may
/// ask again.
pub fn sample_core_plus_core_spec(difficulty: &str, max_tries: usize) -> (r: Result<
    CorePlusSpec,
    String,
>)
    ensures
        match r {
            Ok(spec) => producible(spec@, spec_target_level(difficulty@)),
            Err(e) => e@ == MSG_EXHAUSTED@,
        },
        max_tries == 0 ==> r is Err,
{
    let mut rng = rand::thread_rng();
    let level = difficulty_to_target_level(difficulty);
    let chains = chain_rows();
    let mut tries: usize = 0;
    while tries < max_tries
        invariant
            tries <= max_tries,
            level == spec_target_level(difficulty@),
            chains.len() == CHAIN_COUNT,
            forall|k: int| 0 <= k < chains.len() ==> #[trigger] chains[k] == k,
        decreases max_tries - tries,
    {
        tries += 1;
        let chain_row = match choose_row(&mut rng, &chains) {
            Some(row) => row,
            None => {
                return Err(MSG_NO_CHAINS.to_string());
            },
        };
        let chain = chain_at(chain_row);
        if !chain_matches_difficulty(&chain, level) {
            continue ;
        }
        let step1_pool = step_pool(chain.step1, level);
        let step2_pool = step_pool(chain.step2, level);
        if step1_pool.len() == 0 || step2_pool.len() == 0 {
            continue ;
        }
        let step1 = match choose_row(&mut rng, &step1_pool) {
            Some(row) => row,
            None => step1_pool[0],
        };
        let step2 = match choose_row(&mut rng, &step2_pool) {
            Some(row) => row,
            None => step2_pool[0],
        };
        let scenes = scene_pool(chain.scene_schema);
        if scenes.len() == 0 {
            continue ;
        }
        let scene = match choose_row(&mut rng, &scenes) {
            Some(row) => row,
            None => scenes[0],
        };
        match spec_from_draw(level, chain_row, step1, step2, scene) {
            Some(spec) => {
                return Ok(spec);
            },
            None => {},
        }
    }
    Err(MSG_EXHAUSTED.to_string())
}

/// What holds of every challenge that the sampler gives: the pattern of
/// each step is of a level up to that of the request, the seed is the first
/// proposition, the scene passes the scene gate, and the seed holds no token
/// that either pattern bans.
pub proof fn lemma_producible_invariant(spec: SpecView, level: u8)
    requires
        producible(spec, level),
    ensures
        spec.step1.level <= level,
        spec.step2.level <= level,
        spec.seed == spec.props.p1,
        chain_allowed(spec.scene_schema, level),
        scene_allowed(spec.props.p1, spec.props.p2, spec.props.p3, level),
        exists|step1: int, step2: int|
            0 <= step1 < PATTERN_COUNT && 0 <= step2 < PATTERN_COUNT && spec.step1 == step_of(
                spec.chain_step1_relation,
                pattern_view(step1),
            ) && spec.step2 == step_of(spec.chain_step2_relation, pattern_view(step2))
                && !any_marker_in(spec.seed, pattern_view(step1).seed_banned) && !any_marker_in(
                spec.seed,
                pattern_view(step2).seed_banned,
            ),
{
    let (chain, step1, step2, scene) = choose|chain: int, step1: int, step2: int, scene: int|
        draw_accepted(level, chain, step1, step2, scene) && spec == #[trigger] assembled(
            chain,
            step1,
            step2,
            scene,
        );
    assert(0 <= step1 < PATTERN_COUNT && 0 <= step2 < PATTERN_COUNT && spec.step1 == step_of(
        spec.chain_step1_relation,
        pattern_view(step1),
    ) && spec.step2 == step_of(spec.chain_step2_relation, pattern_view(step2)) && !any_marker_in(
        spec.seed,
        pattern_view(step1).seed_banned,
    ) && !any_marker_in(spec.seed, pattern_view(step2).seed_banned));
}

/// What a level takes, every higher level takes too: a challenge that the
/// sampler can give at a level, it can give at every higher level.
pub proof fn lemma_higher_level_takes_more(spec: SpecView, lower: u8, higher: u8)
    requires
        producible(spec, lower),
        lower <= higher,
    ensures
        producible(spec, higher),
{
    let (chain, step1, step2, scene) = choose|chain: int, step1: int, step2: int, scene: int|
        draw_accepted(lower, chain, step1, step2, scene) && spec == #[trigger] assembled(
            chain,
            step1,
            step2,
            scene,
        );
    let schema = chain_view(chain).scene_schema;
    assert(chain_allowed(schema, higher)) by {
        reveal_strlit("reason_outcome_followup");
        reveal_strlit("condition_outcome_followup");
        reveal_strlit("time_event_outcome");
        reveal_strlit("fact1_fact2_inference");
        reveal_strlit("action_goal_effect");
        reveal_strlit("condition_expected_surprise");
        if is_basic_schema(schema) {
            assert(schema.len() != SCHEMA_EXPECTED_SURPRISE@.len());
        }
    }
    assert(draw_accepted(higher, chain, step1, step2, scene));
}

/// At the basic level a sampled scene stays simple: no slot is longer than
/// 12 characters, and the three slots hold none of the vocabulary kept for
/// the levels above.
pub proof fn lemma_basic_level_stays_simple(spec: SpecView, level: u8)
    requires
        producible(spec, level),
        level <= 1,
    ensures
        spec.props.p1.len() <= 12,
        spec.props.p2.len() <= 12,
        spec.props.p3.len() <= 12,
        !any_token_in(
            spec.props.p1 + spec.props.p2 + spec.props.p3,
            strs_of(LEVEL2_PLUS_TOKENS@),
        ),
        !any_token_in(
            spec.props.p1 + spec.props.p2 + spec.props.p3,
            strs_of(LEVEL3_PLUS_TOKENS@),
        ),
{
    lemma_producible_invariant(spec, level);
}

} // verus!
