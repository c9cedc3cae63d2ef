//! The structural matcher.
//!
//! A structural expression is made of an optional `^` at its start, an
//! optional `$` at its end, literal chunks, and the wildcard `.+` between
//! them. The matcher scans the text once from left to right: each literal
//! chunk is looked for at or after the place where the chunk before it ended,
//! and the first place found is taken. It never goes back.

use vstd::prelude::*;
use crate::text::{
    copy_range,
    find_chars,
    lemma_find_is_first,
    matches_at,
    occurs_at,
    spec_find,
    spec_split,
    spec_trim,
    split_chars,
    to_chars,
    trim_chars,
    views_of,
};

verus! {

/// The wildcard token, `.+`.
pub open spec fn wildcard() -> Seq<char> {
    seq!['.', '+']
}

/// Whether the trimmed expression begins with `^`.
pub open spec fn anchored_at_start(pattern: Seq<char>) -> bool {
    let p = spec_trim(pattern);
    p.len() > 0 && p[0] == '^'
}

/// Whether the trimmed expression ends with `$`.
pub open spec fn anchored_at_end(pattern: Seq<char>) -> bool {
    let p = spec_trim(pattern);
    p.len() > 0 && p.last() == '$'
}

/// The expression without its white space at both ends and without its
/// anchors.
pub open spec fn pattern_body(pattern: Seq<char>) -> Seq<char> {
    let trimmed = spec_trim(pattern);
    let rest = if anchored_at_start(pattern) {
        trimmed.skip(1)
    } else {
        trimmed
    };
    if anchored_at_end(pattern) && rest.len() > 0 {
        rest.drop_last()
    } else {
        rest
    }
}

/// Whether `s` begins with `prefix`.
pub open spec fn spec_starts_with(s: Seq<char>, prefix: Seq<char>) -> bool {
    occurs_at(s, prefix, 0)
}

/// Whether `s` ends with `suffix`.
pub open spec fn spec_ends_with(s: Seq<char>, suffix: Seq<char>) -> bool {
    occurs_at(s, suffix, s.len() - suffix.len())
}

/// The chunks of the expression between its wildcards, the empty ones too.
pub open spec fn pattern_chunks(pattern: Seq<char>) -> Seq<Seq<char>> {
    spec_split(pattern_body(pattern), wildcard())
}

/// Whether the first literal chunk has to stand at the very start of the
/// text: the expression is anchored there and does not begin with a wildcard.
pub open spec fn pins_first_chunk(pattern: Seq<char>) -> bool {
    anchored_at_start(pattern) && !spec_starts_with(pattern_body(pattern), wildcard())
}

/// Whether the last literal chunk has to end the text: the expression is
/// anchored there and does not end with a wildcard.
pub open spec fn pins_last_chunk(pattern: Seq<char>) -> bool {
    anchored_at_end(pattern) && !spec_ends_with(pattern_body(pattern), wildcard())
}

/// Whether every chunk is empty.
pub open spec fn all_chunks_empty(chunks: Seq<Seq<char>>) -> bool {
    forall|k: int| 0 <= k < chunks.len() ==> (#[trigger] chunks[k]).len() == 0
}

/// The scan from chunk `k` on, with the cursor at `cursor`. An empty chunk is
/// passed over. A pinned chunk has to stand at the cursor; any other is taken
/// at the first place at or after the cursor where it stands. The result is
/// the place where the last chunk ended, or `None` if a chunk was not found.
pub open spec fn scan_chunks(
    text: Seq<char>,
    chunks: Seq<Seq<char>>,
    k: int,
    cursor: int,
    pinned: bool,
) -> Option<int>
    decreases chunks.len() - k,
{
    if k < 0 || k >= chunks.len() {
        Some(cursor)
    } else if chunks[k].len() == 0 {
        scan_chunks(text, chunks, k + 1, cursor, pinned)
    } else if pinned {
        if occurs_at(text, chunks[k], cursor) {
            scan_chunks(text, chunks, k + 1, cursor + chunks[k].len(), false)
        } else {
            None
        }
    } else {
        match spec_find(text, chunks[k], cursor) {
            Some(i) => scan_chunks(text, chunks, k + 1, i + chunks[k].len(), false),
            None => None,
        }
    }
}

/// Whether `text` satisfies the structural expression `pattern`.
///
/// An expression without any literal chunk accepts every text but the empty
/// one. Otherwise the chunks have to be found in order by the scan, and where
/// the last chunk is pinned the scan has to end where the text ends.
pub open spec fn spec_structural_match(pattern: Seq<char>, text: Seq<char>) -> bool {
    let chunks = pattern_chunks(pattern);
    if all_chunks_empty(chunks) {
        text.len() > 0
    } else {
        match scan_chunks(text, chunks, 0, 0, pins_first_chunk(pattern)) {
            Some(end) => pins_last_chunk(pattern) ==> end == text.len(),
            None => false,
        }
    }
}

/// Whether `text` satisfies the structural expression held in `pattern`,
/// both given as characters.
pub fn structural_match_chars(pattern: &Vec<char>, text: &Vec<char>) -> (r: bool)
    ensures
        r == spec_structural_match(pattern@, text@),
{
    let p = trim_chars(pattern);
    let anchored_start = p.len() > 0 && p[0] == '^';
    let anchored_end = p.len() > 0 && p[p.len() - 1] == '$';
    let lo: usize = if anchored_start {
        1
    } else {
        0
    };
    let hi: usize = if anchored_end && p.len() - lo > 0 {
        p.len() - 1
    } else {
        p.len()
    };
    let body = copy_range(&p, lo, hi);
    assert(body@ == pattern_body(pattern@));
    let wild: Vec<char> = vec!['.', '+'];
    assert(wild@ == wildcard());
    let starts_with_wild = matches_at(&body, &wild, 0);
    let ends_with_wild = body.len() >= 2 && matches_at(&body, &wild, body.len() - 2);
    let parts = split_chars(&body, &wild);
    let ghost chunks = views_of(parts@);
    assert(chunks == pattern_chunks(pattern@));

    let mut all_empty = true;
    let mut n: usize = 0;
    while n < parts.len()
        invariant
            n <= parts.len(),
            chunks == views_of(parts@),
            all_empty == (forall|k: int| 0 <= k < n ==> (#[trigger] chunks[k]).len() == 0),
        decreases parts.len() - n,
    {
        assert(chunks[n as int] == parts@[n as int]@);
        if parts[n].len() != 0 {
            all_empty = false;
        }
        n += 1;
    }
    if all_empty {
        return text.len() > 0;
    }
    let pin_first = anchored_start && !starts_with_wild;
    let mut cursor: usize = 0;
    let mut pinned = pin_first;
    let mut k: usize = 0;
    while k < parts.len()
        invariant
            k <= parts.len(),
            cursor <= text.len(),
            chunks == views_of(parts@),
            chunks == pattern_chunks(pattern@),
            !all_chunks_empty(chunks),
            pin_first == pins_first_chunk(pattern@),
            scan_chunks(text@, chunks, k as int, cursor as int, pinned) == scan_chunks(
                text@,
                chunks,
                0,
                0,
                pin_first,
            ),
        decreases parts.len() - k,
    {
        assert(chunks[k as int] == parts@[k as int]@);
        if parts[k].len() != 0 {
            if pinned {
                if !matches_at(text, &parts[k], cursor) {
                    return false;
                }
                cursor = cursor + parts[k].len();
                pinned = false;
            } else {
                match find_chars(text, &parts[k], cursor) {
                    Some(i) => {
                        cursor = i + parts[k].len();
                    },
                    None => {
                        return false;
                    },
                }
            }
        }
        k += 1;
    }
    if anchored_end && !ends_with_wild {
        cursor == text.len()
    } else {
        true
    }
}

/// Whether `text` satisfies the structural expression `pattern`.
pub fn simple_regex_like_match(pattern: &str, text: &str) -> (r: bool)
    ensures
        r == spec_structural_match(pattern@, text@),
{
    let p = to_chars(pattern);
    let t = to_chars(text);
    structural_match_chars(&p, &t)
}

/// Whether `chunk` stands in `text` at `i`, at or after `cursor`.
pub open spec fn stands_from(text: Seq<char>, chunk: Seq<char>, cursor: int, i: int) -> bool {
    cursor <= i && occurs_at(text, chunk, i)
}

/// Whether the chunks from chunk `k` on can be placed in `text` in their
/// order, one behind the other without overlap, the first of them at or after
/// `cursor`. A pinned chunk has to stand at the cursor itself. Empty chunks
/// take no place.
pub open spec fn can_place(
    text: Seq<char>,
    chunks: Seq<Seq<char>>,
    k: int,
    cursor: int,
    pinned: bool,
) -> bool
    decreases chunks.len() - k,
{
    if k < 0 || k >= chunks.len() {
        true
    } else if chunks[k].len() == 0 {
        can_place(text, chunks, k + 1, cursor, pinned)
    } else if pinned {
        occurs_at(text, chunks[k], cursor) && can_place(
            text,
            chunks,
            k + 1,
            cursor + chunks[k].len(),
            false,
        )
    } else {
        exists|i: int| #[trigger]
            stands_from(text, chunks[k], cursor, i) && can_place(
                text,
                chunks,
                k + 1,
                i + chunks[k].len(),
                false,
            )
    }
}

/// Chunks that can be placed from a cursor on can be placed from every
/// earlier cursor on, where none of them is pinned.
pub proof fn lemma_can_place_earlier(
    text: Seq<char>,
    chunks: Seq<Seq<char>>,
    k: int,
    earlier: int,
    cursor: int,
)
    requires
        earlier <= cursor,
        can_place(text, chunks, k, cursor, false),
    ensures
        can_place(text, chunks, k, earlier, false),
    decreases chunks.len() - k,
{
    if 0 <= k < chunks.len() {
        if chunks[k].len() == 0 {
            lemma_can_place_earlier(text, chunks, k + 1, earlier, cursor);
        } else {
            let i = choose|i: int| #[trigger]
                stands_from(text, chunks[k], cursor, i) && can_place(
                    text,
                    chunks,
                    k + 1,
                    i + chunks[k].len(),
                    false,
                );
            assert(stands_from(text, chunks[k], earlier, i));
        }
    }
}

/// The scan, which takes the first place of each chunk and never goes back,
/// finds a placement exactly when there is one.
pub proof fn lemma_scan_is_complete(
    text: Seq<char>,
    chunks: Seq<Seq<char>>,
    k: int,
    cursor: int,
    pinned: bool,
)
    requires
        0 <= cursor,
    ensures
        scan_chunks(text, chunks, k, cursor, pinned) is Some <==> can_place(
            text,
            chunks,
            k,
            cursor,
            pinned,
        ),
    decreases chunks.len() - k,
{
    if 0 <= k < chunks.len() {
        let width = chunks[k].len();
        if width == 0 {
            lemma_scan_is_complete(text, chunks, k + 1, cursor, pinned);
        } else if pinned {
            lemma_scan_is_complete(text, chunks, k + 1, cursor + width, false);
        } else {
            lemma_find_is_first(text, chunks[k], cursor);
            if can_place(text, chunks, k, cursor, false) {
                // The scan takes a place at or before the one of the placement.
                let i = choose|i: int| #[trigger]
                    stands_from(text, chunks[k], cursor, i) && can_place(
                        text,
                        chunks,
                        k + 1,
                        i + width,
                        false,
                    );
                assert(occurs_at(text, chunks[k], i));
                let first = spec_find(text, chunks[k], cursor).unwrap();
                assert(first <= i);
                lemma_can_place_earlier(text, chunks, k + 1, first + width, i + width);
                lemma_scan_is_complete(text, chunks, k + 1, first + width, false);
            }
            if scan_chunks(text, chunks, k, cursor, false) is Some {
                // The places that the scan takes are a placement.
                let first = spec_find(text, chunks[k], cursor).unwrap();
                lemma_scan_is_complete(text, chunks, k + 1, first + width, false);
                assert(stands_from(text, chunks[k], cursor, first));
            }
        }
    }
}

/// Where the last chunk of an expression is not pinned to the end of the
/// text, a text satisfies the expression exactly when its literal chunks can
/// be placed in the text in their order; an expression without a literal
/// chunk takes every text but the empty one.
pub proof fn lemma_match_is_placement(pattern: Seq<char>, text: Seq<char>)
    requires
        !pins_last_chunk(pattern),
    ensures
        spec_structural_match(pattern, text) <==> if all_chunks_empty(pattern_chunks(pattern)) {
            text.len() > 0
        } else {
            can_place(text, pattern_chunks(pattern), 0, 0, pins_first_chunk(pattern))
        },
{
    lemma_scan_is_complete(text, pattern_chunks(pattern), 0, 0, pins_first_chunk(pattern));
}

/// Where the last chunk is pinned, a text that satisfies the expression
/// still holds all its literal chunks in their order.
pub proof fn lemma_match_gives_placement(pattern: Seq<char>, text: Seq<char>)
    requires
        spec_structural_match(pattern, text),
        !all_chunks_empty(pattern_chunks(pattern)),
    ensures
        can_place(text, pattern_chunks(pattern), 0, 0, pins_first_chunk(pattern)),
{
    lemma_scan_is_complete(text, pattern_chunks(pattern), 0, 0, pins_first_chunk(pattern));
}

} // verus!
