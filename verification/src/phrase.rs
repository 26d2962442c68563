//! A small verified matching engine for the classification vocabulary.
//!
//! A pattern is a group of literal words that must occur in order with one
//! or more whitespace characters between consecutive words; two or three
//! word groups can be chained, allowing arbitrary text between the groups.
//! Matching is case-insensitive (ASCII folding).

use vstd::prelude::*;

use crate::text::{lemma_skip_ws, lit_at, lit_match_at, skip_ws, skip_ws_exec};

verus! {

/// Where a match of the words `words[k..]` starting exactly at `i` ends:
/// each word must occur literally (case-insensitive), and consecutive
/// words must be separated by a run of one or more whitespace characters.
/// `None` when the words do not occur there.
///
/// Pattern words never begin with a whitespace character (see [`word_wf`]),
/// so skipping the whole whitespace run between two words loses no match.
pub open spec fn phrase_end(text: Seq<char>, words: Seq<Seq<char>>, k: int, i: int) -> Option<int>
    decreases words.len() - k,
{
    if !(0 <= k < words.len()) {
        None
    } else if !lit_at(text, words[k], i) {
        None
    } else if k + 1 == words.len() {
        Some(i + words[k].len())
    } else {
        let j = skip_ws(text, i + words[k].len());
        if j > i + words[k].len() {
            phrase_end(text, words, k + 1, j)
        } else {
            None
        }
    }
}

/// A pattern word: non-empty and beginning with a character that no
/// whitespace character can match under case folding (a lower-case ASCII
/// letter, a quote, or a hyphen).
pub open spec fn word_wf(w: Seq<char>) -> bool {
    w.len() > 0 && (('a' <= w[0] && w[0] <= 'z') || w[0] == '\'' || w[0] == '-')
}

pub open spec fn words_wf(ws: Seq<Seq<char>>) -> bool {
    ws.len() > 0 && (forall|k: int| 0 <= k < ws.len() ==> word_wf(#[trigger] ws[k]))
}

/// The word sequences denoted by a vector of word vectors.
pub open spec fn words_view(ws: Seq<Vec<char>>) -> Seq<Seq<char>> {
    Seq::new(ws.len(), |i: int| ws[i]@)
}

/// A match lies inside the text: its start is a text position and its end
/// does not pass the end of the text.
pub proof fn lemma_phrase_end_in_text(text: Seq<char>, words: Seq<Seq<char>>, k: int, i: int)
    requires
        words_wf(words),
        0 <= k < words.len(),
        phrase_end(text, words, k, i) is Some,
    ensures
        0 <= i < text.len(),
        i < phrase_end(text, words, k, i)->Some_0 <= text.len(),
    decreases words.len() - k,
{
    assert(word_wf(words[k]));
    assert(lit_at(text, words[k], i));
    if k + 1 < words.len() {
        let j = skip_ws(text, i + words[k].len());
        lemma_skip_ws(text, i + words[k].len());
        lemma_phrase_end_in_text(text, words, k + 1, j);
    }
}

/// Match `words[k..]` at the fixed start position `i`.
pub fn phrase_match_at(text: &Vec<char>, words: &Vec<Vec<char>>, k: usize, i: usize) -> (r: Option<
    usize,
>)
    requires
        k < words@.len(),
        i <= text@.len(),
    ensures
        match r {
            Some(e) => phrase_end(text@, words_view(words@), k as int, i as int) == Some(e as int)
                && i <= e <= text@.len(),
            None => phrase_end(text@, words_view(words@), k as int, i as int) is None,
        },
    decreases words@.len() - k,
{
    let ghost tw = text@;
    let ghost dw = words_view(words@);
    assert(dw[k as int] == words@[k as int]@);
    let n: usize = text.len();
    let m: usize = words.len();
    let wk: &Vec<char> = &words[k];
    if !lit_match_at(text, wk, i) {
        return None;
    }
    assert(lit_at(tw, dw[k as int], i as int));
    let end: usize = i + wk.len();
    if k + 1 == m {
        return Some(end);
    }
    proof {
        lemma_skip_ws(tw, end as int);
    }
    let j = skip_ws_exec(text, end);
    if j == end {
        return None;
    }
    phrase_match_at(text, words, k + 1, j)
}

/// Some start position at or after `from` carries the whole word group,
/// ending at `e`.
pub open spec fn phrase_found(text: Seq<char>, words: Seq<Seq<char>>, from: int, e: int) -> bool {
    exists|i: int| from <= i && #[trigger] phrase_end(text, words, 0, i) == Some(e)
}

/// The word group occurs somewhere at or after `from`.
pub open spec fn contains_words_from(text: Seq<char>, words: Seq<Seq<char>>, from: int) -> bool {
    exists|e: int| phrase_found(text, words, from, e)
}

/// The word group occurs somewhere in the text.
pub open spec fn contains_words(text: Seq<char>, words: Seq<Seq<char>>) -> bool {
    contains_words_from(text, words, 0)
}

/// Group `s1` occurs at or after `from`, and group `s2` occurs at or after
/// the end of that occurrence, with arbitrary text in between.
pub open spec fn chain2_from(
    text: Seq<char>,
    s1: Seq<Seq<char>>,
    s2: Seq<Seq<char>>,
    from: int,
) -> bool {
    exists|e1: int| #[trigger] phrase_found(text, s1, from, e1) && contains_words_from(text, s2, e1)
}

pub open spec fn chain2(text: Seq<char>, s1: Seq<Seq<char>>, s2: Seq<Seq<char>>) -> bool {
    chain2_from(text, s1, s2, 0)
}

/// Three word groups in order, arbitrary text between them.
pub open spec fn chain3_from(
    text: Seq<char>,
    s1: Seq<Seq<char>>,
    s2: Seq<Seq<char>>,
    s3: Seq<Seq<char>>,
    from: int,
) -> bool {
    exists|e1: int| #[trigger] phrase_found(text, s1, from, e1) && chain2_from(text, s2, s3, e1)
}

pub open spec fn chain3(
    text: Seq<char>,
    s1: Seq<Seq<char>>,
    s2: Seq<Seq<char>>,
    s3: Seq<Seq<char>>,
) -> bool {
    chain3_from(text, s1, s2, s3, 0)
}

/// Searching from an earlier position finds at least as much.
pub proof fn lemma_contains_words_monotone(text: Seq<char>, words: Seq<Seq<char>>, a: int, b: int)
    requires
        a <= b,
        contains_words_from(text, words, b),
    ensures
        contains_words_from(text, words, a),
{
    let e = choose|e: int| phrase_found(text, words, b, e);
    let i = choose|i: int| b <= i && #[trigger] phrase_end(text, words, 0, i) == Some(e);
    assert(phrase_found(text, words, a, e));
}

pub fn contains_words_exec(text: &Vec<char>, words: &Vec<Vec<char>>, from: usize) -> (r: bool)
    requires
        words_wf(words_view(words@)),
        from <= text@.len(),
    ensures
        r == contains_words_from(text@, words_view(words@), from as int),
{
    let ghost tw = text@;
    let ghost dw = words_view(words@);
    let mut i: usize = from;
    while i < text.len()
        invariant
            from <= i <= tw.len(),
            tw == text@,
            dw == words_view(words@),
            words_wf(dw),
            forall|i2: int| from <= i2 < i ==> #[trigger] phrase_end(tw, dw, 0, i2) is None,
        decreases tw.len() - i,
    {
        if let Some(e1) = phrase_match_at(text, words, 0, i) {
            proof {
                assert(phrase_end(tw, dw, 0, i as int) == Some(e1 as int));
                assert(phrase_found(tw, dw, from as int, e1 as int));
            }
            return true;
        }
        i = i + 1;
    }
    proof {
        if contains_words_from(tw, dw, from as int) {
            let e = choose|e: int| phrase_found(tw, dw, from as int, e);
            let i2 = choose|i2: int|
                from <= i2 && #[trigger] phrase_end(tw, dw, 0, i2) == Some(e);
            lemma_phrase_end_in_text(tw, dw, 0, i2);
            assert(false);
        }
    }
    false
}

pub fn chain2_exec(text: &Vec<char>, s1: &Vec<Vec<char>>, s2: &Vec<Vec<char>>, from: usize) -> (r:
    bool)
    requires
        words_wf(words_view(s1@)),
        words_wf(words_view(s2@)),
        from <= text@.len(),
    ensures
        r == chain2_from(text@, words_view(s1@), words_view(s2@), from as int),
{
    let ghost tw = text@;
    let ghost d1 = words_view(s1@);
    let ghost d2 = words_view(s2@);
    let mut i: usize = from;
    while i < text.len()
        invariant
            from <= i <= tw.len(),
            tw == text@,
            d1 == words_view(s1@),
            d2 == words_view(s2@),
            words_wf(d1),
            words_wf(d2),
            forall|i2: int, e2: int|
                #![trigger phrase_end(tw, d1, 0, i2), contains_words_from(tw, d2, e2)]
                from <= i2 < i && phrase_end(tw, d1, 0, i2) == Some(e2)
                    ==> !contains_words_from(tw, d2, e2),
        decreases tw.len() - i,
    {
        if let Some(e1) = phrase_match_at(text, s1, 0, i) {
            if contains_words_exec(text, s2, e1) {
                proof {
                    assert(phrase_found(tw, d1, from as int, e1 as int));
                }
                return true;
            }
        }
        i = i + 1;
    }
    proof {
        if chain2_from(tw, d1, d2, from as int) {
            let e1 = choose|e1: int|
                #[trigger] phrase_found(tw, d1, from as int, e1) && contains_words_from(
                    tw,
                    d2,
                    e1,
                );
            let i2 = choose|i2: int|
                from <= i2 && #[trigger] phrase_end(tw, d1, 0, i2) == Some(e1);
            lemma_phrase_end_in_text(tw, d1, 0, i2);
            assert(false);
        }
    }
    false
}

pub fn chain3_exec(
    text: &Vec<char>,
    s1: &Vec<Vec<char>>,
    s2: &Vec<Vec<char>>,
    s3: &Vec<Vec<char>>,
    from: usize,
) -> (r: bool)
    requires
        words_wf(words_view(s1@)),
        words_wf(words_view(s2@)),
        words_wf(words_view(s3@)),
        from <= text@.len(),
    ensures
        r == chain3_from(text@, words_view(s1@), words_view(s2@), words_view(s3@), from as int),
{
    let ghost tw = text@;
    let ghost d1 = words_view(s1@);
    let ghost d2 = words_view(s2@);
    let ghost d3 = words_view(s3@);
    let mut i: usize = from;
    while i < text.len()
        invariant
            from <= i <= tw.len(),
            tw == text@,
            d1 == words_view(s1@),
            d2 == words_view(s2@),
            d3 == words_view(s3@),
            words_wf(d1),
            words_wf(d2),
            words_wf(d3),
            forall|i2: int, e2: int|
                #![trigger phrase_end(tw, d1, 0, i2), chain2_from(tw, d2, d3, e2)]
                from <= i2 < i && phrase_end(tw, d1, 0, i2) == Some(e2)
                    ==> !chain2_from(tw, d2, d3, e2),
        decreases tw.len() - i,
    {
        if let Some(e1) = phrase_match_at(text, s1, 0, i) {
            if chain2_exec(text, s2, s3, e1) {
                proof {
                    assert(phrase_found(tw, d1, from as int, e1 as int));
                }
                return true;
            }
        }
        i = i + 1;
    }
    proof {
        if chain3_from(tw, d1, d2, d3, from as int) {
            let e1 = choose|e1: int|
                #[trigger] phrase_found(tw, d1, from as int, e1) && chain2_from(tw, d2, d3, e1);
            let i2 = choose|i2: int|
                from <= i2 && #[trigger] phrase_end(tw, d1, 0, i2) == Some(e1);
            lemma_phrase_end_in_text(tw, d1, 0, i2);
            assert(false);
        }
    }
    false
}

} // verus!
