//! Properties of the transcription, proved over the models of the engine and
//! of the façade.

use crate::engine::{lookup_at, match_at, transcribe_from, window, word_output};
use crate::handler::{
    is_alpha_cluster, lemma_cons, outputs, segment_end, segments_from, texts, transcription,
};
use crate::rules::{lookup, max_len_of, Anchor, RuleSetView, RuleView};
use vstd::prelude::*;

verus! {

/// A rule found by `lookup` is in the table, with the core and the anchor it
/// was looked up with.
pub proof fn lemma_lookup_found(table: Seq<RuleView>, core: Seq<Seq<char>>, anchor: Anchor)
    requires
        lookup(table, core, anchor) is Some,
    ensures
        exists|i: int|
            0 <= i < table.len() && #[trigger] table[i].core == core && table[i].anchor == anchor,
    decreases table.len(),
{
    if !(table[0].core == core && table[0].anchor == anchor) {
        lemma_lookup_found(table.drop_first(), core, anchor);
        let i = choose|i: int|
            0 <= i < table.len() - 1 && #[trigger] table.drop_first()[i].core == core
                && table.drop_first()[i].anchor == anchor;
        assert(table[i + 1].core == core);
    } else {
        assert(table[0].core == core);
    }
}

/// No core in `table` is longer than the table's longest core.
pub proof fn lemma_max_len_bound(table: Seq<RuleView>, i: int)
    requires
        0 <= i < table.len(),
    ensures
        table[i].core.len() <= max_len_of(table),
    decreases table.len(),
{
    if i < table.len() - 1 {
        lemma_max_len_bound(table.drop_last(), i);
    }
}

/// No rule of `table` whose core is longer than `n` clusters matches `word`
/// at `pos`.
pub open spec fn no_longer_match(table: Seq<RuleView>, word: Seq<Seq<char>>, pos: int, n: int) -> bool {
    forall|i: int|
        0 <= i < table.len() && #[trigger] table[i].core.len() > n && pos + table[i].core.len()
            <= word.len() ==> word.subrange(pos, pos + table[i].core.len()) != table[i].core
}

/// A lookup by anchor precedence that succeeds found a rule with that core.
proof fn lemma_lookup_at_found(table: Seq<RuleView>, cand: Seq<Seq<char>>, s: bool, e: bool)
    requires
        lookup_at(table, cand, s, e) is Some,
    ensures
        exists|i: int| 0 <= i < table.len() && #[trigger] table[i].core == cand,
{
    if s && e && lookup(table, cand, Anchor::Both) is Some {
        lemma_lookup_found(table, cand, Anchor::Both);
    } else if s && lookup(table, cand, Anchor::Start) is Some {
        lemma_lookup_found(table, cand, Anchor::Start);
    } else if e && lookup(table, cand, Anchor::End) is Some {
        lemma_lookup_found(table, cand, Anchor::End);
    } else {
        lemma_lookup_found(table, cand, Anchor::Free);
    }
}

/// The longest match at `pos` is the match of `n` clusters when no longer
/// candidate up to `k` clusters finds a rule.
proof fn lemma_match_at_is(table: Seq<RuleView>, word: Seq<Seq<char>>, pos: int, k: int, n: int, rep: Seq<char>)
    requires
        0 <= pos,
        0 < n <= k,
        pos + k <= word.len(),
        lookup_at(table, word.subrange(pos, pos + n), pos == 0, pos + n == word.len()) == Some(rep),
        no_longer_match(table, word, pos, n),
    ensures
        match_at(table, word, pos, k) == Some((n, rep)),
    decreases k,
{
    if k > n {
        let cand = word.subrange(pos, pos + k);
        if lookup_at(table, cand, pos == 0, pos + k == word.len()) is Some {
            lemma_lookup_at_found(table, cand, pos == 0, pos + k == word.len());
            let i = choose|i: int| 0 <= i < table.len() && #[trigger] table[i].core == cand;
            assert(table[i].core.len() == k);
        }
        lemma_match_at_is(table, word, pos, k - 1, n, rep);
    }
}

/// One step of the engine at `pos`: the free rule with core `x` is applied
/// when it is the longest match there and no anchored rule for `x` applies.
proof fn lemma_step(table: Seq<RuleView>, word: Seq<Seq<char>>, pos: int, x: Seq<Seq<char>>, rep: Seq<char>)
    requires
        0 <= pos,
        0 < x.len(),
        pos + x.len() <= word.len(),
        word.subrange(pos, pos + x.len()) == x,
        lookup_at(table, x, pos == 0, pos + x.len() == word.len()) == Some(rep),
        no_longer_match(table, word, pos, x.len() as int),
    ensures
        transcribe_from(table, word, pos) == rep + transcribe_from(table, word, pos + x.len()),
{
    lemma_lookup_at_found(table, x, pos == 0, pos + x.len() == word.len());
    let i = choose|i: int| 0 <= i < table.len() && #[trigger] table[i].core == x;
    lemma_max_len_bound(table, i);
    let k = window(table, word, pos);
    lemma_match_at_is(table, word, pos, k, x.len() as int, rep);
}

/// Transcription is a function of the rule table and the input: two
/// transcriptions of the same text with the same table are equal.
pub proof fn lemma_deterministic(rules: RuleSetView, a: Seq<char>, b: Seq<char>)
    requires
        a == b,
    ensures
        transcription(rules, a) == transcription(rules, b),
{
}

/// Longest match wins: where a word starts with the core `p` of a free rule,
/// and a strict prefix `q` of `p` is the core of another free rule, the
/// transcription of the word starts with the replacement of `p`, not of `q`.
/// This holds where no rule with a longer core matches at the start of the
/// word, where `p` has no start rule, and, where `p` is the whole word, no
/// whole-word or end rule (those would take precedence).
pub proof fn lemma_longest_match(
    table: Seq<RuleView>,
    word: Seq<Seq<char>>,
    p: Seq<Seq<char>>,
    rep_p: Seq<char>,
    q: Seq<Seq<char>>,
    rep_q: Seq<char>,
)
    requires
        0 < q.len() < p.len() <= word.len(),
        q == p.take(q.len() as int),
        lookup(table, p, Anchor::Free) == Some(rep_p),
        lookup(table, q, Anchor::Free) == Some(rep_q),
        word.take(p.len() as int) == p,
        no_longer_match(table, word, 0, p.len() as int),
        lookup(table, p, Anchor::Start) is None,
        p.len() == word.len() ==> lookup(table, p, Anchor::Both) is None && lookup(
            table,
            p,
            Anchor::End,
        ) is None,
    ensures
        word_output(table, word) == rep_p + transcribe_from(table, word, p.len() as int),
{
    assert(word.subrange(0, p.len() as int) == word.take(p.len() as int));
    lemma_step(table, word, 0, p, rep_p);
}

/// Anchor precedence at the start of a word: where a word starts with `x`,
/// and `x` has both a start rule and a free rule, the transcription starts
/// with the replacement of the start rule. This holds where no rule with a
/// longer core matches at the start and `x` has no whole-word rule (that would
/// take precedence where `x` is the whole word).
pub proof fn lemma_anchor_at_start(
    table: Seq<RuleView>,
    word: Seq<Seq<char>>,
    x: Seq<Seq<char>>,
    rep_start: Seq<char>,
    rep_free: Seq<char>,
)
    requires
        0 < x.len() <= word.len(),
        lookup(table, x, Anchor::Start) == Some(rep_start),
        lookup(table, x, Anchor::Free) == Some(rep_free),
        word.take(x.len() as int) == x,
        no_longer_match(table, word, 0, x.len() as int),
        lookup(table, x, Anchor::Both) is None,
    ensures
        word_output(table, word) == rep_start + transcribe_from(table, word, x.len() as int),
{
    assert(word.subrange(0, x.len() as int) == word.take(x.len() as int));
    lemma_step(table, word, 0, x, rep_start);
}

/// Anchor precedence inside a word: where the engine reaches a position past
/// the start of a word at which `x` occurs, and `x` has both a start rule and
/// a free rule, the free rule's replacement is used. This holds where no rule
/// with a longer core matches there and, where `x` ends the word, `x` has no
/// end rule (that would take precedence).
pub proof fn lemma_anchor_mid_word(
    table: Seq<RuleView>,
    word: Seq<Seq<char>>,
    pos: int,
    x: Seq<Seq<char>>,
    rep_start: Seq<char>,
    rep_free: Seq<char>,
)
    requires
        0 < pos,
        0 < x.len(),
        pos + x.len() <= word.len(),
        lookup(table, x, Anchor::Start) == Some(rep_start),
        lookup(table, x, Anchor::Free) == Some(rep_free),
        word.subrange(pos, pos + x.len()) == x,
        no_longer_match(table, word, pos, x.len() as int),
        pos + x.len() == word.len() ==> lookup(table, x, Anchor::End) is None,
    ensures
        transcribe_from(table, word, pos) == rep_free + transcribe_from(table, word, pos + x.len()),
{
    lemma_step(table, word, pos, x, rep_free);
}

/// `core` occurs in `word` at cluster `j`.
pub open spec fn occurs_at(word: Seq<Seq<char>>, core: Seq<Seq<char>>, j: int) -> bool {
    0 <= j && j + core.len() <= word.len() && word.subrange(j, j + core.len()) == core
}

/// No core of `table` occurs anywhere in `word`.
pub open spec fn no_core_occurs(table: Seq<RuleView>, word: Seq<Seq<char>>) -> bool {
    forall|i: int, j: int| 0 <= i < table.len() ==> !#[trigger] occurs_at(word, table[i].core, j)
}

/// No candidate of up to `k` clusters at `pos` finds a rule when no core of
/// the table occurs in the word.
proof fn lemma_no_match(table: Seq<RuleView>, word: Seq<Seq<char>>, pos: int, k: int)
    requires
        0 <= pos,
        pos + k <= word.len(),
        no_core_occurs(table, word),
    ensures
        match_at(table, word, pos, k) is None,
    decreases k,
{
    if k > 0 {
        let cand = word.subrange(pos, pos + k);
        if lookup_at(table, cand, pos == 0, pos + k == word.len()) is Some {
            lemma_lookup_at_found(table, cand, pos == 0, pos + k == word.len());
            let i = choose|i: int| 0 <= i < table.len() && #[trigger] table[i].core == cand;
            assert(occurs_at(word, table[i].core, pos));
        }
        lemma_no_match(table, word, pos, k - 1);
    }
}

/// Fallback: where no core of the table occurs anywhere in a word, the word
/// is copied cluster by cluster, unchanged.
pub proof fn lemma_fallback_word(table: Seq<RuleView>, word: Seq<Seq<char>>)
    requires
        no_core_occurs(table, word),
    ensures
        word_output(table, word) == word.flatten(),
{
    lemma_fallback_from(table, word, 0);
    assert(word.subrange(0, word.len() as int) =~= word);
}

proof fn lemma_fallback_from(table: Seq<RuleView>, word: Seq<Seq<char>>, pos: int)
    requires
        0 <= pos <= word.len(),
        no_core_occurs(table, word),
    ensures
        transcribe_from(table, word, pos) == word.subrange(pos, word.len() as int).flatten(),
    decreases word.len() - pos,
{
    if pos == word.len() {
        assert(word.subrange(pos, word.len() as int) =~= Seq::<Seq<char>>::empty());
    } else {
        lemma_no_match(table, word, pos, window(table, word, pos));
        lemma_fallback_from(table, word, pos + 1);
        let rest = word.subrange(pos, word.len() as int);
        assert(rest.drop_first() =~= word.subrange(pos + 1, word.len() as int));
    }
}

/// Fallback for text with no alphabetic cluster: every segment is copied, so
/// the output is the concatenation of the segments' texts.
pub proof fn lemma_fallback_plain(rules: RuleSetView, gs: Seq<Seq<char>>, i: int)
    requires
        0 <= i <= gs.len(),
        forall|k: int| 0 <= k < gs.len() ==> !is_alpha_cluster(#[trigger] gs[k]),
    ensures
        outputs(rules, segments_from(gs, i)) == texts(segments_from(gs, i)),
    decreases gs.len() - i,
{
    if i < gs.len() {
        let j = segment_end(gs, i);
        let seg = gs.subrange(i, j);
        lemma_fallback_plain(rules, gs, j);
        lemma_cons(rules, seg, segments_from(gs, j));
        assert(seg[0] == gs[i]);
    } else {
        assert(outputs(rules, segments_from(gs, i)) =~= Seq::<char>::empty());
        assert(texts(segments_from(gs, i)) =~= Seq::<char>::empty());
    }
}

} // verus!
