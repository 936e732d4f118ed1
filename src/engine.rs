//! The word transcription engine: greedy longest match over grapheme
//! clusters, with word-boundary anchors and a verbatim fallback.

use crate::laws::lemma_lookup_found;
use crate::rules::{lookup, max_len_of, Anchor, RuleSet, RuleView};
use vstd::prelude::*;

verus! {

/// The replacement for the candidate core `cand`, by anchor precedence: a
/// whole-word rule, then a start rule, then an end rule, then a free rule.
/// `at_start` and `at_end` say whether the candidate starts and ends the word.
pub open spec fn lookup_at(table: Seq<RuleView>, cand: Seq<Seq<char>>, at_start: bool, at_end: bool) -> Option<Seq<char>> {
    if at_start && at_end && lookup(table, cand, Anchor::Both) is Some {
        lookup(table, cand, Anchor::Both)
    } else if at_start && lookup(table, cand, Anchor::Start) is Some {
        lookup(table, cand, Anchor::Start)
    } else if at_end && lookup(table, cand, Anchor::End) is Some {
        lookup(table, cand, Anchor::End)
    } else {
        lookup(table, cand, Anchor::Free)
    }
}

/// The longest match of at most `k` clusters at position `pos` of `word`:
/// its length and its replacement.
pub open spec fn match_at(table: Seq<RuleView>, word: Seq<Seq<char>>, pos: int, k: int) -> Option<(int, Seq<char>)>
    decreases k,
{
    if k <= 0 {
        None
    } else {
        match lookup_at(table, word.subrange(pos, pos + k), pos == 0, pos + k == word.len()) {
            Some(rep) => Some((k, rep)),
            None => match_at(table, word, pos, k - 1),
        }
    }
}

/// How many clusters the lookahead at `pos` takes: the longest core, or what
/// is left of the word if that is shorter.
pub open spec fn window(table: Seq<RuleView>, word: Seq<Seq<char>>, pos: int) -> int {
    let left = word.len() - pos;
    if max_len_of(table) < left {
        max_len_of(table) as int
    } else {
        left
    }
}

/// The transcription of `word` from cluster `pos` on: at each position the
/// longest match is replaced, and a cluster that starts no match is copied.
pub open spec fn transcribe_from(table: Seq<RuleView>, word: Seq<Seq<char>>, pos: int) -> Seq<char>
    decreases word.len() - pos,
{
    if pos < 0 || pos >= word.len() {
        Seq::empty()
    } else {
        let m = match_at(table, word, pos, window(table, word, pos));
        if m is Some && 0 < m.unwrap().0 <= word.len() - pos {
            m.unwrap().1 + transcribe_from(table, word, pos + m.unwrap().0)
        } else {
            word[pos] + transcribe_from(table, word, pos + 1)
        }
    }
}

/// The transcription of a whole word given as clusters.
pub open spec fn word_output(table: Seq<RuleView>, word: Seq<Seq<char>>) -> Seq<char> {
    transcribe_from(table, word, 0)
}

/// Looks up the clusters `word[from..to]` by anchor precedence; anchored
/// lookups are made only where the table has such rules.
pub fn transcribe_word_segment(rules: &RuleSet, word: &Vec<String>, from: usize, to: usize) -> (r: Option<usize>)
    requires
        from <= to <= word.len(),
    ensures
        match r {
            Some(i) => i < rules@.table.len() && lookup_at(
                rules@.table,
                word.deep_view().subrange(from as int, to as int),
                from == 0,
                to == word.len(),
            ) == Some(rules@.table[i as int].replacement),
            None => lookup_at(
                rules@.table,
                word.deep_view().subrange(from as int, to as int),
                from == 0,
                to == word.len(),
            ) is None,
        },
{
    let ghost table = rules@.table;
    let ghost cand = word.deep_view().subrange(from as int, to as int);
    let search = rules.search_rules();
    proof {
        if lookup(table, cand, Anchor::Start) is Some {
            lemma_lookup_found(table, cand, Anchor::Start);
        }
        if lookup(table, cand, Anchor::Both) is Some {
            lemma_lookup_found(table, cand, Anchor::Both);
        }
        if lookup(table, cand, Anchor::End) is Some {
            lemma_lookup_found(table, cand, Anchor::End);
        }
    }
    let at_start = from == 0 && search.prefix_start;
    let at_end = to == word.len() && search.postfix_end;
    if at_start && at_end {
        if let Some(i) = rules.find(word, from, to, Anchor::Both) {
            return Some(i);
        }
    }
    if at_start {
        if let Some(i) = rules.find(word, from, to, Anchor::Start) {
            return Some(i);
        }
    }
    if at_end {
        if let Some(i) = rules.find(word, from, to, Anchor::End) {
            return Some(i);
        }
    }
    rules.find(word, from, to, Anchor::Free)
}

/// The longest match at `pos`: its length and the index of its rule.
fn longest_match(rules: &RuleSet, word: &Vec<String>, pos: usize) -> (r: Option<(usize, usize)>)
    requires
        pos < word.len(),
    ensures
        match r {
            Some((len, i)) => {
                &&& 0 < len <= word.len() - pos
                &&& i < rules@.table.len()
                &&& match_at(rules@.table, word.deep_view(), pos as int, window(rules@.table, word.deep_view(), pos as int))
                    == Some((len as int, rules@.table[i as int].replacement))
            },
            None => match_at(rules@.table, word.deep_view(), pos as int, window(rules@.table, word.deep_view(), pos as int)) is None,
        },
{
    let ghost table = rules@.table;
    let ghost w = word.deep_view();
    let search = rules.search_rules();
    let left = word.len() - pos;
    let k = if search.max_key_len < left { search.max_key_len } else { left };
    let mut len = k;
    while len > 0
        invariant
            table == rules@.table,
            w == word.deep_view(),
            pos < word.len(),
            len <= k <= word.len() - pos,
            k as int == window(table, w, pos as int),
            match_at(table, w, pos as int, k as int) == match_at(table, w, pos as int, len as int),
        decreases len,
    {
        if let Some(i) = transcribe_word_segment(rules, word, pos, pos + len) {
            return Some((len, i));
        }
        len = len - 1;
    }
    None
}

/// Transcribes one word, given as grapheme clusters already folded to the
/// case of the table.
pub fn transcribe_word(rules: &RuleSet, word: &Vec<String>) -> (r: String)
    ensures
        r@ == word_output(rules@.table, word.deep_view()),
{
    let ghost table = rules@.table;
    let ghost w = word.deep_view();
    let n = word.len();
    let mut out = String::new();
    let mut pos: usize = 0;
    while pos < n
        invariant
            table == rules@.table,
            w == word.deep_view(),
            pos <= n == word.len(),
            transcribe_from(table, w, 0) == out@ + transcribe_from(table, w, pos as int),
        decreases n - pos,
    {
        match longest_match(rules, word, pos) {
            Some((len, i)) => {
                let ghost before = out@;
                out.append(rules.replacement(i));
                assert(before + transcribe_from(table, w, pos as int) =~= out@ + transcribe_from(
                    table,
                    w,
                    pos + len,
                ));
                pos = pos + len;
            },
            None => {
                let ghost before = out@;
                out.append(word[pos].as_str());
                assert(before + transcribe_from(table, w, pos as int) =~= out@ + transcribe_from(
                    table,
                    w,
                    pos + 1,
                ));
                pos = pos + 1;
            },
        }
    }
    out
}

} // verus!
