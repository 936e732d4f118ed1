//! Whole-text transcription: the input is split into maximal runs of
//! alphabetic and of non-alphabetic grapheme clusters; the first pass through
//! unchanged, each of the second is transcribed as a word.

use crate::casing::{case_of, cased, reapply_case, record_case};
use crate::engine::{transcribe_word, word_output};
use crate::laws::{lemma_fallback_plain, lemma_fallback_word, no_core_occurs};
use crate::rules::{Fold, RuleSet, RuleSetView};
use crate::text::{alphabetic, concat_range, graphemes_of, lower_of, split_graphemes, upper_of};
use vstd::prelude::*;
use vstd::seq_lib::lemma_flatten_concat;

verus! {

/// A cluster is alphabetic when its first character is.
pub open spec fn is_alpha_cluster(g: Seq<char>) -> bool {
    g.len() > 0 && alphabetic(g[0])
}

/// The first position from `i` on whose cluster is not of class `a`, or the
/// end of `gs`.
pub open spec fn run_end(gs: Seq<Seq<char>>, i: int, a: bool) -> int
    decreases gs.len() - i,
{
    if i < 0 || i >= gs.len() || is_alpha_cluster(gs[i]) != a {
        i
    } else {
        run_end(gs, i + 1, a)
    }
}

/// The end of the segment that starts at cluster `i`.
pub open spec fn segment_end(gs: Seq<Seq<char>>, i: int) -> int {
    let j = run_end(gs, i + 1, is_alpha_cluster(gs[i]));
    if i < j <= gs.len() {
        j
    } else {
        i + 1
    }
}

/// The segments of `gs` from cluster `i` on: maximal runs of clusters of one
/// class, in order.
pub open spec fn segments_from(gs: Seq<Seq<char>>, i: int) -> Seq<Seq<Seq<char>>>
    decreases gs.len() - i,
{
    if i < 0 || i >= gs.len() {
        Seq::empty()
    } else {
        seq![gs.subrange(i, segment_end(gs, i))] + segments_from(gs, segment_end(gs, i))
    }
}

/// The segments of a text.
pub open spec fn segments(input: Seq<char>) -> Seq<Seq<Seq<char>>> {
    segments_from(graphemes_of(input), 0)
}

/// `s` folded to the case `fold`.
pub open spec fn folded(fold: Fold, s: Seq<char>) -> Seq<char> {
    match fold {
        Fold::Lower => lower_of(s),
        Fold::Upper => upper_of(s),
    }
}

/// The transcription of one alphabetic word: folded to the table's case,
/// transcribed cluster by cluster, and given back the casing style it had.
pub open spec fn word_text_output(rules: RuleSetView, w: Seq<char>) -> Seq<char> {
    cased(word_output(rules.table, graphemes_of(folded(rules.fold, w))), case_of(w))
}

/// The output for one segment: a word is transcribed, anything else is kept.
pub open spec fn segment_output(rules: RuleSetView, seg: Seq<Seq<char>>) -> Seq<char> {
    if seg.len() > 0 && is_alpha_cluster(seg[0]) {
        word_text_output(rules, seg.flatten())
    } else {
        seg.flatten()
    }
}

/// The outputs of `segs`, concatenated.
pub open spec fn outputs(rules: RuleSetView, segs: Seq<Seq<Seq<char>>>) -> Seq<char> {
    segs.map_values(|seg: Seq<Seq<char>>| segment_output(rules, seg)).flatten()
}

/// The texts of `segs`, concatenated.
pub open spec fn texts(segs: Seq<Seq<Seq<char>>>) -> Seq<char> {
    segs.map_values(|seg: Seq<Seq<char>>| seg.flatten()).flatten()
}

/// The transcription of a whole text.
pub open spec fn transcription(rules: RuleSetView, input: Seq<char>) -> Seq<char> {
    outputs(rules, segments(input))
}

/// A segment that the transcription leaves as it is: a non-alphabetic one,
/// or a word in which no core of the table occurs once it is folded, and whose
/// casing style gives back the word itself from its folded form.
pub open spec fn passes_through(rules: RuleSetView, seg: Seq<Seq<char>>) -> bool {
    let w = seg.flatten();
    seg.len() > 0 && is_alpha_cluster(seg[0]) ==> {
        &&& no_core_occurs(rules.table, graphemes_of(folded(rules.fold, w)))
        &&& cased(folded(rules.fold, w), case_of(w)) == w
    }
}

/// Segments whose outputs are their texts have, together, their texts as
/// output.
proof fn lemma_outputs_are_texts(rules: RuleSetView, segs: Seq<Seq<Seq<char>>>)
    requires
        forall|k: int|
            0 <= k < segs.len() ==> segment_output(rules, #[trigger] segs[k]) == segs[k].flatten(),
    ensures
        outputs(rules, segs) == texts(segs),
{
    let f = |seg: Seq<Seq<char>>| segment_output(rules, seg);
    let g = |seg: Seq<Seq<char>>| seg.flatten();
    assert(segs.map_values(f) =~= segs.map_values(g));
}

/// Output and text of a list of segments that starts with `seg`.
pub proof fn lemma_cons(rules: RuleSetView, seg: Seq<Seq<char>>, rest: Seq<Seq<Seq<char>>>)
    ensures
        outputs(rules, seq![seg] + rest) == segment_output(rules, seg) + outputs(rules, rest),
        texts(seq![seg] + rest) == seg.flatten() + texts(rest),
{
    let f = |s: Seq<Seq<char>>| segment_output(rules, s);
    let g = |s: Seq<Seq<char>>| s.flatten();
    assert((seq![seg] + rest).map_values(f) =~= seq![f(seg)] + rest.map_values(f));
    assert((seq![seg] + rest).map_values(g) =~= seq![g(seg)] + rest.map_values(g));
    assert((seq![f(seg)] + rest.map_values(f)).drop_first() =~= rest.map_values(f));
    assert((seq![g(seg)] + rest.map_values(g)).drop_first() =~= rest.map_values(g));
}

/// The segments from cluster `i` on cover the clusters from `i` on.
proof fn lemma_segments_cover(gs: Seq<Seq<char>>, i: int)
    requires
        0 <= i <= gs.len(),
    ensures
        texts(segments_from(gs, i)) == gs.subrange(i, gs.len() as int).flatten(),
    decreases gs.len() - i,
{
    if i == gs.len() {
        assert(texts(segments_from(gs, i)) =~= Seq::<char>::empty());
        assert(gs.subrange(i, gs.len() as int) =~= Seq::<Seq<char>>::empty());
    } else {
        let j = segment_end(gs, i);
        lemma_segments_cover(gs, j);
        lemma_cons(RuleSetView { table: Seq::empty(), fold: Fold::Lower }, gs.subrange(i, j), segments_from(gs, j));
        lemma_flatten_concat(gs.subrange(i, j), gs.subrange(j, gs.len() as int));
        assert(gs.subrange(i, j) + gs.subrange(j, gs.len() as int) =~= gs.subrange(i, gs.len() as int));
    }
}

/// Transliterates one word, cluster by cluster, with no case handling.
pub fn cirillify_word(input: &str, rules: &RuleSet) -> (r: String)
    ensures
        r@ == word_output(rules@.table, graphemes_of(input@)),
{
    let clusters = split_graphemes(input);
    transcribe_word(rules, &clusters)
}

/// Transcribes one alphabetic word with its casing.
fn transcribe_cased(text: &str, rules: &RuleSet) -> (r: String)
    requires
        text@.len() > 0,
    ensures
        r@ == word_text_output(rules@, text@),
        graphemes_of(folded(rules@.fold, text@)).flatten() == folded(rules@.fold, text@),
{
    let case = record_case(text);
    let folded = match rules.fold() {
        Fold::Lower => text.to_lowercase(),
        Fold::Upper => text.to_uppercase(),
    };
    let clusters = split_graphemes(folded.as_str());
    let transcribed = transcribe_word(rules, &clusters);
    reapply_case(transcribed.as_str(), case)
}

/// Transliterates a text: non-alphabetic runs are copied, alphabetic runs are
/// transcribed as words.
pub fn cyrillify(input: &str, rules: &RuleSet) -> (r: String)
    ensures
        r@ == transcription(rules@, input@),
        texts(segments(input@)) == input@,
        forall|k: int|
            0 <= k < segments(input@).len() && !is_alpha_cluster(#[trigger] segments(input@)[k][0])
                ==> segment_output(rules@, segments(input@)[k]) == segments(input@)[k].flatten(),
        (forall|k: int|
            0 <= k < graphemes_of(input@).len() ==> !is_alpha_cluster(
                #[trigger] graphemes_of(input@)[k],
            )) ==> r@ == input@,
        (forall|k: int|
            0 <= k < segments(input@).len() ==> passes_through(
                rules@,
                #[trigger] segments(input@)[k],
            )) ==> r@ == input@,
{
    let clusters = split_graphemes(input);
    let ghost gs = clusters.deep_view();
    let n = clusters.len();
    let mut out = String::new();
    let mut i: usize = 0;
    let ghost mut done: Seq<Seq<Seq<char>>> = Seq::empty();
    assert(segments_from(gs, 0) =~= done + segments_from(gs, 0));
    while i < n
        invariant
            gs == clusters.deep_view(),
            gs == graphemes_of(input@),
            segments_from(gs, 0) == done + segments_from(gs, i as int),
            forall|k: int|
                0 <= k < done.len() && passes_through(rules@, #[trigger] done[k])
                    ==> segment_output(rules@, done[k]) == done[k].flatten(),
            n == gs.len(),
            i <= n,
            forall|k: int| 0 <= k < gs.len() ==> #[trigger] gs[k].len() > 0,
            outputs(rules@, segments_from(gs, 0)) == out@ + outputs(rules@, segments_from(gs, i as int)),
        decreases n - i,
    {
        let alpha = clusters[i].as_str().get_char(0).is_alphabetic();
        let mut j = i + 1;
        while j < n && clusters[j].as_str().get_char(0).is_alphabetic() == alpha
            invariant
                gs == clusters.deep_view(),
                n == gs.len(),
                i < j <= n,
                forall|k: int| 0 <= k < gs.len() ==> #[trigger] gs[k].len() > 0,
                alpha == is_alpha_cluster(gs[i as int]),
                run_end(gs, i + 1, alpha) == run_end(gs, j as int, alpha),
            decreases n - j,
        {
            j = j + 1;
        }
        assert(j == segment_end(gs, i as int));
        let text = concat_range(&clusters, i, j);
        let ghost seg = gs.subrange(i as int, j as int);
        let ghost before = out@;
        proof {
            assert(seg[0] == gs[i as int]);
            assert(seg.flatten() == seg[0] + seg.drop_first().flatten());
            lemma_cons(rules@, seg, segments_from(gs, j as int));
        }
        if alpha {
            let word = transcribe_cased(text.as_str(), rules);
            proof {
                let w = folded(rules@.fold, text@);
                if passes_through(rules@, seg) {
                    lemma_fallback_word(rules@.table, graphemes_of(w));
                }
            }
            out.append(word.as_str());
        } else {
            out.append(text.as_str());
        }
        assert(before + outputs(rules@, segments_from(gs, i as int)) =~= out@ + outputs(
            rules@,
            segments_from(gs, j as int),
        ));
        proof {
            assert(segments_from(gs, i as int) == seq![seg] + segments_from(gs, j as int));
            assert(done + segments_from(gs, i as int) =~= done.push(seg) + segments_from(gs, j as int));
            done = done.push(seg);
        }
        i = j;
    }
    proof {
        assert(done =~= segments_from(gs, 0));
        if forall|k: int| 0 <= k < done.len() ==> passes_through(rules@, #[trigger] done[k]) {
            lemma_outputs_are_texts(rules@, done);
        }
        lemma_segments_cover(gs, 0);
        assert(gs.subrange(0, gs.len() as int) =~= gs);
        if forall|k: int| 0 <= k < gs.len() ==> !is_alpha_cluster(#[trigger] gs[k]) {
            lemma_fallback_plain(rules@, gs, 0);
        }
    }
    out
}

} // verus!
