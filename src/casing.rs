//! Recording the casing of a word and giving it back to its transcription.

use crate::text::{graphemes_of, lower_of, lowercase, split_graphemes, upper_of, uppercase};
use vstd::prelude::*;

verus! {

/// The casing style of a word.
#[derive(PartialEq, Eq, Structural, Clone, Copy, Debug)]
pub enum Case {
    /// `name`
    Lower,
    /// `Name`
    Title,
    /// `NAME`
    Upper,
    /// `nAmE`
    Mixed,
}

/// Some character of `s` is uppercase.
pub open spec fn has_upper(s: Seq<char>) -> bool {
    exists|i: int| 0 <= i < s.len() && #[trigger] uppercase(s[i])
}

/// Some character of `s` is lowercase.
pub open spec fn has_lower(s: Seq<char>) -> bool {
    exists|i: int| 0 <= i < s.len() && #[trigger] lowercase(s[i])
}

/// The casing style of a non-empty word, read from its first character and
/// from the cased characters that follow it.
pub open spec fn case_of(w: Seq<char>) -> Case {
    let rest = w.drop_first();
    if lowercase(w[0]) {
        if has_upper(rest) {
            Case::Mixed
        } else {
            Case::Lower
        }
    } else if has_upper(rest) && has_lower(rest) {
        Case::Mixed
    } else if has_upper(rest) {
        Case::Upper
    } else {
        Case::Title
    }
}

/// `t` with its first grapheme cluster capitalised and the rest in lower case.
pub open spec fn title_of(t: Seq<char>) -> Seq<char> {
    let gs = graphemes_of(lower_of(t));
    if gs.len() == 0 {
        Seq::empty()
    } else {
        upper_of(gs[0]) + gs.drop_first().flatten()
    }
}

/// `t` rendered in the casing style `case`; a mixed word comes out as a title.
pub open spec fn cased(t: Seq<char>, case: Case) -> Seq<char> {
    match case {
        Case::Lower => lower_of(t),
        Case::Upper => upper_of(t),
        Case::Title | Case::Mixed => title_of(t),
    }
}

/// Capitalises the first grapheme cluster of `s` and lowers the rest.
fn titleize(s: &str) -> (r: String)
    ensures
        r@ == title_of(s@),
{
    let lower = s.to_lowercase();
    let graphemes = split_graphemes(lower.as_str());
    if graphemes.len() == 0 {
        return String::new();
    }
    let mut out = graphemes[0].as_str().to_uppercase();
    let mut i: usize = 1;
    while i < graphemes.len()
        invariant
            1 <= i <= graphemes.len(),
            graphemes.deep_view() == graphemes_of(lower_of(s@)),
            out@ == upper_of(graphemes.deep_view()[0]) + graphemes.deep_view().subrange(
                1,
                i as int,
            ).flatten(),
        decreases graphemes.len() - i,
    {
        proof {
            let gs = graphemes.deep_view();
            gs.subrange(1, i as int).lemma_flatten_push(gs[i as int]);
            assert(gs.subrange(1, i as int).push(gs[i as int]) =~= gs.subrange(1, i + 1));
        }
        out.append(graphemes[i].as_str());
        i = i + 1;
    }
    proof {
        let gs = graphemes.deep_view();
        assert(gs.subrange(1, gs.len() as int) =~= gs.drop_first());
    }
    out
}

/// Renders a transcribed word in the casing style that its source had.
pub fn reapply_case(word: &str, case: Case) -> (r: String)
    ensures
        r@ == cased(word@, case),
{
    match case {
        Case::Lower => word.to_lowercase(),
        Case::Upper => word.to_uppercase(),
        Case::Title | Case::Mixed => titleize(word),
    }
}

/// Classifies the casing style of a non-empty word.
pub fn record_case(input: &str) -> (r: Case)
    requires
        input@.len() > 0,
    ensures
        r == case_of(input@),
{
    let n = input.unicode_len();
    let first = input.get_char(0);
    let ghost rest = input@.drop_first();
    let mut upper_seen = false;
    let mut lower_seen = false;
    let mut i: usize = 1;
    while i < n
        invariant
            1 <= i <= n,
            n == input@.len(),
            rest == input@.drop_first(),
            upper_seen <==> exists|j: int| 0 <= j < i - 1 && #[trigger] uppercase(rest[j]),
            lower_seen <==> exists|j: int| 0 <= j < i - 1 && #[trigger] lowercase(rest[j]),
        decreases n - i,
    {
        let c = input.get_char(i);
        assert(rest[i - 1] == c);
        if c.is_uppercase() {
            upper_seen = true;
        }
        if c.is_lowercase() {
            lower_seen = true;
        }
        i = i + 1;
    }
    if first.is_lowercase() {
        if upper_seen {
            Case::Mixed
        } else {
            Case::Lower
        }
    } else if upper_seen && lower_seen {
        Case::Mixed
    } else if upper_seen {
        Case::Upper
    } else {
        Case::Title
    }
}

} // verus!
