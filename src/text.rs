//! Unicode services: grapheme segmentation and character properties.
//!
//! What Unicode says of a character or a string takes pages; the functions
//! below give each such result a name, and the rest of the library is proved
//! against those names.

use unicode_segmentation::UnicodeSegmentation;
use vstd::prelude::*;

verus! {

/// The extended grapheme clusters of a string, in order.
pub uninterp spec fn graphemes_of(s: Seq<char>) -> Seq<Seq<char>>;

/// The Unicode `Alphabetic` property of a character.
pub uninterp spec fn alphabetic(c: char) -> bool;

/// The Unicode `Lowercase` property of a character.
pub uninterp spec fn lowercase(c: char) -> bool;

/// The Unicode `Uppercase` property of a character.
pub uninterp spec fn uppercase(c: char) -> bool;

/// The full Unicode lowercase mapping of a string.
pub uninterp spec fn lower_of(s: Seq<char>) -> Seq<char>;

/// The full Unicode uppercase mapping of a string.
pub uninterp spec fn upper_of(s: Seq<char>) -> Seq<char>;

/// Relies on `UnicodeSegmentation::graphemes` with extended clusters: it walks
/// the boundaries of `s` from the first byte to the last and yields the
/// non-empty slice between each two consecutive ones.
#[verifier::external_body]
pub(crate) fn split_graphemes(s: &str) -> (r: Vec<String>)
    ensures
        r.deep_view() == graphemes_of(s@),
        r.deep_view().flatten() == s@,
        forall|i: int| 0 <= i < r.deep_view().len() ==> #[trigger] r.deep_view()[i].len() > 0,
{
    s.graphemes(true).map(|g| g.to_string()).collect()
}

/// Relies on `char::is_alphabetic`.
pub assume_specification[ char::is_alphabetic ](c: char) -> (r: bool)
    ensures
        r == alphabetic(c),
;

/// Relies on `char::is_lowercase`.
pub assume_specification[ char::is_lowercase ](c: char) -> (r: bool)
    ensures
        r == lowercase(c),
;

/// Relies on `char::is_uppercase`.
pub assume_specification[ char::is_uppercase ](c: char) -> (r: bool)
    ensures
        r == uppercase(c),
;

/// Relies on `str::to_lowercase`: the result depends on the characters alone.
pub assume_specification[ str::to_lowercase ](s: &str) -> (r: String)
    ensures
        r@ == lower_of(s@),
;

/// Relies on `str::to_uppercase`: the result depends on the characters alone.
pub assume_specification[ str::to_uppercase ](s: &str) -> (r: String)
    ensures
        r@ == upper_of(s@),
;

/// Concatenates the strings `parts[from..to]`.
pub fn concat_range(parts: &Vec<String>, from: usize, to: usize) -> (r: String)
    requires
        from <= to <= parts.len(),
    ensures
        r@ == parts.deep_view().subrange(from as int, to as int).flatten(),
{
    let mut out = String::new();
    let mut i = from;
    while i < to
        invariant
            from <= i <= to <= parts.len(),
            out@ == parts.deep_view().subrange(from as int, i as int).flatten(),
        decreases to - i,
    {
        proof {
            let s = parts.deep_view().subrange(from as int, i as int);
            s.lemma_flatten_push(parts.deep_view()[i as int]);
            assert(s.push(parts.deep_view()[i as int]) =~= parts.deep_view().subrange(
                from as int,
                i + 1,
            ));
        }
        out.append(parts[i].as_str());
        i = i + 1;
    }
    out
}

} // verus!
