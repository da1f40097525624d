//! Column-aware text measurement and padding.
//!
//! Two questions about a string are answered by Unicode tables rather than by
//! this crate: how many terminal columns it occupies, and how many grapheme
//! clusters it holds. Both answers are named here and left uninterpreted;
//! everything built on them is stated in terms of those names.

use pad::PadStr;
use unicode_segmentation::UnicodeSegmentation;
use vstd::prelude::*;

verus! {

/// The number of terminal columns a string occupies, as measured by
/// `unicode_width::UnicodeWidthStr::width`, the measure that `pad` pads by.
pub uninterp spec fn display_width(s: Seq<char>) -> nat;

/// The number of extended grapheme clusters of a string, as counted by
/// walking `unicode_segmentation::UnicodeSegmentation::graphemes(s, true)`.
pub uninterp spec fn grapheme_count(s: Seq<char>) -> nat;

/// The texts of a list of strings, in order.
pub open spec fn texts(items: Seq<String>) -> Seq<Seq<char>> {
    items.map_values(|s: String| s@)
}

/// `n` spaces.
pub open spec fn spaces(n: nat) -> Seq<char> {
    Seq::new(n, |i: int| ' ')
}

/// A string of `columns` columns, padded on the right to `width` columns.
/// The empty string occupies no column whatever it is measured with; a string
/// that already fills `width` columns or more is left as it is.
pub open spec fn padded_from(s: Seq<char>, width: nat, columns: nat) -> Seq<char> {
    if s.len() == 0 {
        spaces(width)
    } else if columns >= width {
        s
    } else {
        s + spaces((width - columns) as nat)
    }
}

/// A string padded on the right with spaces to `width` display columns.
pub open spec fn padded(s: Seq<char>, width: nat) -> Seq<char> {
    padded_from(s, width, display_width(s))
}

/// The number of spaces that padding to `width` columns appends to `s`.
pub open spec fn padding(s: Seq<char>, width: nat) -> nat {
    (padded(s, width).len() - s.len()) as nat
}

/// The number of columns a string occupies: none if it is empty, else its
/// display width.
pub open spec fn columns(s: Seq<char>) -> nat {
    if s.len() == 0 {
        0
    } else {
        display_width(s)
    }
}

/// Padding keeps the text and appends nothing but spaces: as many as the
/// text is short of `width` columns, none if it is not short of them. So a
/// text that fits in `width` columns fills, once padded, exactly `width`
/// columns, the text's own plus one per space; a wider text stays as it is,
/// wider than `width`.
pub proof fn lemma_padded_shape(s: Seq<char>, width: nat)
    ensures
        padded(s, width) == s + spaces(padding(s, width)),
        columns(s) <= width ==> columns(s) + padding(s, width) == width,
        columns(s) >= width ==> padded(s, width) == s,
{
    if s.len() == 0 {
        assert(padded(s, width) =~= s + spaces(padding(s, width)));
    } else if display_width(s) >= width {
        assert(padded(s, width) =~= s + spaces(padding(s, width)));
    } else {
        assert(padded(s, width) =~= s + spaces(padding(s, width)));
    }
}

/// Padding nothing gives a row of `width` spaces.
pub proof fn lemma_padded_empty(width: nat)
    ensures
        padded(Seq::<char>::empty(), width) == spaces(width),
        padded(Seq::<char>::empty(), width).len() == width,
        forall|i: int| 0 <= i < width ==> padded(Seq::<char>::empty(), width)[i] == ' ',
{
}

/// Calls `pad::PadStr::pad_to_width`. That function measures the string with
/// `UnicodeWidthStr::width`; if the string is narrower than `width` it
/// returns the string followed by one space per missing column, otherwise a
/// copy of the string. It never truncates.
#[verifier::external_body]
pub(crate) fn pad_to_width(s: &str, width: usize) -> (r: String)
    ensures
        r@ == padded_from(s@, width as nat, display_width(s@)),
{
    s.pad_to_width(width)
}

/// Counts the items of `unicode_segmentation`'s iterator over the extended
/// grapheme clusters of `s`. The count is a function of the string alone.
#[verifier::external_body]
pub(crate) fn count_graphemes(s: &str) -> (n: usize)
    ensures
        n == grapheme_count(s@),
{
    s.graphemes(true).count()
}

} // verus!
