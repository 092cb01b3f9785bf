//! What the library takes from Unicode data that it does not hold itself:
//! where grapheme clusters begin and end, how many columns a cluster is
//! advised to take, and which characters are white space or control codes.
//!
//! Nothing in this file is proved. Each item states what the function it
//! stands for is relied on to do; the rest of the library is proved from
//! these statements.

use crate::text::texts;
use unicode_segmentation::UnicodeSegmentation;
use unicode_width::UnicodeWidthStr;
use vstd::prelude::*;

verus! {

/// The extended grapheme clusters of `text`, first to last, as
/// `unicode_segmentation` cuts them.
pub uninterp spec fn graphemes_of(text: Seq<char>) -> Seq<Seq<char>>;

/// The number of columns that `unicode_width` gives to `text` outside an
/// East Asian context.
pub uninterp spec fn str_width(text: Seq<char>) -> usize;

/// Whether `c` has the Unicode property `White_Space`.
pub uninterp spec fn char_is_whitespace(c: char) -> bool;

/// Whether `c` is a control code (general category `Cc`).
pub uninterp spec fn char_is_control(c: char) -> bool;

/// `parts` cuts `text` into consecutive pieces, none of them empty.
pub open spec fn is_partition(text: Seq<char>, parts: Seq<Seq<char>>) -> bool {
    &&& parts.flatten() == text
    &&& forall|i: int| 0 <= i < parts.len() ==> (#[trigger] parts[i]).len() > 0
}

/// `UnicodeSegmentation::graphemes` on `text`, asked for extended clusters,
/// with each cluster copied into a `String`.
///
/// Relied on: the clusters depend on the text alone, which is what
/// `graphemes_of` names; the iterator hands out one non-empty slice after
/// another, each starting where the last one ended, from the start of the
/// text to its end.
#[verifier::external_body]
pub(crate) fn grapheme_clusters(text: &str) -> (clusters: Vec<String>)
    ensures
        texts(clusters@) == graphemes_of(text@),
        is_partition(text@, texts(clusters@)),
{
    text.graphemes(true).map(String::from).collect()
}

/// `UnicodeWidthStr::width` on `text`.
///
/// Relied on: the width depends on the text alone, which is what `str_width`
/// names. Nothing is said of how large it is.
#[verifier::external_body]
pub(crate) fn display_width(text: &str) -> (width: usize)
    ensures
        width == str_width(text@),
{
    text.width()
}

/// `char::is_whitespace`: true exactly for the characters with the property
/// `White_Space`.
pub assume_specification[ char::is_whitespace ](c: char) -> (b: bool)
    ensures
        b == char_is_whitespace(c),
;

/// `char::is_control`: true exactly for the control codes.
pub assume_specification[ char::is_control ](c: char) -> (b: bool)
    ensures
        b == char_is_control(c),
;

} // verus!
