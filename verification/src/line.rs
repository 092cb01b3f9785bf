//! One line of text as grapheme clusters, each with the columns it takes on
//! screen and the glyph that is shown for it.
//!
//! Three units meet here. A cursor counts clusters, a terminal counts
//! columns, and a cluster takes one column or two. `columns_before` turns a
//! cluster index into a column, and `window` says what a range of columns
//! shows.

use crate::text::{chars_of, texts};
use crate::unicode::{
    char_is_control, char_is_whitespace, display_width, grapheme_clusters, graphemes_of,
    is_partition, str_width,
};
use std::ops::Range;
use vstd::prelude::*;

verus! {

/// Shown in place of a cluster that a window cuts through.
pub const ELLIPSIS: char = '\u{22ef}';

/// Shown in place of a cluster that takes no column of its own.
pub const ZERO_WIDTH_MARK: char = '\u{b7}';

/// Shown in place of a cluster of white space other than a space or a tab.
pub const BLANK_MARK: char = '\u{2423}';

/// Shown in place of a cluster that starts with a control code.
pub const CONTROL_MARK: char = '\u{25af}';

/// The columns that a cluster takes on screen: one or two.
#[derive(Debug, Clone, Copy, PartialEq, Eq, Structural)]
pub enum GraphemeWidth {
    Half,
    Full,
}

impl GraphemeWidth {
    /// The number of columns.
    pub open spec fn columns(self) -> nat {
        match self {
            GraphemeWidth::Half => 1,
            GraphemeWidth::Full => 2,
        }
    }

    /// The column that follows a cluster of this width that starts at column
    /// `other`.
    pub fn add_width(self, other: usize) -> (sum: usize)
        requires
            other + self.columns() <= usize::MAX,
        ensures
            sum == other + self.columns(),
    {
        match self {
            GraphemeWidth::Half => other + 1,
            GraphemeWidth::Full => other + 2,
        }
    }
}

/// What was found out about one cluster before it is laid out.
#[derive(Debug, Clone, Copy, PartialEq, Eq, Structural)]
pub struct Measure {
    /// The columns that the cluster is advised to take; any number.
    pub width: usize,
    /// The cluster holds nothing but white space.
    pub blank: bool,
    /// The cluster starts with a control code.
    pub control: bool,
}

/// A cluster as the layout sees it.
#[verifier::ext_equal]
pub struct Fragment {
    pub grapheme: Seq<char>,
    pub width: GraphemeWidth,
    pub replacement: Option<char>,
}

/// One grapheme cluster of a line.
#[derive(Debug)]
pub struct TextFragment {
    pub grapheme: String,
    pub rendered_width: GraphemeWidth,
    pub replacement: Option<char>,
}

impl View for TextFragment {
    type V = Fragment;

    open spec fn view(&self) -> Fragment {
        Fragment {
            grapheme: self.grapheme@,
            width: self.rendered_width,
            replacement: self.replacement,
        }
    }
}

/// Every character of `text` is white space.
pub open spec fn is_blank(text: Seq<char>) -> bool {
    forall|i: int| 0 <= i < text.len() ==> char_is_whitespace(#[trigger] text[i])
}

/// `text` starts with a control code.
pub open spec fn starts_with_control(text: Seq<char>) -> bool {
    text.len() > 0 && char_is_control(text[0])
}

/// What `measure` finds out about the cluster `text`.
pub open spec fn measure_of(text: Seq<char>) -> Measure {
    Measure { width: str_width(text), blank: is_blank(text), control: starts_with_control(text) }
}

/// The glyph shown in place of a cluster, if it is not shown as it is.
///
/// A space is shown as it is and a tab as a space. A cluster with columns of
/// its own is replaced where it is blank or starts with a control code; a
/// cluster without any is always replaced.
pub open spec fn replacement_of(grapheme: Seq<char>, m: Measure) -> Option<char> {
    if grapheme == seq![' '] {
        None
    } else if grapheme == seq!['\t'] {
        Some(' ')
    } else if m.width > 0 {
        if m.blank {
            Some(BLANK_MARK)
        } else if m.control {
            Some(CONTROL_MARK)
        } else {
            None
        }
    } else {
        Some(ZERO_WIDTH_MARK)
    }
}

/// The columns a cluster takes: two where it is shown as it is and is
/// advised two or more, else one.
pub open spec fn rendered_width_of(replacement: Option<char>, width: usize) -> GraphemeWidth {
    if replacement is None && width >= 2 {
        GraphemeWidth::Full
    } else {
        GraphemeWidth::Half
    }
}

/// The fragment for the cluster `grapheme` with the measure `m`.
pub open spec fn fragment_of(grapheme: Seq<char>, m: Measure) -> Fragment {
    let replacement = replacement_of(grapheme, m);
    Fragment { grapheme, width: rendered_width_of(replacement, m.width), replacement }
}

/// The fragments for a sequence of clusters, each measured by itself.
pub open spec fn fragments_of(clusters: Seq<Seq<char>>) -> Seq<Fragment> {
    clusters.map_values(|g: Seq<char>| fragment_of(g, measure_of(g)))
}

/// The clusters of a sequence of fragments.
pub open spec fn graphemes(fragments: Seq<Fragment>) -> Seq<Seq<char>> {
    fragments.map_values(|f: Fragment| f.grapheme)
}

/// The column at which the fragment with index `n` starts: the columns of
/// all fragments before it. An index past the end counts as the end.
pub open spec fn columns_before(fragments: Seq<Fragment>, n: int) -> nat
    decreases n,
{
    if n <= 0 {
        0
    } else if n > fragments.len() {
        columns_before(fragments, fragments.len() as int)
    } else {
        columns_before(fragments, n - 1) + fragments[n - 1].width.columns()
    }
}

/// The columns of each fragment added up, first to last.
pub open spec fn sum_of_columns(fragments: Seq<Fragment>) -> nat
    decreases fragments.len(),
{
    if fragments.len() == 0 {
        0
    } else {
        fragments.first().width.columns() + sum_of_columns(fragments.drop_first())
    }
}

/// What is shown for a fragment when nothing cuts through it.
pub open spec fn glyph(f: Fragment) -> Seq<char> {
    match f.replacement {
        Some(c) => seq![c],
        None => f.grapheme,
    }
}

/// The columns that `shown` fills.
pub open spec fn shown_columns(f: Fragment, left: int, start: int, end: int) -> nat {
    let right = left + f.width.columns();
    if right <= start || end <= left {
        0
    } else if left < start || end < right {
        1
    } else {
        f.width.columns()
    }
}

/// What the fragment `f`, which starts at column `left`, shows in the window
/// of columns from `start` up to `end`: nothing where it lies outside, its
/// glyph where it lies inside, and an ellipsis where an edge of the window
/// cuts through it.
pub open spec fn shown(f: Fragment, left: int, start: int, end: int) -> Seq<char> {
    let right = left + f.width.columns();
    if right <= start || end <= left {
        Seq::empty()
    } else if left < start || end < right {
        seq![ELLIPSIS]
    } else {
        glyph(f)
    }
}

/// What the first `n` fragments show in the window from `start` up to `end`.
pub open spec fn window_of_first(fragments: Seq<Fragment>, n: int, start: int, end: int) -> Seq<
    char,
>
    decreases n,
{
    if n <= 0 {
        Seq::empty()
    } else {
        window_of_first(fragments, n - 1, start, end) + shown(
            fragments[n - 1],
            columns_before(fragments, n - 1) as int,
            start,
            end,
        )
    }
}

/// The columns that the first `n` fragments fill in the window.
pub open spec fn window_columns_of_first(
    fragments: Seq<Fragment>,
    n: int,
    start: int,
    end: int,
) -> nat
    decreases n,
{
    if n <= 0 {
        0
    } else {
        window_columns_of_first(fragments, n - 1, start, end) + shown_columns(
            fragments[n - 1],
            columns_before(fragments, n - 1) as int,
            start,
            end,
        )
    }
}

/// What a line shows in the columns from `start` up to `end`. An empty or
/// inverted range shows nothing.
pub open spec fn window(fragments: Seq<Fragment>, start: int, end: int) -> Seq<char> {
    if start >= end {
        Seq::empty()
    } else {
        window_of_first(fragments, fragments.len() as int, start, end)
    }
}

/// Finds out what the layout needs to know of one cluster.
pub fn measure(grapheme: &str) -> (m: Measure)
    ensures
        m == measure_of(grapheme@),
{
    let chars = chars_of(grapheme);
    let mut blank = true;
    let mut i: usize = 0;
    while i < chars.len()
        invariant
            i <= chars.len(),
            blank == (forall|k: int| 0 <= k < i ==> char_is_whitespace(#[trigger] chars@[k])),
        decreases chars.len() - i,
    {
        if !chars[i].is_whitespace() {
            blank = false;
        }
        i += 1;
    }
    let control = chars.len() > 0 && chars[0].is_control();
    Measure { width: display_width(grapheme), blank, control }
}

impl TextFragment {
    /// The fragment for a cluster with its measure.
    pub fn new(grapheme: String, m: Measure) -> (fragment: TextFragment)
        ensures
            fragment@ == fragment_of(grapheme@, m),
    {
        let chars = chars_of(grapheme.as_str());
        let single = chars.len() == 1;
        let replacement = if single && chars[0] == ' ' {
            None
        } else if single && chars[0] == '\t' {
            Some(' ')
        } else if m.width > 0 {
            if m.blank {
                Some(BLANK_MARK)
            } else if m.control {
                Some(CONTROL_MARK)
            } else {
                None
            }
        } else {
            Some(ZERO_WIDTH_MARK)
        };
        proof {
            if single {
                assert(grapheme@ == seq![chars@[0]]);
            }
        }
        let rendered_width = if replacement.is_none() && m.width >= 2 {
            GraphemeWidth::Full
        } else {
            GraphemeWidth::Half
        };
        TextFragment { grapheme, rendered_width, replacement }
    }
}

/// One line of a text. Its length is counted in clusters.
pub struct Line {
    fragments: Vec<TextFragment>,
}

impl View for Line {
    type V = Seq<Fragment>;

    closed spec fn view(&self) -> Seq<Fragment> {
        self.fragments@.map_values(|f: TextFragment| f@)
    }
}

impl Line {
    /// Every column of the line has a number.
    #[verifier::type_invariant]
    pub closed spec fn columns_fit(self) -> bool {
        2 * self.fragments.len() <= usize::MAX
    }

    /// What `columns_fit` says of the line's length and width.
    pub proof fn lemma_columns_fit(self)
        requires
            self.columns_fit(),
        ensures
            2 * self@.len() < usize::MAX,
            columns_before(self@, self@.len() as int) < usize::MAX,
    {
        lemma_columns_grow(self@, 0, self@.len() as int);
    }

    /// The line made of the given fragments.
    pub fn from_fragments(fragments: Vec<TextFragment>) -> (line: Line)
        requires
            2 * fragments.len() <= usize::MAX,
        ensures
            line@ == fragments@.map_values(|f: TextFragment| f@),
    {
        Line { fragments }
    }

    /// The line that `line` holds: its grapheme clusters, each measured and
    /// laid out by itself.
    pub fn from(line: &str) -> (built: Line)
        requires
            2 * line@.len() <= usize::MAX,
        ensures
            built@ == fragments_of(graphemes_of(line@)),
            is_partition(line@, graphemes(built@)),
    {
        let clusters = grapheme_clusters(line);
        proof {
            lemma_partition_len(line@, texts(clusters@));
        }
        let mut fragments: Vec<TextFragment> = Vec::new();
        let mut i: usize = 0;
        while i < clusters.len()
            invariant
                i <= clusters.len(),
                fragments.len() == i,
                forall|k: int|
                    0 <= k < i ==> (#[trigger] fragments[k])@ == fragment_of(
                        clusters[k]@,
                        measure_of(clusters[k]@),
                    ),
            decreases clusters.len() - i,
        {
            let m = measure(clusters[i].as_str());
            fragments.push(TextFragment::new(clusters[i].clone(), m));
            i += 1;
        }
        let built = Line::from_fragments(fragments);
        proof {
            assert(graphemes(built@) =~= texts(clusters@));
        }
        built
    }

    /// The number of clusters.
    pub fn len(&self) -> (n: usize)
        ensures
            n == self@.len(),
    {
        self.fragments.len()
    }

    /// The column at which the cluster with the given index starts. An
    /// index past the end gives the width of the whole line.
    pub fn width_until(&self, grapheme_index: usize) -> (width: usize)
        ensures
            width == columns_before(self@, grapheme_index as int),
    {
        proof {
            use_type_invariant(self);
        }
        let n = if grapheme_index < self.fragments.len() {
            grapheme_index
        } else {
            self.fragments.len()
        };
        let mut width: usize = 0;
        let mut i: usize = 0;
        while i < n
            invariant
                i <= n <= self.fragments.len(),
                2 * self.fragments.len() <= usize::MAX,
                width == columns_before(self@, i as int),
                width <= 2 * i,
            decreases n - i,
        {
            width = self.fragments[i].rendered_width.add_width(width);
            i += 1;
        }
        width
    }

    /// What the line shows in the given range of columns.
    ///
    /// A cluster that lies wholly in the range is shown by its glyph. One
    /// that an end of the range cuts through is shown as an ellipsis, so
    /// that no more columns are filled than were asked for.
    pub fn get(&self, range: Range<usize>) -> (text: String)
        ensures
            text@ == window(self@, range.start as int, range.end as int),
            range.start >= range.end ==> text@.len() == 0,
    {
        proof {
            use_type_invariant(self);
        }
        let mut result = String::new();
        if range.start >= range.end {
            return result;
        }
        let n = self.fragments.len();
        let mut current_pos: usize = 0;
        let mut i: usize = 0;
        while i < n && current_pos < range.end
            invariant
                i <= n == self.fragments.len(),
                2 * n <= usize::MAX,
                current_pos == columns_before(self@, i as int),
                current_pos <= 2 * i,
                result@ == window_of_first(self@, i as int, range.start as int, range.end as int),
            decreases n - i,
        {
            let fragment = &self.fragments[i];
            let end_pos = fragment.rendered_width.add_width(current_pos);
            if end_pos > range.start {
                if end_pos > range.end || current_pos < range.start {
                    result.push(ELLIPSIS);
                } else if let Some(ch) = fragment.replacement {
                    result.push(ch);
                } else {
                    result.append(fragment.grapheme.as_str());
                }
            }
            current_pos = end_pos;
            i += 1;
        }
        proof {
            lemma_window_stops(self@, i as int, n as int, range.start as int, range.end as int);
        }
        result
    }
}

/// A text has at least as many characters as it has pieces.
pub proof fn lemma_partition_len(text: Seq<char>, parts: Seq<Seq<char>>)
    requires
        is_partition(text, parts),
    ensures
        parts.len() <= text.len(),
    decreases parts.len(),
{
    if parts.len() > 0 {
        let rest = parts.drop_first();
        lemma_partition_len(rest.flatten(), rest);
    }
}

/// Columns grow with the index: by one or two for each fragment.
pub proof fn lemma_columns_grow(fragments: Seq<Fragment>, i: int, j: int)
    requires
        0 <= i <= j <= fragments.len(),
    ensures
        columns_before(fragments, i) + (j - i) <= columns_before(fragments, j),
        columns_before(fragments, j) <= columns_before(fragments, i) + 2 * (j - i),
    decreases j - i,
{
    if i < j {
        lemma_columns_grow(fragments, i, j - 1);
    }
}

/// Once a fragment starts at or after the end of the window, neither it nor
/// any fragment after it shows anything.
pub proof fn lemma_window_stops(fragments: Seq<Fragment>, i: int, n: int, start: int, end: int)
    requires
        0 <= i <= n <= fragments.len(),
        i == n || columns_before(fragments, i) >= end,
    ensures
        window_of_first(fragments, n, start, end) == window_of_first(fragments, i, start, end),
    decreases n - i,
{
    if i < n {
        lemma_window_stops(fragments, i, n - 1, start, end);
        lemma_columns_grow(fragments, i, n - 1);
    }
}

/// A window that ends at or after the end of the line shows the same
/// wherever it ends.
pub proof fn lemma_window_past_line(fragments: Seq<Fragment>, start: int, end: int, later: int)
    requires
        columns_before(fragments, fragments.len() as int) <= end <= later,
    ensures
        window(fragments, start, end) == window(fragments, start, later),
{
    lemma_window_of_first_past_line(fragments, fragments.len() as int, start, end, later);
}

proof fn lemma_window_of_first_past_line(
    fragments: Seq<Fragment>,
    n: int,
    start: int,
    end: int,
    later: int,
)
    requires
        0 <= n <= fragments.len(),
        columns_before(fragments, fragments.len() as int) <= end <= later,
    ensures
        window_of_first(fragments, n, start, end) == window_of_first(fragments, n, start, later),
        start >= end ==> window_of_first(fragments, n, start, later) == Seq::<char>::empty(),
    decreases n,
{
    if n > 0 {
        lemma_window_of_first_past_line(fragments, n - 1, start, end, later);
        lemma_columns_grow(fragments, n - 1, n);
        lemma_columns_grow(fragments, n, fragments.len() as int);
    }
}

/// The columns of a sequence with one more fragment at its end.
proof fn lemma_sum_of_columns_push(fragments: Seq<Fragment>, last: Fragment)
    ensures
        sum_of_columns(fragments.push(last)) == sum_of_columns(fragments) + last.width.columns(),
    decreases fragments.len(),
{
    let longer = fragments.push(last);
    if fragments.len() == 0 {
        assert(sum_of_columns(longer.drop_first()) == 0);
    } else {
        assert(longer.drop_first() == fragments.drop_first().push(last));
        lemma_sum_of_columns_push(fragments.drop_first(), last);
    }
}

/// The column at which a fragment starts is the sum of the columns of the
/// fragments before it.
pub proof fn lemma_columns_before_is_sum(fragments: Seq<Fragment>, n: int)
    requires
        0 <= n <= fragments.len(),
    ensures
        columns_before(fragments, n) == sum_of_columns(fragments.take(n)),
    decreases n,
{
    if n > 0 {
        lemma_columns_before_is_sum(fragments, n - 1);
        lemma_sum_of_columns_push(fragments.take(n - 1), fragments[n - 1]);
        assert(fragments.take(n) == fragments.take(n - 1).push(fragments[n - 1]));
    }
}

/// Every fragment takes one column or two, and the width of a line up to
/// its end, or up to any index past its end, is the sum of the columns of
/// all its fragments.
pub proof fn lemma_line_width_is_sum(fragments: Seq<Fragment>, index: int)
    requires
        index >= fragments.len(),
    ensures
        forall|i: int|
            0 <= i < fragments.len() ==> {
                ||| (#[trigger] fragments[i]).width.columns() == 1
                ||| fragments[i].width.columns() == 2
            },
        columns_before(fragments, index) == sum_of_columns(fragments),
{
    lemma_columns_before_is_sum(fragments, fragments.len() as int);
    assert(fragments.take(fragments.len() as int) == fragments);
}

/// What the first `n` fragments show of themselves in a window that starts
/// at column 0 and ends at or after their end: the glyph of each.
proof fn lemma_whole_window(fragments: Seq<Fragment>, n: int, end: int)
    requires
        0 <= n <= fragments.len(),
        columns_before(fragments, n) <= end,
    ensures
        window_of_first(fragments, n, 0, end) == fragments.take(n).map_values(
            |f: Fragment| glyph(f),
        ).flatten(),
    decreases n,
{
    let glyphs = fragments.take(n).map_values(|f: Fragment| glyph(f));
    if n > 0 {
        lemma_whole_window(fragments, n - 1, end);
        let before = fragments.take(n - 1).map_values(|f: Fragment| glyph(f));
        assert(glyphs == before.push(glyph(fragments[n - 1])));
        before.lemma_flatten_push(glyph(fragments[n - 1]));
    }
}

/// A line in which every cluster takes one column and is shown as it is
/// reads, over its whole width, as the text it was made from.
pub proof fn lemma_plain_line_shows_its_text(text: Seq<char>, fragments: Seq<Fragment>)
    requires
        is_partition(text, graphemes(fragments)),
        forall|i: int|
            0 <= i < fragments.len() ==> (#[trigger] fragments[i]).width == GraphemeWidth::Half
                && fragments[i].replacement is None,
    ensures
        window(fragments, 0, fragments.len() as int) == text,
{
    let n = fragments.len() as int;
    lemma_half_columns(fragments, n);
    lemma_whole_window(fragments, n, n);
    assert(fragments.take(n) == fragments);
    assert(fragments.map_values(|f: Fragment| glyph(f)) == graphemes(fragments));
}

/// An empty or inverted range of columns shows nothing of any line.
pub proof fn lemma_empty_range_shows_nothing(fragments: Seq<Fragment>, start: int, end: int)
    requires
        start >= end,
    ensures
        window(fragments, start, end) == Seq::<char>::empty(),
{
}

/// Where every fragment takes one column, a fragment starts at the column
/// of its index.
proof fn lemma_half_columns(fragments: Seq<Fragment>, n: int)
    requires
        0 <= n <= fragments.len(),
        forall|i: int|
            0 <= i < fragments.len() ==> (#[trigger] fragments[i]).width == GraphemeWidth::Half,
    ensures
        columns_before(fragments, n) == n,
    decreases n,
{
    if n > 0 {
        lemma_half_columns(fragments, n - 1);
    }
}

/// A window from the start of the line that ends in the middle of a
/// cluster of two columns shows an ellipsis last, in place of the cluster.
pub proof fn lemma_cut_cluster_shows_ellipsis(fragments: Seq<Fragment>, k: int)
    requires
        0 <= k < fragments.len(),
        fragments[k].width == GraphemeWidth::Full,
    ensures
        ({
            let shown = window(fragments, 0, (columns_before(fragments, k) + 1) as int);
            shown.len() > 0 && shown.last() == ELLIPSIS
        }),
{
    let end = (columns_before(fragments, k) + 1) as int;
    lemma_window_stops(fragments, k + 1, fragments.len() as int, 0, end);
}

/// The columns of a window that the first `n` fragments fill are columns
/// that they cover.
proof fn lemma_window_columns_of_first(fragments: Seq<Fragment>, n: int, start: int, end: int)
    requires
        0 <= n <= fragments.len(),
        0 <= start < end,
    ensures
        window_columns_of_first(fragments, n, start, end) <= vstd::math::max(
            0,
            vstd::math::min(columns_before(fragments, n) as int, end) - start,
        ),
    decreases n,
{
    if n > 0 {
        lemma_window_columns_of_first(fragments, n - 1, start, end);
    }
}

/// A window fills no more columns than it spans, counting a glyph by the
/// columns of its cluster and an ellipsis as one: a cluster that would
/// reach over an edge is cut, not shown.
pub proof fn lemma_window_fits(fragments: Seq<Fragment>, start: int, end: int)
    requires
        0 <= start < end,
    ensures
        window_columns_of_first(fragments, fragments.len() as int, start, end) <= end - start,
{
    lemma_window_columns_of_first(fragments, fragments.len() as int, start, end);
}

} // verus!
