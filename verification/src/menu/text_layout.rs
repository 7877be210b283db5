//! Splitting text over display lines of a given width.
//!
//! The text is laid out source line by source line; a source line ends at a
//! line feed. Within a source line, words are what single spaces separate.
//! Words go onto a display line as long as they fit. A word that does not
//! fit either starts a fresh display line or, where that leaves at least
//! [`TEXT_WRAPPING_MIN_SEGMENT_SIZE`] columns of it on either side, is split
//! in place. A word that a fresh display line cannot hold is split as well.
//! A word is only ever split between two grapheme clusters, and a display
//! line that ends inside a word is marked to be shown with a dash.
//!
//! Where the words go depends on nothing but how wide each word is and how
//! long and how wide its grapheme clusters are: [`put_word`] places a word of
//! which these are given, and the layout of a text is what comes of placing
//! its words as they are measured.

use vstd::prelude::*;
use crate::menu::measure::{
    chars_of,
    count_graphemes,
    display_width,
    grapheme_clusters,
    graphemes_of,
    joined_len,
    lemma_joined_len_prefix,
    partitions,
    str_width,
    texts,
};

verus! {

/// The smallest size a segment will be when a word is split in place
pub const TEXT_WRAPPING_MIN_SEGMENT_SIZE: usize = 5;

/// A display line as the layout describes it: which characters of the source
/// it shows, whether it ends inside a word, and how many columns it takes.
pub struct Span {
    /// The place of the first character of the line
    pub start: int,
    /// The place after the last character of the line
    pub end: int,
    /// Whether the line ends inside a word and is shown with a dash
    pub dash: bool,
    /// The columns that the layout counts for the line, without the dash: the
    /// width of each word that stands whole on it, of each cluster of a word
    /// that was split, and one for each space between two words
    pub columns: nat,
}

/// How large a grapheme cluster is.
pub struct Extent {
    /// The number of its characters
    pub len: nat,
    /// The number of columns that it takes
    pub width: nat,
}

/// The layout of a source line while it is being made.
pub struct Cursor {
    /// The display lines that are finished
    pub rows: Seq<Span>,
    /// Where the display line that is being filled starts
    pub start: int,
    /// Where it ends so far
    pub end: int,
    /// The columns that it takes so far
    pub x: nat,
    /// Whether nothing has been put on it yet
    pub fresh: bool,
}

impl Cursor {
    /// The layout before anything has been laid out.
    pub open spec fn initial() -> Cursor {
        Cursor { rows: Seq::empty(), start: 0, end: 0, x: 0, fresh: true }
    }

    /// The display line that is being filled, as it stands.
    pub open spec fn row(self, dash: bool) -> Span {
        Span { start: self.start, end: self.end, dash, columns: self.x }
    }

    /// The layout after the display line that is being filled was ended and
    /// a fresh one begun at `at`.
    pub open spec fn broken(self, at: int) -> Cursor {
        Cursor { rows: self.rows.push(self.row(false)), start: at, end: at, x: 0, fresh: true }
    }

    /// The columns that are left on the display line that is being filled.
    pub open spec fn left(self, max: nat) -> nat {
        if self.x <= max {
            (max - self.x) as nat
        } else {
            0
        }
    }
}

/// The layout after one more cluster of a word that is being split: the
/// cluster at `[from, to)`, which is `width` columns wide, `first` or not in
/// its word, and `last` or not. The cluster stays on the display line if
/// nothing is on the line yet, or if it fits together with the space before
/// a first cluster and the dash after a cluster that is not the last.
/// Otherwise the display line ends before it, with a dash unless the
/// cluster is the first of its word, and the cluster begins the next line.
pub open spec fn spell_one(
    c: Cursor,
    from: int,
    to: int,
    width: nat,
    first: bool,
    last: bool,
    max: nat,
) -> Cursor {
    let gap: nat = if first && !c.fresh {
        1
    } else {
        0
    };
    let tail: nat = if last {
        0
    } else {
        1
    };
    if c.fresh || c.x + gap + width + tail <= max {
        Cursor { end: to, x: c.x + gap + width, fresh: false, ..c }
    } else {
        Cursor { rows: c.rows.push(c.row(!first)), start: from, end: to, x: width, fresh: false }
    }
}

/// The number of characters in the first `n` of the clusters of these
/// sizes.
pub open spec fn offset(extents: Seq<Extent>, n: int) -> int
    decreases n,
{
    if n <= 0 {
        0
    } else {
        offset(extents, n - 1) + extents[n - 1].len
    }
}

/// The layout after the first `n` clusters of a word that starts at `at` and
/// whose clusters have the sizes `extents`.
pub open spec fn spell(c: Cursor, at: int, extents: Seq<Extent>, n: int, max: nat) -> Cursor
    decreases n,
{
    if n <= 0 {
        c
    } else {
        let from = at + offset(extents, n - 1);
        spell_one(
            spell(c, at, extents, n - 1, max),
            from,
            from + extents[n - 1].len,
            extents[n - 1].width,
            n == 1,
            n == extents.len(),
            max,
        )
    }
}

/// Whether a word of `width` columns that does not fit onto the display
/// line is split in place: both what stays on the line and what goes to the
/// next take at least the minimum segment size.
pub open spec fn splits_in_place(c: Cursor, width: nat, max: nat) -> bool {
    c.left(max) >= TEXT_WRAPPING_MIN_SEGMENT_SIZE && width >= c.left(max)
        + TEXT_WRAPPING_MIN_SEGMENT_SIZE
}

/// The layout after the word at `[from, to)`, which is `width` columns wide
/// and whose clusters have the sizes `extents`. A word that fits, after a
/// space if the display line holds something, goes onto the line. Else the
/// line is ended and a fresh one begun, unless the line is fresh or the word
/// is split in place. A word that then stands at the start of a fresh line
/// which can hold it goes onto that line whole; any other is split cluster by
/// cluster.
pub open spec fn place_measured(
    c: Cursor,
    from: int,
    to: int,
    width: nat,
    extents: Seq<Extent>,
    max: nat,
) -> Cursor {
    let gap: nat = if c.fresh {
        0
    } else {
        1
    };
    if c.x + gap + width <= max {
        Cursor { end: to, x: c.x + gap + width, fresh: false, ..c }
    } else {
        let c1 = if !c.fresh && !splits_in_place(c, width, max) {
            c.broken(from)
        } else {
            c
        };
        if c1.fresh && width <= max {
            Cursor { end: to, x: width, fresh: false, ..c1 }
        } else {
            Cursor { end: to, fresh: false, ..spell(c1, from, extents, extents.len() as int, max) }
        }
    }
}

/// The sizes of `clusters`: the number of characters of each, and the columns
/// that each takes.
pub open spec fn measured(clusters: Seq<Seq<char>>) -> Seq<Extent> {
    Seq::new(
        clusters.len(),
        |k: int| Extent { len: clusters[k].len(), width: display_width(clusters[k]) },
    )
}

/// The layout after the word at `[from, to)` of `line`: the word is placed
/// as it is measured.
pub open spec fn place_word(c: Cursor, line: Seq<char>, from: int, to: int, max: nat) -> Cursor {
    let word = line.subrange(from, to);
    place_measured(c, from, to, display_width(word), measured(grapheme_clusters(word)), max)
}

/// Where the word that ends at `n` starts: after the last space before `n`.
pub open spec fn word_start(line: Seq<char>, n: int) -> int
    decreases n,
{
    if n <= 0 {
        0
    } else if line[n - 1] == ' ' {
        n
    } else {
        word_start(line, n - 1)
    }
}

/// The layout after the words of `line` up to the one that ends at `n`.
pub open spec fn lay(line: Seq<char>, n: int, max: nat) -> Cursor
    decreases n,
{
    let from = word_start(line, n);
    if from <= 0 || from > n {
        place_word(Cursor::initial(), line, 0, n, max)
    } else {
        place_word(lay(line, from - 1, max), line, from, n, max)
    }
}

/// The display lines of a source line.
pub open spec fn line_layout(line: Seq<char>, max: nat) -> Seq<Span> {
    let c = lay(line, line.len() as int, max);
    c.rows.push(c.row(false))
}

/// Where the source line that ends at `n` starts: after the last line feed
/// before `n`.
pub open spec fn line_start(text: Seq<char>, n: int) -> int
    decreases n,
{
    if n <= 0 {
        0
    } else if text[n - 1] == '\n' {
        n
    } else {
        line_start(text, n - 1)
    }
}

/// `rows` moved `by` characters on.
pub open spec fn shifted(rows: Seq<Span>, by: int) -> Seq<Span> {
    Seq::new(
        rows.len(),
        |k: int|
            Span {
                start: rows[k].start + by,
                end: rows[k].end + by,
                dash: rows[k].dash,
                columns: rows[k].columns,
            },
    )
}

/// The display lines of the source lines of `text` up to the one that ends
/// at `n`.
pub open spec fn text_rows(text: Seq<char>, n: int, max: nat) -> Seq<Span>
    decreases n,
{
    let from = line_start(text, n);
    let rows = shifted(line_layout(text.subrange(from, n), max), from);
    if from <= 0 || from > n {
        shifted(line_layout(text.subrange(0, n), max), 0)
    } else {
        text_rows(text, from - 1, max) + rows
    }
}

/// The display lines of `text` at a width of `max` columns.
pub open spec fn layout(text: Seq<char>, max: nat) -> Seq<Span> {
    text_rows(text, text.len() as int, max)
}

/// Whether each cluster of these sizes is narrower than `max` columns, so
/// that it fits onto a display line together with a dash.
pub open spec fn narrow(extents: Seq<Extent>, max: nat) -> bool {
    forall|k: int| 0 <= k < extents.len() ==> (#[trigger] extents[k]).width + 1 <= max
}

/// Whether every grapheme cluster of `word` is narrower than `max` columns,
/// so that it fits onto a display line together with a dash.
pub open spec fn narrow_word(word: Seq<char>, max: nat) -> bool {
    narrow(measured(grapheme_clusters(word)), max)
}

/// Whether every grapheme cluster of every word of `line` up to the word
/// that ends at `n` is narrower than `max` columns.
pub open spec fn narrow_line(line: Seq<char>, n: int, max: nat) -> bool
    decreases n,
{
    let from = word_start(line, n);
    if from <= 0 || from > n {
        narrow_word(line.subrange(0, n), max)
    } else {
        narrow_word(line.subrange(from, n), max) && narrow_line(line, from - 1, max)
    }
}

/// Whether every grapheme cluster of every word of every source line of
/// `text` up to the line that ends at `n` is narrower than `max` columns.
pub open spec fn narrow_text(text: Seq<char>, n: int, max: nat) -> bool
    decreases n,
{
    let from = line_start(text, n);
    if from <= 0 || from > n {
        narrow_line(text.subrange(0, n), n, max)
    } else {
        narrow_line(text.subrange(from, n), n - from, max) && narrow_text(text, from - 1, max)
    }
}

/// Whether a display line, with its dash if it has one, takes no more than
/// `max` columns.
pub open spec fn fits_in(row: Span, max: nat) -> bool {
    row.columns + (if row.dash {
        1nat
    } else {
        0nat
    }) <= max
}

/// Whether each of `rows` takes no more than `max` columns.
pub open spec fn all_fit(rows: Seq<Span>, max: nat) -> bool {
    forall|k: int| 0 <= k < rows.len() ==> fits_in(#[trigger] rows[k], max)
}

/// Whether the display line that starts at `next` follows the display line
/// `row` through `text` without a gap: it starts where `row` ended if `row`
/// ended inside a word, and else after the one character that follows `row`,
/// which is a space or a line feed.
pub open spec fn joins(row: Span, next: int, text: Seq<char>) -> bool {
    if row.dash {
        next == row.end
    } else {
        &&& next == row.end + 1
        &&& 0 <= row.end < text.len()
        &&& text[row.end] == ' ' || text[row.end] == '\n'
    }
}

/// Whether `rows` follow one another through `text` without a gap: the first
/// starts at the start, each starts where the one before it ended, after one
/// character, which is a space or a line feed, unless that one ended inside
/// a word, and the last ends at the end.
pub open spec fn contiguous(rows: Seq<Span>, text: Seq<char>) -> bool {
    &&& rows.len() > 0
    &&& rows[0].start == 0
    &&& rows[rows.len() - 1].end == text.len()
    &&& !rows[rows.len() - 1].dash
    &&& forall|k: int|
        0 <= k < rows.len() - 1 ==> joins(rows[k], (#[trigger] rows[k + 1]).start, text)
}

/// The number of characters that the first `n` of `rows` show.
pub open spec fn shown_chars(rows: Seq<Span>, n: int) -> int
    decreases n,
{
    if n <= 0 {
        0
    } else {
        shown_chars(rows, n - 1) + rows[n - 1].end - rows[n - 1].start
    }
}

/// The number of the first `n` of `rows` that do not end inside a word: after
/// each of them one character of the text is left out.
pub open spec fn breaks(rows: Seq<Span>, n: int) -> int
    decreases n,
{
    if n <= 0 {
        0
    } else {
        breaks(rows, n - 1) + if rows[n - 1].dash {
            0int
        } else {
            1int
        }
    }
}

/// What holds of a layout while it is being made, for a width of `max`
/// columns: the finished display lines fit, and so does the one that is
/// being filled.
pub open spec fn tidy(c: Cursor, max: nat) -> bool {
    &&& all_fit(c.rows, max)
    &&& c.x <= max
    &&& c.fresh ==> c.x == 0
}

/// What holds of a layout of `line` while it is being made: the display
/// lines follow one another without a gap.
pub open spec fn linked(c: Cursor, line: Seq<char>) -> bool {
    &&& c.fresh ==> c.start == c.end
    &&& if c.rows.len() == 0 {
        c.start == 0
    } else {
        &&& c.rows[0].start == 0
        &&& joins(c.rows[c.rows.len() - 1], c.start, line)
        &&& forall|k: int|
            0 <= k < c.rows.len() - 1 ==> joins(c.rows[k], (#[trigger] c.rows[k + 1]).start, line)
    }
}

/// Whether a word that starts at `from` can follow on the layout `c` of
/// `line`: it starts the line that is being filled if that is fresh, and
/// else it stands after the space that follows what is on that line.
pub open spec fn follows(c: Cursor, from: int, line: Seq<char>) -> bool {
    if c.fresh {
        c.start == from
    } else {
        c.end + 1 == from && 0 <= c.end < line.len() && line[c.end] == ' '
    }
}

/// Splitting a word whose clusters are narrow keeps the layout tidy.
pub proof fn lemma_spell_tidy(c: Cursor, at: int, extents: Seq<Extent>, n: int, max: nat)
    requires
        tidy(c, max),
        0 <= n <= extents.len(),
        narrow(extents, max),
    ensures
        tidy(spell(c, at, extents, n, max), max),
        0 < n < extents.len() ==> spell(c, at, extents, n, max).x + 1 <= max,
        n > 0 ==> !spell(c, at, extents, n, max).fresh,
    decreases n,
{
    if n > 0 {
        lemma_spell_tidy(c, at, extents, n - 1, max);
        assert(extents[n - 1].width + 1 <= max);
        if n == 1 {
            assert(spell(c, at, extents, n - 1, max) == c);
        }
    }
}

/// Placing a word whose clusters are narrow keeps the layout tidy.
pub proof fn lemma_place_measured_tidy(
    c: Cursor,
    from: int,
    to: int,
    width: nat,
    extents: Seq<Extent>,
    max: nat,
)
    requires
        tidy(c, max),
        narrow(extents, max),
    ensures
        tidy(place_measured(c, from, to, width, extents, max), max),
{
    let c1 = if !c.fresh && !splits_in_place(c, width, max) {
        c.broken(from)
    } else {
        c
    };
    assert(tidy(c1, max));
    lemma_spell_tidy(c1, from, extents, extents.len() as int, max);
}

/// Laying out words whose clusters are narrow keeps the layout tidy.
pub proof fn lemma_lay_tidy(line: Seq<char>, n: int, max: nat)
    requires
        narrow_line(line, n, max),
    ensures
        tidy(lay(line, n, max), max),
    decreases n,
{
    let from = word_start(line, n);
    if from <= 0 || from > n {
        let word = line.subrange(0, n);
        lemma_place_measured_tidy(
            Cursor::initial(),
            0,
            n,
            display_width(word),
            measured(grapheme_clusters(word)),
            max,
        );
    } else {
        let word = line.subrange(from, n);
        lemma_lay_tidy(line, from - 1, max);
        lemma_place_measured_tidy(
            lay(line, from - 1, max),
            from,
            n,
            display_width(word),
            measured(grapheme_clusters(word)),
            max,
        );
    }
}

/// No display line of a source line is wider than the width it was laid out
/// for, its dash included, provided that every grapheme cluster of the line
/// leaves room for a dash beside it.
pub proof fn lemma_line_fits(line: Seq<char>, max: nat)
    ensures
        narrow_line(line, line.len() as int, max) ==> all_fit(line_layout(line, max), max),
{
    if narrow_line(line, line.len() as int, max) {
        lemma_lay_tidy(line, line.len() as int, max);
    }
}

/// No display line of the source lines of `text` up to the one that ends at
/// `n` is wider than the width, under the same proviso.
pub proof fn lemma_text_rows_fit(text: Seq<char>, n: int, max: nat)
    requires
        narrow_text(text, n, max),
        0 <= n <= text.len(),
    ensures
        all_fit(text_rows(text, n, max), max),
    decreases n,
{
    lemma_line_start_bounds(text, n);
    let from = line_start(text, n);
    if from <= 0 || from > n {
        let line = text.subrange(0, n);
        assert(line.len() == n);
        lemma_line_fits(line, max);
    } else {
        let line = text.subrange(from, n);
        assert(line.len() == n - from);
        lemma_line_fits(line, max);
        lemma_text_rows_fit(text, from - 1, max);
    }
}

/// No display line of a text is wider than the width it was laid out for,
/// its dash included, provided that every grapheme cluster of the text
/// leaves room for a dash beside it.
pub proof fn lemma_layout_fits(text: Seq<char>, max: nat)
    ensures
        narrow_text(text, text.len() as int, max) ==> all_fit(layout(text, max), max),
{
    if narrow_text(text, text.len() as int, max) {
        lemma_text_rows_fit(text, text.len() as int, max);
    }
}

/// A word starts at or before where it ends, and after a space unless it
/// starts the line.
pub proof fn lemma_word_start_bounds(line: Seq<char>, n: int)
    requires
        0 <= n,
    ensures
        0 <= word_start(line, n) <= n,
        word_start(line, n) > 0 ==> line[word_start(line, n) - 1] == ' ',
    decreases n,
{
    if n > 0 && line[n - 1] != ' ' {
        lemma_word_start_bounds(line, n - 1);
    }
}

/// A source line starts at or before where it ends, and after a line feed
/// unless it starts the text.
pub proof fn lemma_line_start_bounds(text: Seq<char>, n: int)
    requires
        0 <= n,
    ensures
        0 <= line_start(text, n) <= n,
        line_start(text, n) > 0 ==> text[line_start(text, n) - 1] == '\n',
    decreases n,
{
    if n > 0 && text[n - 1] != '\n' {
        lemma_line_start_bounds(text, n - 1);
    }
}

/// Splitting a word keeps the display lines linked.
pub proof fn lemma_spell_linked(
    c: Cursor,
    at: int,
    extents: Seq<Extent>,
    n: int,
    max: nat,
    line: Seq<char>,
)
    requires
        linked(c, line),
        follows(c, at, line),
        0 <= n <= extents.len(),
    ensures
        linked(spell(c, at, extents, n, max), line),
        n > 0 ==> spell(c, at, extents, n, max).end == at + offset(extents, n) && !spell(
            c,
            at,
            extents,
            n,
            max,
        ).fresh,
        n == 0 ==> spell(c, at, extents, n, max) == c,
    decreases n,
{
    if n > 0 {
        lemma_spell_linked(c, at, extents, n - 1, max, line);
    }
}

/// Placing a word keeps the display lines linked.
pub proof fn lemma_place_measured_linked(
    c: Cursor,
    from: int,
    to: int,
    width: nat,
    extents: Seq<Extent>,
    max: nat,
    line: Seq<char>,
)
    requires
        linked(c, line),
        follows(c, from, line),
    ensures
        linked(place_measured(c, from, to, width, extents, max), line),
        place_measured(c, from, to, width, extents, max).end == to,
        !place_measured(c, from, to, width, extents, max).fresh,
{
    let c1 = if !c.fresh && !splits_in_place(c, width, max) {
        c.broken(from)
    } else {
        c
    };
    assert(linked(c1, line));
    lemma_spell_linked(c1, from, extents, extents.len() as int, max, line);
}

/// Laying out words keeps the display lines linked.
pub proof fn lemma_lay_linked(line: Seq<char>, n: int, max: nat)
    requires
        0 <= n <= line.len(),
    ensures
        linked(lay(line, n, max), line),
        lay(line, n, max).end == n,
        !lay(line, n, max).fresh,
    decreases n,
{
    lemma_word_start_bounds(line, n);
    let from = word_start(line, n);
    if from <= 0 || from > n {
        let word = line.subrange(0, n);
        lemma_place_measured_linked(
            Cursor::initial(),
            0,
            n,
            display_width(word),
            measured(grapheme_clusters(word)),
            max,
            line,
        );
    } else {
        let word = line.subrange(from, n);
        lemma_lay_linked(line, from - 1, max);
        lemma_place_measured_linked(
            lay(line, from - 1, max),
            from,
            n,
            display_width(word),
            measured(grapheme_clusters(word)),
            max,
            line,
        );
    }
}

/// The display lines of a source line follow one another through the whole
/// line: nothing of the line is left out but the one space at each place
/// where a display line ends between two words, and nothing is shown twice.
pub proof fn lemma_line_is_covered(line: Seq<char>, max: nat)
    ensures
        contiguous(line_layout(line, max), line),
{
    lemma_lay_linked(line, line.len() as int, max);
}

/// The display lines of the source lines of `text` up to the one that ends
/// at `n` follow one another through the text up to `n`.
pub proof fn lemma_text_rows_are_covered(text: Seq<char>, n: int, max: nat)
    requires
        0 <= n <= text.len(),
    ensures
        contiguous(text_rows(text, n, max), text.subrange(0, n)),
    decreases n,
{
    lemma_line_start_bounds(text, n);
    let from = line_start(text, n);
    let upto = text.subrange(0, n);
    if from <= 0 || from > n {
        lemma_line_is_covered(upto, max);
        let rows = line_layout(upto, max);
        let all = shifted(rows, 0);
        assert forall|k: int| 0 <= k < all.len() - 1 implies joins(
            all[k],
            (#[trigger] all[k + 1]).start,
            upto,
        ) by {
            assert(joins(rows[k], rows[k + 1].start, upto));
        }
    } else {
        let line = text.subrange(from, n);
        lemma_line_is_covered(line, max);
        lemma_text_rows_are_covered(text, from - 1, max);
        let earlier = text.subrange(0, from - 1);
        let before = text_rows(text, from - 1, max);
        let rows = line_layout(line, max);
        let moved = shifted(rows, from);
        let all = before + moved;
        assert(all == text_rows(text, n, max));
        assert forall|k: int| 0 <= k < all.len() - 1 implies joins(
            all[k],
            (#[trigger] all[k + 1]).start,
            upto,
        ) by {
            if k + 1 < before.len() {
                assert(all[k + 1] == before[k + 1]);
                assert(all[k] == before[k]);
                assert(joins(before[k], before[k + 1].start, earlier));
                if !before[k].dash {
                    assert(earlier[before[k].end] == upto[before[k].end]);
                }
            } else if k + 1 == before.len() {
                assert(all[k] == before[k]);
                assert(all[k + 1] == moved[0]);
                assert(upto[from - 1] == text[from - 1]);
            } else {
                let j = k - before.len();
                assert(all[k] == moved[j]);
                assert(all[k + 1] == moved[j + 1]);
                assert(joins(rows[j], rows[j + 1].start, line));
                if !rows[j].dash {
                    assert(line[rows[j].end] == upto[rows[j].end + from]);
                }
            }
        }
        assert(all[0] == before[0]);
        assert(all[all.len() - 1] == moved[moved.len() - 1]);
    }
}

/// The display lines of a text follow one another through the whole text:
/// nothing of the text is left out but the one space or line feed at each
/// place where a display line ends between two words, and nothing is shown
/// twice.
pub proof fn lemma_text_is_covered(text: Seq<char>, max: nat)
    ensures
        contiguous(layout(text, max), text),
{
    lemma_text_rows_are_covered(text, text.len() as int, max);
    assert(text.subrange(0, text.len() as int) =~= text);
}

/// Where the first `n` of display lines that follow one another end: after
/// the characters that they show and the one character that is left out
/// after each of them but the last that does not end inside a word.
pub proof fn lemma_rows_add_up(rows: Seq<Span>, text: Seq<char>, n: int)
    requires
        contiguous(rows, text),
        1 <= n <= rows.len(),
    ensures
        shown_chars(rows, n) + breaks(rows, n - 1) == rows[n - 1].end,
    decreases n,
{
    assert(shown_chars(rows, 0) == 0);
    assert(breaks(rows, 0) == 0);
    if n > 1 {
        lemma_rows_add_up(rows, text, n - 1);
        let k = n - 2;
        assert(joins(rows[k], rows[k + 1].start, text));
    }
}

/// The characters that the display lines of a text show and the spaces and
/// line feeds that are left out where a display line ends between two words
/// are, taken together, as many as the text has.
pub proof fn lemma_nothing_is_lost(text: Seq<char>, max: nat)
    ensures
        shown_chars(layout(text, max), layout(text, max).len() as int) + breaks(
            layout(text, max),
            layout(text, max).len() - 1,
        ) == text.len(),
{
    lemma_text_is_covered(text, max);
    lemma_rows_add_up(layout(text, max), text, layout(text, max).len() as int);
}

/// The first `n` of `clusters` hold as many characters as their sizes say.
pub proof fn lemma_offset_of_measured(clusters: Seq<Seq<char>>, n: int)
    requires
        0 <= n <= clusters.len(),
    ensures
        offset(measured(clusters), n) == joined_len(clusters, n),
    decreases n,
{
    if n > 0 {
        lemma_offset_of_measured(clusters, n - 1);
    }
}

/// The first `n` clusters hold no more characters than all of them.
pub proof fn lemma_offset_grows(extents: Seq<Extent>, n: int)
    requires
        0 <= n <= extents.len(),
    ensures
        0 <= offset(extents, n) <= offset(extents, extents.len() as int),
        n < extents.len() ==> offset(extents, n) + extents[n].len <= offset(
            extents,
            extents.len() as int,
        ),
    decreases extents.len() - n,
{
    lemma_offset_is_not_negative(extents, n);
    if n < extents.len() {
        lemma_offset_grows(extents, n + 1);
    }
}

/// The first `n` clusters hold no fewer than no characters.
pub proof fn lemma_offset_is_not_negative(extents: Seq<Extent>, n: int)
    ensures
        0 <= offset(extents, n),
    decreases n,
{
    if n > 0 {
        lemma_offset_is_not_negative(extents, n - 1);
    }
}

/// How large a grapheme cluster is: the number of its characters, and the
/// number of columns that it takes.
#[derive(Debug, Clone, Copy, PartialEq, Eq, Structural)]
pub struct ClusterSize {
    /// The number of its characters
    pub len: usize,
    /// The number of columns that it takes
    pub width: usize,
}

impl ClusterSize {
    /// The size as the layout reads it.
    pub open spec fn extent(self) -> Extent {
        Extent { len: self.len as nat, width: self.width as nat }
    }
}

/// The sizes as the layout reads them.
pub open spec fn extents(sizes: Seq<ClusterSize>) -> Seq<Extent> {
    Seq::new(sizes.len(), |k: int| sizes[k].extent())
}

/// A display line that is finished: which characters of the source line it
/// shows, whether it ends inside a word, and how many columns it takes.
#[derive(Debug, Clone, Copy, PartialEq, Eq, Structural)]
pub struct Row {
    /// The place of the first character of the line
    pub start: usize,
    /// The place after the last character of the line
    pub end: usize,
    /// Whether the line ends inside a word and is shown with a dash
    pub dash: bool,
    /// The columns that the layout counts for the line, without the dash
    pub columns: usize,
}

impl Row {
    /// The display line as the layout describes it.
    pub open spec fn span(self) -> Span {
        Span {
            start: self.start as int,
            end: self.end as int,
            dash: self.dash,
            columns: self.columns as nat,
        }
    }
}

/// The display lines as the layout describes them.
pub open spec fn spans(rows: Seq<Row>) -> Seq<Span> {
    Seq::new(rows.len(), |k: int| rows[k].span())
}

/// The display line that is being filled.
#[derive(Debug, Clone, Copy, PartialEq, Eq, Structural)]
pub struct Pen {
    /// Where the display line starts
    pub start: usize,
    /// Where it ends so far
    pub end: usize,
    /// The columns that it takes so far
    pub x: usize,
    /// Whether nothing has been put on it yet
    pub fresh: bool,
}

impl Pen {
    /// A display line on which nothing has been put takes no columns.
    pub open spec fn wf(self) -> bool {
        self.fresh ==> self.x == 0
    }

    /// The layout that is made of the finished display lines `rows` and of
    /// this one.
    pub open spec fn cursor(self, rows: Seq<Row>) -> Cursor {
        Cursor {
            rows: spans(rows),
            start: self.start as int,
            end: self.end as int,
            x: self.x as nat,
            fresh: self.fresh,
        }
    }

    /// Whether the finished display lines `rows` and this one are the layout
    /// `c`.
    pub open spec fn draws(self, rows: Seq<Row>, c: Cursor) -> bool {
        &&& spans(rows) =~= c.rows
        &&& self.start == c.start
        &&& self.end == c.end
        &&& self.x == c.x
        &&& self.fresh == c.fresh
    }

    /// The display line at the start of a source line.
    pub fn initial() -> (r: Self)
        ensures
            r.wf(),
            r.draws(Seq::empty(), Cursor::initial()),
    {
        Pen { start: 0, end: 0, x: 0, fresh: true }
    }

    /// The display line as a finished one.
    pub fn row(&self, dash: bool) -> (r: Row)
        ensures
            r.span() == self.cursor(Seq::empty()).row(dash),
    {
        Row { start: self.start, end: self.end, dash, columns: self.x }
    }
}

/// Whether the display lines of `rows` from the place `base` on lie in order
/// before `limit`: each starts at or before where it ends, and ends at or
/// before `limit`.
pub open spec fn in_order(rows: Seq<Row>, base: int, limit: int) -> bool {
    forall|k: int| base <= k < rows.len() ==> (#[trigger] rows[k]).start <= rows[k].end <= limit
}

/// Whether `width` more columns, after `gap` columns and before `tail`
/// columns, fit onto a display line of `max` columns of which `x` are taken.
fn fits(x: usize, gap: usize, width: usize, tail: usize, max: usize) -> (r: bool)
    requires
        gap <= 1,
        tail <= 1,
    ensures
        r == (x + gap + width + tail <= max),
{
    x <= max && gap + tail <= max - x && width <= max - x - gap - tail
}

/// Splits a word that starts at `at` and whose clusters have the sizes
/// `clusters` over display lines of `max_width` columns.
fn spell_word(
    rows: &mut Vec<Row>,
    pen: Pen,
    at: usize,
    clusters: &Vec<ClusterSize>,
    max_width: usize,
) -> (r: Pen)
    requires
        pen.wf(),
        at + offset(extents(clusters@), clusters@.len() as int) <= usize::MAX,
    ensures
        r.draws(
            final(rows)@,
            spell(
                pen.cursor(old(rows)@),
                at as int,
                extents(clusters@),
                clusters@.len() as int,
                max_width as nat,
            ),
        ),
        r.wf(),
        final(rows)@.len() >= old(rows)@.len(),
        final(rows)@.subrange(0, old(rows)@.len() as int) == old(rows)@,
        pen.start <= pen.end <= at ==> r.start <= r.end && r.end <= at + offset(
            extents(clusters@),
            clusters@.len() as int,
        ) && in_order(final(rows)@, old(rows)@.len() as int, r.end as int),
        clusters@.len() > 0 ==> r.end == at + offset(
            extents(clusters@),
            clusters@.len() as int,
        ),
        clusters@.len() == 0 ==> r == pen,
{
    let ghost sizes = extents(clusters@);
    let ghost c = pen.cursor(rows@);
    let ghost max = max_width as nat;
    let ghost ordered = pen.start <= pen.end <= at;
    let ghost given = pen;
    let mut pen = pen;
    let mut from: usize = at;
    let mut k: usize = 0;
    let count = clusters.len();
    while k < count
        invariant
            k <= count,
            count == clusters@.len(),
            sizes == extents(clusters@),
            max == max_width,
            at + offset(sizes, count as int) <= usize::MAX,
            from == at + offset(sizes, k as int),
            pen.wf(),
            pen.draws(rows@, spell(c, at as int, sizes, k as int, max)),
            rows@.len() >= old(rows)@.len(),
            rows@.subrange(0, old(rows)@.len() as int) == old(rows)@,
            ordered ==> pen.start <= pen.end <= from && in_order(
                rows@,
                old(rows)@.len() as int,
                pen.end as int,
            ),
            k > 0 ==> pen.end == from,
            k == 0 ==> pen == given,
        decreases count - k,
    {
        proof {
            lemma_offset_grows(sizes, k as int);
            assert(sizes[k as int] == clusters@[k as int].extent());
        }
        let size = clusters[k];
        let to = from + size.len;
        let first = k == 0;
        let last = k + 1 == count;
        let gap: usize = if first && !pen.fresh {
            1
        } else {
            0
        };
        let tail: usize = if last {
            0
        } else {
            1
        };
        let ghost before = rows@;
        if pen.fresh || fits(pen.x, gap, size.width, tail, max_width) {
            pen = Pen { start: pen.start, end: to, x: pen.x + gap + size.width, fresh: false };
        } else {
            let row = pen.row(!first);
            rows.push(row);
            assert(spans(rows@) =~= spans(before).push(row.span()));
            assert(rows@.subrange(0, old(rows)@.len() as int) =~= old(rows)@);
            pen = Pen { start: from, end: to, x: size.width, fresh: false };
        }
        from = to;
        k = k + 1;
    }
    pen
}

/// Places the word at `[from, to)`, which is `width` columns wide and whose
/// grapheme clusters have the sizes `clusters`, on display lines of
/// `max_width` columns: `pen` is the display line that is being filled, and
/// the display lines that the word ends are added to `rows`. Returns the
/// display line that is being filled afterwards.
pub fn put_word(
    rows: &mut Vec<Row>,
    pen: Pen,
    from: usize,
    to: usize,
    width: usize,
    clusters: &Vec<ClusterSize>,
    max_width: usize,
) -> (r: Pen)
    requires
        pen.wf(),
        from + offset(extents(clusters@), clusters@.len() as int) <= usize::MAX,
    ensures
        r.draws(
            final(rows)@,
            place_measured(
                pen.cursor(old(rows)@),
                from as int,
                to as int,
                width as nat,
                extents(clusters@),
                max_width as nat,
            ),
        ),
        r.wf(),
        r.end == to,
        !r.fresh,
        final(rows)@.len() >= old(rows)@.len(),
        final(rows)@.subrange(0, old(rows)@.len() as int) == old(rows)@,
        pen.start <= pen.end <= from <= to && from + offset(
            extents(clusters@),
            clusters@.len() as int,
        ) <= to ==> r.start <= r.end && in_order(final(rows)@, old(rows)@.len() as int, to as int),
{
    let gap: usize = if pen.fresh {
        0
    } else {
        1
    };
    if fits(pen.x, gap, width, 0, max_width) {
        assert(rows@.subrange(0, rows@.len() as int) =~= rows@);
        return Pen { start: pen.start, end: to, x: pen.x + gap + width, fresh: false };
    }
    let left = if pen.x <= max_width {
        max_width - pen.x
    } else {
        0
    };
    let splits = left >= TEXT_WRAPPING_MIN_SEGMENT_SIZE && width
        >= TEXT_WRAPPING_MIN_SEGMENT_SIZE && width - TEXT_WRAPPING_MIN_SEGMENT_SIZE >= left;
    let ghost before = rows@;
    let ghost ordered = pen.start <= pen.end <= from <= to && from + offset(
        extents(clusters@),
        clusters@.len() as int,
    ) <= to;
    let mut pen = pen;
    if !pen.fresh && !splits {
        let row = pen.row(false);
        rows.push(row);
        assert(spans(rows@) =~= spans(before).push(row.span()));
        pen = Pen { start: from, end: from, x: 0, fresh: true };
    }
    assert(ordered ==> pen.start <= pen.end <= from && in_order(
        rows@,
        before.len() as int,
        from as int,
    ));
    assert(rows@.subrange(0, before.len() as int) =~= before);
    if pen.fresh && width <= max_width {
        return Pen { start: pen.start, end: to, x: width, fresh: false };
    }
    let ghost broken = rows@;
    let spelled = spell_word(rows, pen, from, clusters, max_width);
    proof {
        assert forall|k: int| 0 <= k < broken.len() implies rows@[k] == broken[k] by {
            assert(rows@.subrange(0, broken.len() as int)[k] == broken[k]);
        }
        assert(rows@.subrange(0, before.len() as int) =~= before);
        if ordered {
            assert forall|k: int| before.len() <= k < rows@.len() implies (#[trigger] rows@[k]).start
                <= rows@[k].end <= to by {
                if k < broken.len() {
                    assert(rows@[k] == broken[k]);
                }
            }
        }
    }
    Pen { start: spelled.start, end: to, x: spelled.x, fresh: false }
}

/// Measures the grapheme clusters of a word: how many characters each
/// holds, and how many columns each takes.
pub fn measure_clusters(word: &str) -> (r: Vec<ClusterSize>)
    ensures
        extents(r@) == measured(grapheme_clusters(word@)),
        r@.len() == grapheme_clusters(word@).len(),
        offset(extents(r@), r@.len() as int) == word@.len(),
        partitions(grapheme_clusters(word@), word@),
{
    let clusters = graphemes_of(word);
    let ghost parts = grapheme_clusters(word@);
    let mut sizes: Vec<ClusterSize> = Vec::new();
    let mut k: usize = 0;
    while k < clusters.len()
        invariant
            k <= clusters@.len(),
            texts(clusters@) == parts,
            sizes@.len() == k,
            forall|j: int| 0 <= j < k ==> (#[trigger] sizes@[j]).extent() == measured(parts)[j],
        decreases clusters@.len() - k,
    {
        assert(clusters@[k as int]@ == parts[k as int]);
        sizes.push(ClusterSize { len: clusters[k].unicode_len(), width: str_width(clusters[k]) });
        k = k + 1;
    }
    proof {
        assert(extents(sizes@) =~= measured(parts));
        lemma_offset_of_measured(parts, parts.len() as int);
        lemma_joined_len_prefix(parts, parts.len() as int);
    }
    sizes
}

/// One line of text in the formatted output
#[derive(Debug)]
pub struct TextLine<'a> {
    /// The line's content
    pub content: &'a str,
    /// Whether the line's content cuts off in the middle of a word and a dash
    /// should be rendered
    pub dash_at_end: bool,
    /// Length measured in graphemes
    pub length: usize,
    /// The columns that the layout counts for the content
    pub width: usize,
}

impl<'a> TextLine<'a> {
    /// Whether the line is `span` of `source`.
    pub open spec fn shows(&self, source: Seq<char>, span: Span) -> bool {
        &&& 0 <= span.start <= span.end <= source.len()
        &&& self.content@ == source.subrange(span.start, span.end)
        &&& self.dash_at_end == span.dash
        &&& self.length == grapheme_clusters(self.content@).len()
        &&& self.width == span.columns
    }

    /// Whether the line, with its dash if it has one, is no wider than
    /// `max_width` columns.
    pub open spec fn within(&self, max_width: usize) -> bool {
        display_width(self.content@) + (if self.dash_at_end {
            1nat
        } else {
            0nat
        }) <= max_width
    }
}

/// The formatted layout of some text
#[derive(Debug)]
pub struct TextLayout<'a> {
    /// The maximum length of a line. This is measured in columns, not in
    /// characters or graphemes.
    pub max_width: usize,
    /// The formatted lines
    pub lines: Vec<TextLine<'a>>,
}

impl<'a> TextLayout<'a> {
    /// Whether the lines are the display lines `rows` of `source`.
    pub open spec fn shows(&self, source: Seq<char>, rows: Seq<Span>) -> bool {
        &&& self.lines@.len() == rows.len()
        &&& forall|k: int| 0 <= k < rows.len() ==> (#[trigger] self.lines@[k]).shows(source, rows[k])
    }

    /// Creates the layout of `text` for display lines of `max_width`
    /// columns. The text is laid out source line by source line; each
    /// display line shows a piece of the text, knows whether it is to be
    /// shown with a dash, how many grapheme clusters it holds and how many
    /// columns it takes. The display lines follow one another through the
    /// text. Where every grapheme cluster of the text leaves room for a dash
    /// beside it, no display line takes more than `max_width` columns, its
    /// dash included.
    pub fn new(text: &'a str, max_width: usize) -> (r: Self)
        ensures
            r.max_width == max_width,
            r.shows(text@, layout(text@, max_width as nat)),
            contiguous(layout(text@, max_width as nat), text@),
            narrow_text(text@, text@.len() as int, max_width as nat) ==> forall|k: int|
                0 <= k < r.lines@.len() ==> (#[trigger] r.lines@[k]).width + (if r.lines@[k].dash_at_end {
                    1int
                } else {
                    0int
                }) <= max_width,
    {
        let mut s = Self { max_width, lines: Vec::new() };
        let chars = chars_of(text);
        let count = chars.len();
        let ghost max = max_width as nat;
        let mut from: usize = 0;
        let mut i: usize = 0;
        while i < count
            invariant
                i <= chars@.len(),
                count == chars@.len(),
                chars@ == text@,
                from <= i,
                from == line_start(text@, i as int),
                max == max_width,
                s.max_width == max_width,
                s.shows(
                    text@,
                    if from == 0 {
                        Seq::empty()
                    } else {
                        text_rows(text@, from - 1, max)
                    },
                ),
            decreases chars@.len() - i,
        {
            if chars[i] == '\n' {
                s.add_line_of(text, from, i);
                from = i + 1;
            }
            i = i + 1;
        }
        s.add_line_of(text, from, i);
        proof {
            lemma_layout_fits(text@, max);
            lemma_text_is_covered(text@, max);
        }
        s
    }

    /// Adds the source line at `[from, to)` of `text` to the layout.
    fn add_line_of(&mut self, text: &'a str, from: usize, to: usize)
        requires
            from <= to <= text@.len(),
            from == line_start(text@, to as int),
            old(self).shows(
                text@,
                if from == 0 {
                    Seq::empty()
                } else {
                    text_rows(text@, from - 1, old(self).max_width as nat)
                },
            ),
        ensures
            final(self).max_width == old(self).max_width,
            final(self).shows(text@, text_rows(text@, to as int, old(self).max_width as nat)),
    {
        let line = text.substring_char(from, to);
        let ghost max = self.max_width as nat;
        let ghost before = if from == 0 {
            Seq::empty()
        } else {
            text_rows(text@, from - 1, max)
        };
        let ghost rows = line_layout(line@, max);
        self.add_source_line(line);
        proof {
            let moved = shifted(rows, from as int);
            let all = text_rows(text@, to as int, max);
            assert(all =~= before + moved);
            assert forall|k: int| 0 <= k < all.len() implies (#[trigger] self.lines@[k]).shows(
                text@,
                all[k],
            ) by {
                if k < before.len() {
                    assert(self.lines@[k] == old(self).lines@[k]);
                } else {
                    let j = k - before.len();
                    assert(self.lines@[old(self).lines@.len() + j].shows(line@, rows[j]));
                    assert(line@.subrange(rows[j].start, rows[j].end) =~= text@.subrange(
                        rows[j].start + from,
                        rows[j].end + from,
                    ));
                }
            }
        }
    }

    /// Finds the display lines of a source line: each word is measured and
    /// placed.
    fn lay_out(line: &str, max_width: usize) -> (rows: Vec<Row>)
        ensures
            spans(rows@) == line_layout(line@, max_width as nat),
            in_order(rows@, 0, line@.len() as int),
    {
        let chars = chars_of(line);
        let count = chars.len();
        let ghost max = max_width as nat;
        let mut rows: Vec<Row> = Vec::new();
        let mut pen = Pen::initial();
        let mut from: usize = 0;
        let mut i: usize = 0;
        while i < count
            invariant
                i <= chars@.len(),
                count == chars@.len(),
                chars@ == line@,
                from <= i,
                from == word_start(line@, i as int),
                max == max_width,
                pen.wf(),
                pen.draws(
                    rows@,
                    if from == 0 {
                        Cursor::initial()
                    } else {
                        lay(line@, from - 1, max)
                    },
                ),
                pen.start <= pen.end <= from,
                in_order(rows@, 0, from as int),
            decreases chars@.len() - i,
        {
            if chars[i] == ' ' {
                pen = Self::lay_word(line, &mut rows, pen, from, i, max_width);
                from = i + 1;
            }
            i = i + 1;
        }
        pen = Self::lay_word(line, &mut rows, pen, from, i, max_width);
        let ghost before = rows@;
        let row = pen.row(false);
        rows.push(row);
        assert(spans(rows@) =~= spans(before).push(row.span()));
        rows
    }

    /// Measures the word at `[from, to)` of `line` and places it.
    fn lay_word(
        line: &str,
        rows: &mut Vec<Row>,
        pen: Pen,
        from: usize,
        to: usize,
        max_width: usize,
    ) -> (r: Pen)
        requires
            pen.wf(),
            pen.start <= pen.end <= from <= to <= line@.len() <= usize::MAX,
            in_order(old(rows)@, 0, from as int),
        ensures
            r.wf(),
            r.start <= r.end == to,
            in_order(final(rows)@, 0, to as int),
            forall|c: Cursor|
                pen.draws(old(rows)@, c) ==> r.draws(
                    final(rows)@,
                    #[trigger] place_word(c, line@, from as int, to as int, max_width as nat),
                ),
    {
        let word = line.substring_char(from, to);
        let width = str_width(word);
        let clusters = measure_clusters(word);
        let ghost before = rows@;
        let r = put_word(rows, pen, from, to, width, &clusters, max_width);
        proof {
            assert forall|k: int| 0 <= k < rows@.len() implies (#[trigger] rows@[k]).start
                <= rows@[k].end <= to by {
                if k < before.len() {
                    assert(rows@.subrange(0, before.len() as int)[k] == before[k]);
                }
            }
            assert forall|c: Cursor| pen.draws(before, c) implies r.draws(
                rows@,
                #[trigger] place_word(c, line@, from as int, to as int, max_width as nat),
            ) by {
                assert(pen.cursor(before) == c);
            }
        }
        r
    }

    /// Adds a source line to the layout. The line is wrapped, so it may
    /// span several display lines. A line feed in it is a character like
    /// any other.
    pub fn add_source_line(&mut self, line: &'a str)
        ensures
            final(self).max_width == old(self).max_width,
            final(self).lines@.len() == old(self).lines@.len() + line_layout(
                line@,
                old(self).max_width as nat,
            ).len(),
            forall|k: int|
                0 <= k < old(self).lines@.len() ==> final(self).lines@[k] == old(self).lines@[k],
            forall|k: int|
                0 <= k < line_layout(line@, old(self).max_width as nat).len() ==> (
                #[trigger] final(self).lines@[old(self).lines@.len() + k]).shows(
                    line@,
                    line_layout(line@, old(self).max_width as nat)[k],
                ),
            contiguous(line_layout(line@, old(self).max_width as nat), line@),
            narrow_line(line@, line@.len() as int, old(self).max_width as nat) ==> all_fit(
                line_layout(line@, old(self).max_width as nat),
                old(self).max_width as nat,
            ),
    {
        proof {
            lemma_line_fits(line@, self.max_width as nat);
            lemma_line_is_covered(line@, self.max_width as nat);
        }
        let rows = Self::lay_out(line, self.max_width);
        let ghost base = self.lines@.len();
        let mut k: usize = 0;
        while k < rows.len()
            invariant
                k <= rows@.len(),
                self.max_width == old(self).max_width,
                base == old(self).lines@.len(),
                self.lines@.len() == base + k,
                spans(rows@) == line_layout(line@, self.max_width as nat),
                in_order(rows@, 0, line@.len() as int),
                forall|j: int| 0 <= j < base ==> self.lines@[j] == old(self).lines@[j],
                forall|j: int|
                    0 <= j < k ==> (#[trigger] self.lines@[base + j]).shows(
                        line@,
                        spans(rows@)[j],
                    ),
            decreases rows@.len() - k,
        {
            let row = rows[k];
            let content = line.substring_char(row.start, row.end);
            let length = count_graphemes(content);
            self.lines.push(
                TextLine { content, dash_at_end: row.dash, length, width: row.columns },
            );
            k = k + 1;
        }
    }

    /// Tells whether no line, with its dash if it has one, is wider on the
    /// screen than the width that the layout was made for.
    pub fn is_within_width(&self) -> (r: bool)
        ensures
            r == forall|k: int|
                0 <= k < self.lines@.len() ==> (#[trigger] self.lines@[k]).within(self.max_width),
    {
        let mut k: usize = 0;
        while k < self.lines.len()
            invariant
                k <= self.lines@.len(),
                forall|j: int| 0 <= j < k ==> (#[trigger] self.lines@[j]).within(self.max_width),
            decreases self.lines@.len() - k,
        {
            let width = str_width(self.lines[k].content);
            let dash: usize = if self.lines[k].dash_at_end {
                1
            } else {
                0
            };
            if width > self.max_width || dash > self.max_width - width {
                assert(!self.lines@[k as int].within(self.max_width));
                return false;
            }
            k = k + 1;
        }
        true
    }
}

} // verus!
