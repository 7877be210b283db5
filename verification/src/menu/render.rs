//! What a terminal front end has to work out before it draws: whether the
//! terminal is large enough, where a title goes and how much of it fits, and
//! how much of a text that is revealed bit by bit is on the screen.

use vstd::prelude::*;
use crate::menu::measure::{
    display_width,
    grapheme_clusters,
    graphemes_of,
    joined,
    lemma_joined_is_prefix,
    lemma_joined_len_prefix,
    str_width,
    texts,
};
use crate::menu::text_layout::{
    extents,
    lemma_offset_grows,
    lemma_offset_of_measured,
    measure_clusters,
    offset,
    ClusterSize,
    TextLayout,
    TextLine,
};
use crate::menu::Error;
use crate::text::{is_same_text, same_text};

verus! {

/// The offset of content from the left hand side of the screen
pub const LEFT_OFFSET: u16 = 3;

/// The offset of content from the top of the screen
pub const TOP_OFFSET: u16 = 2;

/// The offset of content from the bottom of the screen
pub const BOTTOM_OFFSET: u16 = 2;

/// The offset of content from the right hand side of the screen
pub const RIGHT_OFFSET: u16 = 2;

/// The fewest columns of content that a terminal must have room for
pub const MIN_CONTENT_WIDTH: u16 = 50;

/// The fewest rows of content that a terminal must have room for
pub const MIN_CONTENT_HEIGHT: u16 = 10;

/// The target framerate
pub const FPS: u64 = 30;

/// The time that a frame is shown, in milliseconds
pub const MS_PER_FRAME: u64 = 1000 / FPS;

/// The target number of characters to print per second when scrolling text
pub const CHARS_PER_SECOND: u64 = 50;

/// The time after which one more character is revealed, in milliseconds
pub const MS_PER_CHAR: u64 = 1000 / CHARS_PER_SECOND;

/// The mark that stands for what did not fit.
pub const ELLIPSIS: &'static str = "\u{22ef}";

/// Whether a terminal of `width` columns and `height` rows is large enough
/// to draw on.
pub open spec fn large_enough(width: u16, height: u16) -> bool {
    width >= LEFT_OFFSET + RIGHT_OFFSET + MIN_CONTENT_WIDTH && height >= TOP_OFFSET
        + BOTTOM_OFFSET + MIN_CONTENT_HEIGHT
}

/// The room that a terminal has for content.
#[derive(Debug, Clone, Copy, PartialEq, Eq, Structural)]
pub struct Frame {
    /// The width of the terminal
    pub width: u16,
    /// The height of the terminal
    pub height: u16,
    /// The number of rows of content
    pub max_lines: usize,
    /// The number of columns that a title can take
    pub title_width: u16,
    /// The number of columns that a line of a list or of a text can take
    pub text_width: u16,
}

impl Frame {
    /// Gets the room that a terminal of `width` columns and `height` rows
    /// has for content, or `None` if the terminal is too small.
    pub fn new(width: u16, height: u16) -> (r: Option<Self>)
        ensures
            r is Some <==> large_enough(width, height),
            r matches Some(frame) ==> frame.width == width && frame.height == height
                && frame.max_lines == height - TOP_OFFSET - BOTTOM_OFFSET && frame.title_width
                == width - LEFT_OFFSET - RIGHT_OFFSET && frame.text_width == width - LEFT_OFFSET
                - RIGHT_OFFSET - 1,
    {
        if width < LEFT_OFFSET + RIGHT_OFFSET + MIN_CONTENT_WIDTH || height < TOP_OFFSET
            + BOTTOM_OFFSET + MIN_CONTENT_HEIGHT {
            None
        } else {
            let inner = width - LEFT_OFFSET - RIGHT_OFFSET;
            let lines = height - TOP_OFFSET - BOTTOM_OFFSET;
            Some(
                Frame {
                    width,
                    height,
                    max_lines: lines as usize,
                    title_width: inner,
                    text_width: inner - 1,
                },
            )
        }
    }
}

/// How far from the left of its room a text of `text_width` columns starts
/// so as to stand in the middle of a room of `max_width` columns. A text
/// that is wider than its room starts at the left.
pub open spec fn centred(text_width: nat, max_width: u16) -> u16 {
    if text_width >= max_width {
        0
    } else {
        ((max_width - text_width) / 2) as u16
    }
}

/// Finds how far from the left of its room a text starts so as to stand in
/// the middle.
pub fn centred_offset(text_width: usize, max_width: u16) -> (r: u16)
    ensures
        r == centred(text_width as nat, max_width),
{
    if text_width >= max_width as usize {
        0
    } else {
        (max_width - text_width as u16) / 2
    }
}

/// Finds how far from the left of a room of `max_width` columns the text
/// `text` starts so as to stand in the middle.
pub fn centred_start(text: &str, max_width: u16) -> (r: u16)
    ensures
        r == centred(display_width(text@), max_width),
{
    centred_offset(str_width(text), max_width)
}

/// The pattern that is shown at the top and at the bottom of the screen
pub const BORDER_PATTERN_HORIZONTAL: &'static str = "=-";

/// The pattern that is shown at the left and at the right of the screen
pub const BORDER_PATTERN_VERTICAL: &'static str = "\\/";

/// The character in the top left corner of the screen
pub const TOP_LEFT_CORNER: &'static str = "/";

/// The character in the top right corner of the screen
pub const TOP_RIGHT_CORNER: &'static str = "\\";

/// The character in the bottom left corner of the screen
pub const BOTTOM_LEFT_CORNER: &'static str = "\\";

/// The character in the bottom right corner of the screen
pub const BOTTOM_RIGHT_CORNER: &'static str = "/";

/// A border of `n` characters: `pattern` over and over, cut to length. An
/// empty pattern gives an empty border.
pub open spec fn border(pattern: Seq<char>, n: nat) -> Seq<char> {
    if pattern.len() == 0 {
        Seq::empty()
    } else {
        Seq::new(n, |i: int| pattern[i % (pattern.len() as int)])
    }
}

/// The character of a border at the place `i`, as a string: `pattern` is
/// gone through over and over.
pub fn border_piece<'a>(pattern: &'a str, i: usize) -> (r: &'a str)
    ensures
        r@ == if pattern@.len() == 0 {
            Seq::<char>::empty()
        } else {
            seq![pattern@[i as int % (pattern@.len() as int)]]
        },
{
    let len = pattern.unicode_len();
    if len == 0 {
        let r = pattern.substring_char(0, 0);
        assert(r@ =~= Seq::<char>::empty());
        r
    } else {
        let at = i % len;
        let r = pattern.substring_char(at, at + 1);
        assert(r@ =~= seq![pattern@[i as int % (pattern@.len() as int)]]);
        r
    }
}

/// Makes a border of `n` characters.
pub fn border_line(pattern: &str, n: usize) -> (r: String)
    ensures
        r@ == border(pattern@, n as nat),
{
    let mut out = String::new();
    if pattern.unicode_len() == 0 {
        assert(out@ =~= border(pattern@, n as nat));
        return out;
    }
    let mut i: usize = 0;
    while i < n
        invariant
            i <= n,
            pattern@.len() > 0,
            out@ == border(pattern@, i as nat),
        decreases n - i,
    {
        out.append(border_piece(pattern, i));
        assert(out@ =~= border(pattern@, (i + 1) as nat));
        i = i + 1;
    }
    out
}

/// The columns that the first `n` of clusters of these widths take.
pub open spec fn columns(widths: Seq<nat>, n: int) -> nat
    decreases n,
{
    if n <= 0 {
        0
    } else {
        columns(widths, n - 1) + widths[n - 1]
    }
}

/// How many of the first `n` of clusters of these widths are shown in a room
/// of `max` columns: as many, from the first on, as fit.
pub open spec fn shown_count(widths: Seq<nat>, n: int, max: nat) -> int
    decreases n,
{
    if n <= 0 {
        0
    } else if shown_count(widths, n - 1, max) == n - 1 && columns(widths, n) <= max {
        n
    } else {
        shown_count(widths, n - 1, max)
    }
}

/// Whether clusters of these widths cannot be shown in a room of `max_width`
/// columns: the first of them that does not fit is wider than any terminal.
pub open spec fn too_wide(widths: Seq<nat>, max_width: u16) -> bool {
    let shown = shown_count(widths, widths.len() as int, max_width as nat);
    shown < widths.len() && widths[shown] > u16::MAX
}

/// The columns that each of `clusters` takes.
pub open spec fn widths_of(clusters: Seq<Seq<char>>) -> Seq<nat> {
    Seq::new(clusters.len(), |k: int| display_width(clusters[k]))
}

/// The widths as numbers without a bound.
pub open spec fn as_nats(widths: Seq<usize>) -> Seq<nat> {
    Seq::new(widths.len(), |k: int| widths[k] as nat)
}

/// What is shown of `line` in a room of `max_width` columns: the line, or,
/// if it is too wide, as many of its grapheme clusters as fit, followed by
/// the mark that something was left out.
pub open spec fn clipped(line: Seq<char>, max_width: u16) -> Seq<char> {
    let clusters = grapheme_clusters(line);
    let shown = shown_count(widths_of(clusters), clusters.len() as int, max_width as nat);
    if shown < clusters.len() {
        joined(clusters, shown) + ELLIPSIS@
    } else {
        joined(clusters, shown)
    }
}

/// Whether `line` cannot be shown in a room of `max_width` columns: the
/// first of its grapheme clusters that does not fit is wider than any
/// terminal.
pub open spec fn unshowable(line: Seq<char>, max_width: u16) -> bool {
    too_wide(widths_of(grapheme_clusters(line)), max_width)
}

/// Where a line is cut to fit into its room.
#[derive(Debug, Clone, Copy, PartialEq, Eq, Structural)]
pub struct Clip {
    /// How many of the line's grapheme clusters are shown
    pub shown: usize,
    /// Whether the line is cut: the mark that something was left out stands
    /// after what is shown
    pub cut: bool,
}

/// Once a cluster does not fit, no later one is shown.
pub proof fn lemma_cut_stays(widths: Seq<nat>, k: int, n: int, max: nat)
    requires
        0 <= k < n,
        shown_count(widths, k, max) == k,
    ensures
        columns(widths, k + 1) > max ==> shown_count(widths, n, max) == k,
        columns(widths, k + 1) <= max ==> shown_count(widths, k + 1, max) == k + 1,
    decreases n - k,
{
    if n > k + 1 {
        lemma_cut_stays(widths, k, n - 1, max);
    }
}

/// Finds where a line whose grapheme clusters have the widths `widths` is
/// cut to fit into a room of `max_width` columns: as many clusters are
/// shown, from the first on, as fit. It is an error if the first cluster that
/// does not fit is wider than any terminal.
pub fn clip_widths(widths: &Vec<usize>, max_width: u16) -> (r: Result<Clip, Error>)
    ensures
        match r {
            Ok(clip) => {
                &&& !too_wide(as_nats(widths@), max_width)
                &&& clip.shown == shown_count(
                    as_nats(widths@),
                    widths@.len() as int,
                    max_width as nat,
                )
                &&& clip.shown <= widths@.len()
                &&& clip.cut == (clip.shown < widths@.len())
            },
            Err(e) => too_wide(as_nats(widths@), max_width) && e is IncompatibleCharacter,
        },
{
    let ghost all = as_nats(widths@);
    let mut current_width: u16 = 0;
    let mut k: usize = 0;
    while k < widths.len()
        invariant
            k <= widths@.len(),
            all == as_nats(widths@),
            shown_count(all, k as int, max_width as nat) == k,
            current_width == columns(all, k as int),
            current_width <= max_width,
        decreases widths@.len() - k,
    {
        proof {
            lemma_cut_stays(all, k as int, all.len() as int, max_width as nat);
        }
        let width = widths[k];
        if width > u16::MAX as usize {
            return Err(Error::IncompatibleCharacter);
        }
        if width > (max_width - current_width) as usize {
            return Ok(Clip { shown: k, cut: true });
        }
        current_width = current_width + width as u16;
        k = k + 1;
    }
    Ok(Clip { shown: k, cut: false })
}

/// Clips a line of text to a maximum width: what does not fit is cut off
/// and an ellipsis put in its place.
pub fn clip_to_width(line: &str, max_width: u16) -> (r: Result<String, Error>)
    ensures
        match r {
            Ok(text) => !unshowable(line@, max_width) && text@ == clipped(line@, max_width),
            Err(e) => unshowable(line@, max_width) && e is IncompatibleCharacter,
        },
{
    let clusters = graphemes_of(line);
    let ghost parts = grapheme_clusters(line@);
    let mut widths: Vec<usize> = Vec::new();
    let mut k: usize = 0;
    while k < clusters.len()
        invariant
            k <= clusters@.len(),
            texts(clusters@) == parts,
            widths@.len() == k,
            forall|j: int| 0 <= j < k ==> (#[trigger] widths@[j]) == widths_of(parts)[j],
        decreases clusters@.len() - k,
    {
        assert(clusters@[k as int]@ == parts[k as int]);
        widths.push(str_width(clusters[k]));
        k = k + 1;
    }
    assert(as_nats(widths@) =~= widths_of(parts));
    let clip = match clip_widths(&widths, max_width) {
        Ok(clip) => clip,
        Err(e) => {
            return Err(e);
        },
    };
    let mut out = String::new();
    let mut k: usize = 0;
    while k < clip.shown
        invariant
            k <= clip.shown <= clusters@.len(),
            texts(clusters@) == parts,
            out@ == joined(parts, k as int),
        decreases clip.shown - k,
    {
        assert(clusters@[k as int]@ == parts[k as int]);
        out.append(clusters[k]);
        k = k + 1;
    }
    if clip.cut {
        out.append(ELLIPSIS);
    }
    Ok(out)
}

/// The number of characters in the first `n` of clusters of the sizes
/// `sizes`, or in all of them if there are fewer.
pub fn prefix_len(sizes: &Vec<ClusterSize>, n: usize) -> (r: usize)
    requires
        offset(extents(sizes@), sizes@.len() as int) <= usize::MAX,
    ensures
        r == offset(
            extents(sizes@),
            if n <= sizes@.len() {
                n as int
            } else {
                sizes@.len() as int
            },
        ),
{
    let n = if n <= sizes.len() {
        n
    } else {
        sizes.len()
    };
    let mut end: usize = 0;
    let mut k: usize = 0;
    while k < n
        invariant
            k <= n <= sizes@.len(),
            offset(extents(sizes@), sizes@.len() as int) <= usize::MAX,
            end == offset(extents(sizes@), k as int),
        decreases n - k,
    {
        proof {
            lemma_offset_grows(extents(sizes@), k as int);
            assert(extents(sizes@)[k as int] == sizes@[k as int].extent());
        }
        end = end + sizes[k].len;
        k = k + 1;
    }
    end
}

/// The first `n` grapheme clusters of `content`, or all of them if there
/// are fewer.
pub fn grapheme_prefix<'a>(content: &'a str, n: usize) -> (r: &'a str)
    ensures
        r@ == joined(
            grapheme_clusters(content@),
            if n <= grapheme_clusters(content@).len() {
                n as int
            } else {
                grapheme_clusters(content@).len() as int
            },
        ),
{
    let sizes = measure_clusters(content);
    let total = content.unicode_len();
    let end = prefix_len(&sizes, n);
    proof {
        let parts = grapheme_clusters(content@);
        let shown = if n <= parts.len() {
            n as int
        } else {
            parts.len() as int
        };
        lemma_offset_of_measured(parts, shown);
        lemma_offset_of_measured(parts, parts.len() as int);
        lemma_joined_len_prefix(parts, parts.len() as int);
        lemma_joined_is_prefix(parts, shown, parts.len() as int);
    }
    content.substring_char(0, end)
}

/// The number of grapheme clusters in the first `n` of `lines`.
pub open spec fn total_length(lines: Seq<TextLine>, n: int) -> nat
    decreases n,
{
    if n <= 0 {
        0
    } else {
        total_length(lines, n - 1) + lines[n - 1].length as nat
    }
}

/// How many of the first `n` of `lines` are revealed in full once
/// `graphemes` grapheme clusters of the text are revealed: as many, from the
/// first on, as hold no more than that together.
pub open spec fn full_lines(lines: Seq<TextLine>, n: int, graphemes: nat) -> int
    decreases n,
{
    if n <= 0 {
        0
    } else if full_lines(lines, n - 1, graphemes) == n - 1 && total_length(lines, n)
        <= graphemes {
        n
    } else {
        full_lines(lines, n - 1, graphemes)
    }
}

/// The first `m` lines are revealed in full, and the next one is not.
pub proof fn lemma_full_lines(lines: Seq<TextLine>, m: int, n: int, graphemes: nat)
    requires
        0 <= m < n,
        full_lines(lines, m, graphemes) == m,
    ensures
        total_length(lines, m + 1) > graphemes ==> full_lines(lines, n, graphemes) == m,
        total_length(lines, m + 1) <= graphemes ==> full_lines(lines, m + 1, graphemes) == m + 1,
    decreases n - m,
{
    if n > m + 1 {
        lemma_full_lines(lines, m, n - 1, graphemes);
    }
}

/// What of a text that is revealed bit by bit is on the screen.
#[derive(Debug, Clone, Copy, PartialEq, Eq, Structural)]
pub struct Reveal {
    /// The place in the layout of the first line on the screen
    pub first_line: usize,
    /// The number of lines on the screen
    pub line_count: usize,
    /// How many grapheme clusters of the last of these lines are shown, if
    /// not the whole line
    pub partial: Option<usize>,
}

/// What is on a screen of `max_lines` rows once `graphemes` grapheme
/// clusters of a text with the lines `lines` are revealed: the lines that
/// are revealed in full and, unless that is all of them, the one after them
/// as far as it is revealed; of these lines, the last `max_lines`.
pub open spec fn revealed(lines: Seq<TextLine>, graphemes: nat, max_lines: nat) -> Reveal {
    let full = full_lines(lines, lines.len() as int, graphemes);
    let needed = if full == lines.len() {
        full
    } else {
        full + 1
    };
    let skip = if needed > max_lines {
        needed - max_lines
    } else {
        0
    };
    Reveal {
        first_line: skip as usize,
        line_count: (needed - skip) as usize,
        partial: if full == lines.len() {
            None
        } else {
            Some((graphemes - total_length(lines, full)) as usize)
        },
    }
}

/// Finds what of `layout` is on a screen of `max_lines` rows once
/// `graphemes` grapheme clusters are revealed.
pub fn reveal_window(layout: &TextLayout, graphemes: usize, max_lines: usize) -> (r: Reveal)
    ensures
        r == revealed(layout.lines@, graphemes as nat, max_lines as nat),
        r.first_line + r.line_count <= layout.lines@.len(),
        r.line_count <= max_lines,
        r.partial matches Some(shown) ==> r.first_line + r.line_count < layout.lines@.len() + 1
            && (r.line_count > 0 ==> shown < layout.lines@[r.first_line + r.line_count
            - 1].length),
{
    let lines = &layout.lines;
    let count = lines.len();
    let mut so_far: usize = 0;
    let mut full: usize = 0;
    let mut all = true;
    while all && full < count
        invariant
            count == lines@.len(),
            full <= lines@.len(),
            !all ==> lines@[full as int].length > graphemes - so_far,
            full_lines(lines@, full as int, graphemes as nat) == full,
            so_far == total_length(lines@, full as int),
            so_far <= graphemes,
            !all ==> full < lines@.len() && full_lines(
                lines@,
                lines@.len() as int,
                graphemes as nat,
            ) == full,
        decreases lines@.len() - full + (if all { 1int } else { 0int }),
    {
        proof {
            lemma_full_lines(lines@, full as int, lines@.len() as int, graphemes as nat);
        }
        if lines[full].length > graphemes - so_far {
            all = false;
        } else {
            so_far = so_far + lines[full].length;
            full = full + 1;
        }
    }
    let needed = if all {
        full
    } else {
        full + 1
    };
    let skip = if needed > max_lines {
        needed - max_lines
    } else {
        0
    };
    Reveal {
        first_line: skip,
        line_count: needed - skip,
        partial: if all {
            None
        } else {
            Some(graphemes - so_far)
        },
    }
}

/// How a text is revealed over time: bit by bit, until all of it is shown
/// or the user asks for all of it at once.
#[derive(Debug, Clone, Copy, PartialEq, Eq, Structural)]
pub struct Scroll {
    /// The milliseconds that have passed
    pub ms: u64,
    /// Whether all of the text is shown
    pub render_all: bool,
}

impl Scroll {
    /// The milliseconds that have passed after one more frame.
    pub open spec fn later(ms: u64) -> u64 {
        if ms + MS_PER_FRAME > u64::MAX {
            u64::MAX
        } else {
            (ms + MS_PER_FRAME) as u64
        }
    }

    /// Before the first frame.
    pub fn start() -> (r: Self)
        ensures
            r.ms == 0,
            !r.render_all,
    {
        Scroll { ms: 0, render_all: false }
    }

    /// Lets the time of one frame pass and returns how many of the
    /// `num_graphemes` grapheme clusters of the text the frame shows: all
    /// of them once all of the text is shown, else one for each
    /// [`MS_PER_CHAR`] milliseconds that have passed, and no more than there
    /// are. Once the time has come for more than there are, all of the text
    /// is shown.
    pub fn tick(&mut self, num_graphemes: usize) -> (graphemes: usize)
        ensures
            final(self).ms == Self::later(old(self).ms),
            final(self).render_all == (old(self).render_all || final(self).ms / MS_PER_CHAR
                > num_graphemes),
            graphemes == if old(self).render_all || final(self).ms / MS_PER_CHAR > num_graphemes {
                num_graphemes as int
            } else {
                (final(self).ms / MS_PER_CHAR) as int
            },
    {
        self.ms = self.ms.saturating_add(MS_PER_FRAME);
        if self.render_all {
            return num_graphemes;
        }
        let due = self.ms / MS_PER_CHAR;
        if due > num_graphemes as u64 {
            self.render_all = true;
            num_graphemes
        } else {
            due as usize
        }
    }

    /// Takes note of a key press and returns whether the screen is done
    /// with. A key press while the text is still being revealed shows all of
    /// it at once; a key press after that ends the screen.
    pub fn key_pressed(&mut self) -> (done: bool)
        ensures
            done == old(self).render_all,
            final(self).render_all,
            final(self).ms == old(self).ms,
    {
        let done = self.render_all;
        self.render_all = true;
        done
    }
}

/// What the terminal sends for the key that moves up
pub const ANSI_UP: &'static str = "\x1b[A";

/// What the terminal sends for the key that moves down
pub const ANSI_DOWN: &'static str = "\x1b[B";

/// What a key press does to a list.
#[derive(Debug, Clone, Copy, PartialEq, Eq, Structural)]
pub enum ListStep {
    /// The item at this place is the selected one from now on
    Select(usize),
    /// The user has chosen the item at this place
    Choose(usize),
}

/// What the input `input` does to a list of `num_items` items of which the
/// one at `selected` is selected: the key that moves up selects the item
/// before, if there is one; the key that moves down selects the item after,
/// if there is one; the enter key chooses the selected item; anything else
/// changes nothing.
pub open spec fn list_step(selected: usize, num_items: usize, input: &str) -> ListStep {
    if same_text(input, ANSI_UP) && selected != 0 {
        ListStep::Select((selected - 1) as usize)
    } else if same_text(input, ANSI_DOWN) && selected + 1 < num_items {
        ListStep::Select((selected + 1) as usize)
    } else if same_text(input, "\r") || same_text(input, "\n") {
        ListStep::Choose(selected)
    } else {
        ListStep::Select(selected)
    }
}

/// Finds what an input does to a list.
pub fn list_key(selected: usize, num_items: usize, input: &str) -> (r: ListStep)
    ensures
        r == list_step(selected, num_items, input),
{
    if is_same_text(input, ANSI_UP) && selected != 0 {
        ListStep::Select(selected - 1)
    } else if is_same_text(input, ANSI_DOWN) && selected < num_items && selected + 1 < num_items {
        ListStep::Select(selected + 1)
    } else if is_same_text(input, "\r") || is_same_text(input, "\n") {
        ListStep::Choose(selected)
    } else {
        ListStep::Select(selected)
    }
}

/// What the user selected in a list that can be cancelled, which is shown
/// with one more item after the options, for cancelling: `None` if that one
/// was chosen.
pub fn selection_or_cancel(selection: usize, num_options: usize) -> (r: Option<usize>)
    ensures
        r == if selection == num_options {
            None
        } else {
            Some(selection)
        },
{
    if selection == num_options {
        None
    } else {
        Some(selection)
    }
}

} // verus!
