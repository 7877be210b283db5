//! Which part of a list is on the screen.
//!
//! A list that has more items than the screen has rows is shown through a
//! window that starts at an offset. As long as the window does not reach the
//! end of the list, its last row shows a mark that the list goes on, in
//! place of an item.

use vstd::prelude::*;

verus! {

/// Whether a window of `max_lines` rows at `offset` shows, in its last row,
/// that a list of `num_items` items goes on.
pub open spec fn goes_on(num_items: nat, max_lines: nat, offset: nat) -> bool {
    num_items > max_lines && offset + max_lines < num_items
}

/// The number of rows of a window of `max_lines` rows at `offset` that show
/// items of a list of `num_items` items.
pub open spec fn visible_rows(num_items: nat, max_lines: nat, offset: nat) -> nat {
    if goes_on(num_items, max_lines, offset) {
        if max_lines >= 1 {
            (max_lines - 1) as nat
        } else {
            0
        }
    } else if offset <= num_items {
        if num_items - offset <= max_lines {
            (num_items - offset) as nat
        } else {
            max_lines
        }
    } else {
        0
    }
}

/// The greatest offset that a window of `max_lines` rows can have on a list
/// of `num_items` items without running past the end of the list.
pub open spec fn last_offset(num_items: nat, max_lines: nat) -> nat {
    if num_items > max_lines {
        (num_items - max_lines) as nat
    } else {
        0
    }
}

/// The offset of the window for the frame to come, from the offset of the
/// frame before. A list that fits has the offset zero. Otherwise the offset
/// is first brought back to where the window does not run past the end of
/// the list. Then, if the selected item lies above the window, the window
/// starts at it; if it lies at or below the last row that shows an item,
/// the window moves down until the selected item is in that row, but not
/// past the end of the list.
pub open spec fn scrolled(num_items: nat, max_lines: nat, selected: nat, offset: nat) -> nat {
    if num_items <= max_lines {
        0
    } else {
        let kept = if offset > last_offset(num_items, max_lines) {
            last_offset(num_items, max_lines)
        } else {
            offset
        };
        if selected < kept {
            selected
        } else if selected >= kept + visible_rows(num_items, max_lines, kept) {
            let down = selected + 2 - max_lines;
            if down > last_offset(num_items, max_lines) {
                last_offset(num_items, max_lines)
            } else {
                down as nat
            }
        } else {
            kept
        }
    }
}

/// What of a list is on the screen.
#[derive(Debug, Clone, Copy, PartialEq, Eq, Structural)]
pub struct Viewport {
    /// The place in the list of the item in the first row
    pub scroll: usize,
    /// The number of rows that show items
    pub rows: usize,
    /// Whether the row after those shows that the list goes on
    pub ellipsis_at_end: bool,
}

impl Viewport {
    /// Finds what of a list of `num_items` items is on a screen of
    /// `max_lines` rows, given which item is selected and the offset
    /// of the frame before.
    pub fn compute(num_items: usize, max_lines: usize, selected: usize, scroll: usize) -> (r: Self)
        ensures
            r.scroll == scrolled(num_items as nat, max_lines as nat, selected as nat, scroll as nat),
            r.rows == visible_rows(num_items as nat, max_lines as nat, r.scroll as nat),
            r.ellipsis_at_end == goes_on(num_items as nat, max_lines as nat, r.scroll as nat),
            r.scroll <= last_offset(num_items as nat, max_lines as nat),
            r.scroll + r.rows <= num_items,
            selected < num_items && (max_lines >= 2 || num_items <= max_lines || (max_lines == 1
                && selected + 1 == num_items)) ==> r.scroll <= selected < r.scroll + r.rows,
    {
        if num_items <= max_lines {
            return Viewport { scroll: 0, rows: num_items, ellipsis_at_end: false };
        }
        let last = num_items - max_lines;
        let kept = if scroll > last {
            last
        } else {
            scroll
        };
        let shown = if kept < last && max_lines >= 1 {
            max_lines - 1
        } else if kept < last {
            0
        } else {
            max_lines
        };
        let scroll = if selected < kept {
            selected
        } else if selected - kept >= shown {
            // `selected + 2 - max_lines`, without a sum that could overflow
            if max_lines >= 2 {
                let down = selected - (max_lines - 2);
                if down > last {
                    last
                } else {
                    down
                }
            } else if selected >= last {
                last
            } else if max_lines == 1 || selected + 1 >= last {
                selected + 1
            } else {
                selected + 2
            }
        } else {
            kept
        };
        let ellipsis_at_end = scroll < last;
        let rows = if ellipsis_at_end && max_lines >= 1 {
            max_lines - 1
        } else if ellipsis_at_end {
            0
        } else {
            max_lines
        };
        Viewport { scroll, rows, ellipsis_at_end }
    }
}

/// The window never runs past the end of the list, and it shows the selected
/// item, whatever the offset was before. This holds of every list that
/// fits, and of every window of two rows or more. The one row of a window of
/// one row is taken by the mark that the list goes on, so that such a window
/// shows nothing but the last item of a list that does not fit.
pub proof fn lemma_selection_is_visible(
    num_items: nat,
    max_lines: nat,
    selected: nat,
    offset: nat,
)
    requires
        selected < num_items,
        max_lines >= 2 || num_items <= max_lines || (max_lines == 1 && selected + 1 == num_items),
    ensures
        ({
            let now = scrolled(num_items, max_lines, selected, offset);
            &&& 0 <= now <= last_offset(num_items, max_lines)
            &&& now <= selected < now + visible_rows(num_items, max_lines, now)
        }),
{
}

/// A window that shows the selected item and does not run past the end of
/// the list stays where it is.
pub proof fn lemma_window_is_stable(num_items: nat, max_lines: nat, selected: nat, offset: nat)
    requires
        offset <= last_offset(num_items, max_lines),
        offset <= selected < offset + visible_rows(num_items, max_lines, offset),
    ensures
        scrolled(num_items, max_lines, selected, offset) == offset,
{
}

} // verus!
