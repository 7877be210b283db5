//! The captain's diary, page by page.

use vstd::prelude::*;
use crate::menu::Screen;

verus! {

/// The number of pages of the diary that hold something.
pub const PAGE_COUNT: u8 = 8;

/// The title of page 0 of the diary.
pub const PAGE_0_TITLE: &'static str =
    "You read the last page: 15/08/2168 - Found someone in the cold";

/// The text of page 0 of the diary.
pub const PAGE_0_TEXT: &'static str =
    "Found a body in the cold. Ship was all busted up so we thought we'd be holding a funeral but turns out they had a pulse. \
They've been out for a few hours now, but still breathing. They look harmless but they're wearing an Arnithian military uniform so we're treating them like a prisoner.";

/// The title of page 1 of the diary.
pub const PAGE_1_TITLE: &'static str =
    "You start at the beginning: 01/01/2168 - Another revolution, another revelation";

/// The text of page 1 of the diary.
pub const PAGE_1_TEXT: &'static str =
    "It occurred to me during the festivities that I didn't know why a revolution was called that. Turns out it's based on roughly the time Earth took to complete one orbit of its star. \
Early humans called it a 'year' and it was an important unit of time due to the seasonal nature of their planet.";

/// The title of page 2 of the diary.
pub const PAGE_2_TITLE: &'static str =
    "03/02/2168 - Big setback today, the Arnithians seem to have ultra-powerful fighter jet engines";

/// The text of page 2 of the diary.
pub const PAGE_2_TEXT: &'static str =
    "They can go from 0-60 in half a second - the engineers reckon that needs 200kN of thrust but the engines don't look much different. Can't imagine what that would do to a pilot's neck";

/// The title of page 3 of the diary.
pub const PAGE_3_TITLE: &'static str =
    "17/02/2168 - More bad news about the new jets";

/// The text of page 3 of the diary.
pub const PAGE_3_TEXT: &'static str =
    "They seem to have some automated dodging capabilities. We can't hit them with anything. Their comms seems to be on all different frequencies and the patterns are all over the place - much faster than normal.";

/// The title of page 4 of the diary.
pub const PAGE_4_TITLE: &'static str =
    "05/04/2168 - Home is in sight";

/// The text of page 4 of the diary.
pub const PAGE_4_TEXT: &'static str =
    "The commander says I can have a few scores off after we pick up the new recruits. Sounds good to me.";

/// The title of page 5 of the diary.
pub const PAGE_5_TITLE: &'static str =
    "01/06/2168 - Something about the new jets seems off";

/// The text of page 5 of the diary.
pub const PAGE_5_TEXT: &'static str =
    "They're messing up all our instruments - according to my scanner, the pilot of one of them was 90 degrees! I'm really not sure what's going on - maybe they're all remote and it's to mess with our heads.\
In any case, whatever they're doing is working. We need to step up our game before they start deploying these everywhere.";

/// The title of page 6 of the diary.
pub const PAGE_6_TITLE: &'static str =
    "20/06/2168 - Going home sooner than I thought";

/// The text of page 6 of the diary.
pub const PAGE_6_TEXT: &'static str =
    "The commander moved forward picking up the recruits because we need more officers on the front lines. I'll be leaving in a few cycles, but it'll only be three of us";

/// The title of page 7 of the diary.
pub const PAGE_7_TITLE: &'static str =
    "10/07/2168 - Had to confiscate the darts";

/// The text of page 7 of the diary.
pub const PAGE_7_TEXT: &'static str =
    "Juuran keeps throwing them at the windows. I know they're double reinforced but from my point of view there's no point in testing that. Besides, it makes a damn annoying noise. \
I've not hidden them but Juuran knows there'll be trouble if they take them.";

/// The title of the diary once it has been read through.
pub const NO_MORE_PAGES_TITLE: &'static str =
    "There's no more pages";

/// The text of the diary once it has been read through.
pub const NO_MORE_PAGES_TEXT: &'static str =
    "How disappointing.";

/// The title of the page that is read when the diary stands at `page`.
pub open spec fn page_title(page: u8) -> &'static str {
    if page == 0 {
        PAGE_0_TITLE
    } else if page == 1 {
        PAGE_1_TITLE
    } else if page == 2 {
        PAGE_2_TITLE
    } else if page == 3 {
        PAGE_3_TITLE
    } else if page == 4 {
        PAGE_4_TITLE
    } else if page == 5 {
        PAGE_5_TITLE
    } else if page == 6 {
        PAGE_6_TITLE
    } else if page == 7 {
        PAGE_7_TITLE
    } else {
        NO_MORE_PAGES_TITLE
    }
}

/// The text of the page that is read when the diary stands at `page`.
pub open spec fn page_text(page: u8) -> &'static str {
    if page == 0 {
        PAGE_0_TEXT
    } else if page == 1 {
        PAGE_1_TEXT
    } else if page == 2 {
        PAGE_2_TEXT
    } else if page == 3 {
        PAGE_3_TEXT
    } else if page == 4 {
        PAGE_4_TEXT
    } else if page == 5 {
        PAGE_5_TEXT
    } else if page == 6 {
        PAGE_6_TEXT
    } else if page == 7 {
        PAGE_7_TEXT
    } else {
        NO_MORE_PAGES_TEXT
    }
}

/// Where the diary stands after the page at `page` has been read: at the
/// next page, or where it stood once there are no more pages.
pub open spec fn page_after(page: u8) -> u8 {
    if page < PAGE_COUNT {
        (page + 1) as u8
    } else {
        page
    }
}

/// Reads the page at which the diary stands: the screen to show, and where
/// the diary stands afterwards.
pub fn read_page(page: u8) -> (r: (Screen<'static>, u8))
    ensures
        r.0.title == page_title(page),
        r.0.content == page_text(page),
        r.1 == page_after(page),
{
    if page == 0 {
        (Screen { title: PAGE_0_TITLE, content: PAGE_0_TEXT }, 1)
    } else if page == 1 {
        (Screen { title: PAGE_1_TITLE, content: PAGE_1_TEXT }, 2)
    } else if page == 2 {
        (Screen { title: PAGE_2_TITLE, content: PAGE_2_TEXT }, 3)
    } else if page == 3 {
        (Screen { title: PAGE_3_TITLE, content: PAGE_3_TEXT }, 4)
    } else if page == 4 {
        (Screen { title: PAGE_4_TITLE, content: PAGE_4_TEXT }, 5)
    } else if page == 5 {
        (Screen { title: PAGE_5_TITLE, content: PAGE_5_TEXT }, 6)
    } else if page == 6 {
        (Screen { title: PAGE_6_TITLE, content: PAGE_6_TEXT }, 7)
    } else if page == 7 {
        (Screen { title: PAGE_7_TITLE, content: PAGE_7_TEXT }, 8)
    } else {
        (Screen { title: NO_MORE_PAGES_TITLE, content: NO_MORE_PAGES_TEXT }, page)
    }
}

} // verus!
