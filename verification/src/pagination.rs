//! Replies of several pages: how many pages a list takes, which entries
//! stand on a page, and which page a button leads to.

use crate::text::same_text;
use vstd::prelude::*;

verus! {

/// How many entries stand on one page.
pub const ENTRIES_PER_PAGE: usize = 12;

/// A button under a reply of several pages.
#[derive(Debug, Clone, Copy, PartialEq, Eq, Structural)]
pub enum Button {
    /// The button that leads one page back.
    Previous,
    /// The button that leads one page on.
    Next,
}

/// The number of pages that a list of entries takes, as far as a byte can
/// tell it: the number of entries over the entries per page, rounded up, and
/// 255 for anything beyond.
pub open spec fn pages_for(entries: nat) -> nat {
    let pages = (entries + ENTRIES_PER_PAGE - 1) / (ENTRIES_PER_PAGE as int);
    if pages > 255 {
        255
    } else {
        pages as nat
    }
}

/// The page that a button leads to from page `current` of `pages`: the one
/// before or after, going round at both ends.
pub open spec fn turned(current: nat, pages: nat, button: Button) -> nat
    recommends
        current < pages,
{
    match button {
        Button::Previous => if current == 0 {
            (pages - 1) as nat
        } else {
            (current - 1) as nat
        },
        Button::Next => if current + 1 >= pages {
            0
        } else {
            current + 1
        },
    }
}

/// The number of pages that a list of entries takes.
pub fn page_count(entries: usize) -> (r: u8)
    ensures
        r == pages_for(entries as nat),
{
    let full: usize = entries / ENTRIES_PER_PAGE;
    let pages: usize = if entries % ENTRIES_PER_PAGE == 0 {
        full
    } else {
        full + 1
    };
    if pages > 255 {
        255
    } else {
        pages as u8
    }
}

/// The entries that stand on a page, as the index of the first and the index
/// behind the last; both are the number of entries for a page that does not
/// exist.
pub fn page_bounds(entries: usize, page: usize) -> (r: (usize, usize))
    ensures
        r.0 <= r.1 <= entries,
        r.1 - r.0 <= ENTRIES_PER_PAGE,
        r.0 == (if page * ENTRIES_PER_PAGE <= entries {
            page * ENTRIES_PER_PAGE
        } else {
            entries as int
        }),
        r.1 == (if (page + 1) * ENTRIES_PER_PAGE <= entries {
            (page + 1) * ENTRIES_PER_PAGE
        } else {
            entries as int
        }),
{
    let first_full: usize = entries / ENTRIES_PER_PAGE;
    if page < first_full {
        (page * ENTRIES_PER_PAGE, (page + 1) * ENTRIES_PER_PAGE)
    } else if page == first_full {
        (page * ENTRIES_PER_PAGE, entries)
    } else {
        assert(page * ENTRIES_PER_PAGE > entries) by (nonlinear_arith)
            requires
                page > entries / ENTRIES_PER_PAGE,
                ENTRIES_PER_PAGE == 12,
        ;
        (entries, entries)
    }
}

/// The place in a reply of several pages: the page that is shown, out of how
/// many.
#[derive(Debug, Clone, Copy, PartialEq, Eq)]
pub struct Pager {
    current: usize,
    pages: usize,
}

impl Pager {
    /// What holds of every place: the page that is shown is one of the
    /// pages.
    #[verifier::type_invariant]
    pub closed spec fn well_formed(self) -> bool {
        self.current < self.pages
    }

    /// The page that is shown, counted from zero.
    pub closed spec fn shown(self) -> nat {
        self.current as nat
    }

    /// The number of pages.
    pub closed spec fn total(self) -> nat {
        self.pages as nat
    }

    /// Starts on the first of `pages` pages; there is no start without a
    /// page.
    pub fn new(pages: usize) -> (r: Option<Pager>)
        ensures
            r is Some <==> pages > 0,
            r is Some ==> r->0.shown() == 0 && r->0.total() == pages,
    {
        if pages == 0 {
            None
        } else {
            Some(Pager { current: 0, pages })
        }
    }

    /// The page that is shown, counted from zero.
    pub fn current(self) -> (r: usize)
        ensures
            r == self.shown(),
            r < self.total(),
    {
        proof {
            use_type_invariant(self);
        }
        self.current
    }

    /// The number of pages.
    pub fn pages(self) -> (r: usize)
        ensures
            r == self.total(),
            r > 0,
    {
        proof {
            use_type_invariant(self);
        }
        self.pages
    }

    /// Follows a button and tells the page to show.
    pub fn turn(&mut self, button: Button) -> (r: usize)
        ensures
            final(self).total() == old(self).total(),
            final(self).shown() == turned(
                old(self).shown(),
                old(self).total(),
                button,
            ),
            r == final(self).shown(),
            r < final(self).total(),
    {
        proof {
            use_type_invariant(&*self);
        }
        let current = match button {
            Button::Previous => if self.current == 0 {
                self.pages - 1
            } else {
                self.current - 1
            },
            Button::Next => if self.current + 1 >= self.pages {
                0
            } else {
                self.current + 1
            },
        };
        self.current = current;
        current
    }
}

/// Tells which button was pressed from the id that came with the press:
/// none where the id is that of neither button.
pub fn read_button(pressed_id: &str, previous_id: &str, next_id: &str) -> (r: Option<Button>)
    ensures
        r == (if pressed_id@ == previous_id@ {
            Some(Button::Previous)
        } else if pressed_id@ == next_id@ {
            Some(Button::Next)
        } else {
            None
        }),
{
    if same_text(pressed_id, previous_id) {
        Some(Button::Previous)
    } else if same_text(pressed_id, next_id) {
        Some(Button::Next)
    } else {
        None
    }
}

/// A button leads to a page that exists, and the other button leads back
/// from there.
pub proof fn lemma_turned(current: nat, pages: nat, button: Button)
    requires
        current < pages,
    ensures
        turned(current, pages, button) < pages,
        turned(turned(current, pages, Button::Next), pages, Button::Previous) == current,
        turned(turned(current, pages, Button::Previous), pages, Button::Next) == current,
        pages == 1 ==> turned(current, pages, button) == current,
{
}

/// Going on from the first page as many times as there are pages leads back
/// to the first page, and fewer times lead to the page of that number.
pub open spec fn turned_on(pages: nat, times: nat) -> nat
    decreases times,
{
    if times == 0 {
        0
    } else {
        turned(turned_on(pages, (times - 1) as nat), pages, Button::Next)
    }
}

/// Going on `times` times from the first page leads to page `times`, and
/// back to the first after as many times as there are pages.
pub proof fn lemma_turned_on(pages: nat, times: nat)
    requires
        pages > 0,
        times <= pages,
    ensures
        times < pages ==> turned_on(pages, times) == times,
        times == pages ==> turned_on(pages, times) == 0,
    decreases times,
{
    if times > 0 {
        lemma_turned_on(pages, (times - 1) as nat);
    }
}

/// The pages hold every entry once: each page starts where the one before
/// ended, the first starts at the first entry, and the last page that the
/// count tells of ends at the last.
pub proof fn lemma_pages_cover(entries: nat)
    ensures
        entries == 0 <==> pages_for(entries) == 0,
        entries <= 255 * ENTRIES_PER_PAGE ==> {
            &&& (pages_for(entries) - 1) * ENTRIES_PER_PAGE < entries || entries == 0
            &&& entries <= pages_for(entries) * ENTRIES_PER_PAGE
        },
{
}

} // verus!
