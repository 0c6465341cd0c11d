//! Selection state of the main menu a front end shows.

use vstd::prelude::*;

verus! {

/// How many entries the main menu offers.
pub const MENU_ITEMS_COUNT: usize = 6;

/// The cursor of the main menu: an index that wraps around both ways.
#[derive(Clone, Copy, Debug, PartialEq, Eq, Structural)]
pub struct MainMenuScreen {
    pub selected_index: usize,
}

impl Default for MainMenuScreen {
    /// The cursor starts on the first entry.
    fn default() -> (r: Self)
        ensures
            r.selected_index == 0,
    {
        MainMenuScreen { selected_index: 0 }
    }
}

impl MainMenuScreen {
    /// The cursor stays on a menu entry.
    pub open spec fn wf(&self) -> bool {
        self.selected_index < MENU_ITEMS_COUNT
    }

    /// Move one entry down, wrapping to the top.
    pub fn next(&mut self)
        requires
            old(self).wf(),
        ensures
            final(self).wf(),
            final(self).selected_index == (old(self).selected_index + 1) % (
            MENU_ITEMS_COUNT as int),
    {
        self.selected_index = (self.selected_index + 1) % MENU_ITEMS_COUNT;
    }

    /// Move one entry up, wrapping to the bottom.
    pub fn previous(&mut self)
        requires
            old(self).wf(),
        ensures
            final(self).wf(),
            final(self).selected_index == if old(self).selected_index == 0 {
                (MENU_ITEMS_COUNT - 1) as int
            } else {
                old(self).selected_index - 1
            },
    {
        if self.selected_index == 0 {
            self.selected_index = MENU_ITEMS_COUNT - 1;
        } else {
            self.selected_index = self.selected_index - 1;
        }
    }

    /// How many entries there are to cycle through.
    pub fn items_count(&self) -> (r: usize)
        ensures
            r == MENU_ITEMS_COUNT,
    {
        MENU_ITEMS_COUNT
    }
}

} // verus!
