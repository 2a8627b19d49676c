use vstd::prelude::*;

verus! {

/// The list of built-in scenes that the terminal application offers, and
/// which of them is shown. The number of scenes is handed to each method
/// that needs it.
#[derive(Debug, Clone, Copy, PartialEq, Eq, Structural)]
pub struct SceneBrowser {
    /// The index of the scene that is shown.
    pub position: usize,
    pub open: bool,
    /// The row the browser has selected.
    pub selected: usize,
}

/// The row above `selected` among `count` rows, wrapping to the last; the
/// first row where there are none.
pub open spec fn row_up(selected: usize, count: usize) -> usize {
    if count == 0 {
        0
    } else if selected == 0 {
        (count - 1) as usize
    } else {
        (selected - 1) as usize
    }
}

/// The row below `selected` among `count` rows, wrapping to the first; the
/// first row where there are none.
pub open spec fn row_down(selected: usize, count: usize) -> usize {
    if count == 0 {
        0
    } else {
        ((selected + 1) % (count as int)) as usize
    }
}

impl SceneBrowser {
    /// The browser opened on the scene that is shown.
    pub open spec fn opened(self) -> Self {
        SceneBrowser { open: true, selected: self.position, ..self }
    }

    /// The selected scene shown and the browser closed.
    pub open spec fn chosen(self) -> Self {
        SceneBrowser { position: self.selected, open: false, ..self }
    }

    /// The first scene shown, the browser closed.
    pub fn new() -> (browser: Self)
        ensures
            browser == (SceneBrowser { position: 0, open: false, selected: 0 }),
    {
        SceneBrowser { position: 0, open: false, selected: 0 }
    }

    /// Opens the browser on the scene that is shown.
    pub fn open(&mut self)
        ensures
            *final(self) == old(self).opened(),
    {
        self.selected = self.position;
        self.open = true;
    }

    pub fn close(&mut self)
        ensures
            *final(self) == (SceneBrowser { open: false, ..*old(self) }),
    {
        self.open = false;
    }

    /// Selects the row above, wrapping to the last of `count` scenes.
    pub fn move_up(&mut self, count: usize)
        ensures
            *final(self) == (SceneBrowser { selected: row_up(old(self).selected, count), ..*old(self) }),
    {
        if count == 0 {
            self.selected = 0;
        } else if self.selected == 0 {
            self.selected = count - 1;
        } else {
            self.selected = self.selected - 1;
        }
    }

    /// Selects the row below, wrapping to the first of `count` scenes.
    pub fn move_down(&mut self, count: usize)
        requires
            count == 0 || old(self).selected < usize::MAX,
        ensures
            *final(self) == (SceneBrowser {
                selected: row_down(old(self).selected, count),
                ..*old(self)
            }),
    {
        if count == 0 {
            self.selected = 0;
        } else {
            self.selected = (self.selected + 1) % count;
        }
    }

    /// Shows the selected scene and closes the browser; returns whether a
    /// scene was chosen, which there is not where there are no scenes.
    pub fn select(&mut self, count: usize) -> (chosen: bool)
        ensures
            chosen == (count > 0),
            chosen ==> *final(self) == old(self).chosen(),
            !chosen ==> *final(self) == (SceneBrowser { open: false, ..*old(self) }),
    {
        if count == 0 {
            self.close();
            return false;
        }
        self.position = self.selected;
        self.close();
        true
    }
}

/// The row below a row is the next one, or the first after the last.
proof fn lemma_next_row(selected: usize, count: usize)
    requires
        selected < count,
    ensures
        row_down(selected, count) == if selected + 1 == count {
            0
        } else {
            selected + 1
        },
{
    if selected + 1 == count {
        vstd::arithmetic::div_mod::lemma_mod_self_0(count as int);
    } else {
        vstd::arithmetic::div_mod::lemma_small_mod((selected + 1) as nat, count as nat);
    }
}

/// Among `count` scenes, moving the browser's selection down and then up
/// comes back to where it was.
pub proof fn law_scene_browser_down_then_up(selected: usize, count: usize)
    requires
        selected < count,
    ensures
        row_up(row_down(selected, count), count) == selected,
{
    lemma_next_row(selected, count);
}

/// Among `count` scenes, moving the browser's selection up and then down
/// comes back to where it was.
pub proof fn law_scene_browser_up_then_down(selected: usize, count: usize)
    requires
        selected < count,
    ensures
        row_down(row_up(selected, count), count) == selected,
{
    lemma_next_row(row_up(selected, count), count);
}

/// Opening the browser and choosing at once keeps the scene that is shown
/// and leaves the browser closed.
pub proof fn law_open_then_choose_keeps_scene(browser: SceneBrowser)
    ensures
        browser.opened().chosen().position == browser.position,
        !browser.opened().chosen().open,
{
}

} // verus!
