use vstd::prelude::*;
use vstd::string::StringExecFns;

use std::collections::VecDeque;

use crate::text::{decimal_string, decimal_text, push_char};

verus! {

/// The most lines that the console keeps; older lines are dropped.
pub const DEBUG_CONSOLE_MAX_LINES: usize = 500;

/// The rows of the console panel, border and title included.
pub const DEBUG_CONSOLE_HEIGHT: usize = 9;

/// The log lines that the console popup shows at once.
pub const DEBUG_CONSOLE_POPUP_ROWS: usize = 24;

/// What a debug console is: whether it is shown, its lines oldest first,
/// and how far it is scrolled up and to the right.
#[verifier::ext_equal]
pub struct DebugConsoleView {
    pub visible: bool,
    pub lines: Seq<Seq<char>>,
    pub scroll: nat,
    pub horizontal_scroll: nat,
}

/// `lines` and then `line`, keeping only the newest
/// [`DEBUG_CONSOLE_MAX_LINES`].
pub open spec fn appended_log(lines: Seq<Seq<char>>, line: Seq<char>) -> Seq<Seq<char>> {
    let all = lines.push(line);
    if all.len() > DEBUG_CONSOLE_MAX_LINES {
        all.skip(all.len() - DEBUG_CONSOLE_MAX_LINES)
    } else {
        all
    }
}

/// However many lines come in, the console keeps at most
/// [`DEBUG_CONSOLE_MAX_LINES`], and the newest is the line just added.
pub proof fn law_console_keeps_newest_lines(lines: Seq<Seq<char>>, line: Seq<char>)
    ensures
        appended_log(lines, line).len() <= DEBUG_CONSOLE_MAX_LINES,
        appended_log(lines, line).last() == line,
        lines.len() < DEBUG_CONSOLE_MAX_LINES ==> appended_log(lines, line) == lines.push(line),
{
}

/// The rows of log the console panel has room for.
pub open spec fn visible_rows() -> nat {
    (DEBUG_CONSOLE_HEIGHT - 3) as nat
}

/// How far a console of `count` lines can scroll up.
pub open spec fn max_scroll(count: nat) -> nat {
    if count > visible_rows() {
        (count - visible_rows()) as nat
    } else {
        0
    }
}

/// `text` without its first `count` characters.
pub open spec fn skip_chars(text: Seq<char>, count: nat) -> Seq<char> {
    if count < text.len() {
        text.skip(count as int)
    } else {
        Seq::empty()
    }
}

/// The first line of the console popup: the scroll position out of the
/// largest, and the sideways scroll.
pub open spec fn popup_heading(view: DebugConsoleView) -> Seq<char> {
    let top = max_scroll(view.lines.len());
    let shown = if view.scroll < top {
        (top - view.scroll) as nat
    } else {
        0
    };
    "Debug Console v["@ + decimal_text(shown) + "/"@ + decimal_text(top) + "] h["@ + decimal_text(
        view.horizontal_scroll,
    ) + "] PageUp/PageDown Left/Right"@
}

/// Where the log shown in the popup starts: the newest
/// [`DEBUG_CONSOLE_POPUP_ROWS`] lines, moved up by the scroll.
pub open spec fn popup_start(view: DebugConsoleView) -> nat {
    let newest = if view.lines.len() > DEBUG_CONSOLE_POPUP_ROWS {
        (view.lines.len() - DEBUG_CONSOLE_POPUP_ROWS) as nat
    } else {
        0
    };
    if newest > view.scroll {
        (newest - view.scroll) as nat
    } else {
        0
    }
}

/// Where the log shown in the popup ends.
pub open spec fn popup_end(view: DebugConsoleView) -> nat {
    let end = popup_start(view) + DEBUG_CONSOLE_POPUP_ROWS;
    if end < view.lines.len() {
        end as nat
    } else {
        view.lines.len()
    }
}

/// The lines of the console popup: a heading, a hint, a blank line, then
/// the log lines in view, each scrolled sideways.
pub open spec fn popup_lines(view: DebugConsoleView) -> Seq<Seq<char>> {
    seq![popup_heading(view), "Debug menu -> Toggle debug console hides this popup"@, Seq::empty()]
        + Seq::new(
        (popup_end(view) - popup_start(view)) as nat,
        |row: int| skip_chars(view.lines[popup_start(view) + row], view.horizontal_scroll),
    )
}

/// The views of a sequence of strings.
pub open spec fn views(strings: Seq<String>) -> Seq<Seq<char>> {
    strings.map_values(|text: String| text@)
}

/// The scrolling log of the terminal application.
pub struct DebugConsole {
    visible: bool,
    lines: VecDeque<String>,
    scroll: usize,
    horizontal_scroll: usize,
}

impl View for DebugConsole {
    type V = DebugConsoleView;

    closed spec fn view(&self) -> DebugConsoleView {
        DebugConsoleView {
            visible: self.visible,
            lines: views(self.lines@),
            scroll: self.scroll as nat,
            horizontal_scroll: self.horizontal_scroll as nat,
        }
    }
}

impl DebugConsole {
    /// A hidden, empty console.
    pub fn new() -> (console: Self)
        ensures
            console@ == (DebugConsoleView {
                visible: false,
                lines: Seq::empty(),
                scroll: 0,
                horizontal_scroll: 0,
            }),
    {
        let console = DebugConsole {
            visible: false,
            lines: VecDeque::new(),
            scroll: 0,
            horizontal_scroll: 0,
        };
        assert(views(console.lines@) =~= Seq::empty());
        console
    }

    pub fn is_visible(&self) -> (visible: bool)
        ensures
            visible == self@.visible,
    {
        self.visible
    }

    /// How many lines the console is scrolled up from the bottom.
    pub fn scroll(&self) -> (scroll: usize)
        ensures
            scroll == self@.scroll,
    {
        self.scroll
    }

    pub fn close(&mut self)
        ensures
            final(self)@ == (DebugConsoleView { visible: false, ..old(self)@ }),
    {
        self.visible = false;
    }

    /// Adds `line` at the bottom, drops the oldest line past
    /// [`DEBUG_CONSOLE_MAX_LINES`], and scrolls back to the bottom.
    pub fn push_line(&mut self, line: String)
        ensures
            final(self)@ == (DebugConsoleView {
                lines: appended_log(old(self)@.lines, line@),
                scroll: 0,
                ..old(self)@
            }),
    {
        let ghost before = views(self.lines@);
        let ghost all = before.push(line@);
        self.lines.push_back(line);
        assert(views(self.lines@) =~= all);
        assert(all.skip(0) =~= all);
        while self.lines.len() > DEBUG_CONSOLE_MAX_LINES
            invariant
                self.visible == old(self).visible,
                self.horizontal_scroll == old(self).horizontal_scroll,
                self.lines@.len() <= all.len(),
                all.len() > DEBUG_CONSOLE_MAX_LINES ==> self.lines@.len() >= DEBUG_CONSOLE_MAX_LINES,
                all.len() <= DEBUG_CONSOLE_MAX_LINES ==> self.lines@.len() == all.len(),
                views(self.lines@) == all.skip(all.len() - self.lines@.len()),
            decreases self.lines@.len(),
        {
            let ghost old_lines = self.lines@;
            self.lines.pop_front();
            assert(views(self.lines@) =~= views(old_lines).drop_first());
            assert(all.skip(all.len() - old_lines.len()).drop_first() =~= all.skip(
                all.len() - self.lines@.len(),
            ));
        }
        assert(views(self.lines@) =~= appended_log(before, all.last()));
        self.scroll = 0;
    }

    /// The rows of log the console panel has room for.
    pub fn visible_rows(&self) -> (rows: usize)
        ensures
            rows == visible_rows(),
    {
        DEBUG_CONSOLE_HEIGHT - 3
    }

    /// How far the console can scroll up: the lines beyond one panel.
    pub fn max_scroll(&self) -> (top: usize)
        ensures
            top == max_scroll(self@.lines.len()),
    {
        self.lines.len().saturating_sub(self.visible_rows())
    }

    /// Scrolls up by `amount` lines, no further than [`Self::max_scroll`].
    pub fn scroll_up(&mut self, amount: usize)
        requires
            old(self)@.scroll + amount <= usize::MAX,
        ensures
            final(self)@ == (DebugConsoleView {
                scroll: if old(self)@.scroll + amount < max_scroll(old(self)@.lines.len()) {
                    (old(self)@.scroll + amount) as nat
                } else {
                    max_scroll(old(self)@.lines.len())
                },
                ..old(self)@
            }),
    {
        let top = self.max_scroll();
        let wanted = self.scroll + amount;
        self.scroll = if wanted < top {
            wanted
        } else {
            top
        };
    }

    /// Scrolls down by `amount` lines, no further than the bottom.
    pub fn scroll_down(&mut self, amount: usize)
        ensures
            final(self)@ == (DebugConsoleView {
                scroll: if old(self)@.scroll > amount {
                    (old(self)@.scroll - amount) as nat
                } else {
                    0
                },
                ..old(self)@
            }),
    {
        self.scroll = self.scroll.saturating_sub(amount);
    }

    /// Scrolls left by `amount` characters, no further than the start.
    pub fn scroll_left(&mut self, amount: usize)
        ensures
            final(self)@ == (DebugConsoleView {
                horizontal_scroll: if old(self)@.horizontal_scroll > amount {
                    (old(self)@.horizontal_scroll - amount) as nat
                } else {
                    0
                },
                ..old(self)@
            }),
    {
        self.horizontal_scroll = self.horizontal_scroll.saturating_sub(amount);
    }

    /// Scrolls right by `amount` characters, stopping at `usize::MAX`.
    pub fn scroll_right(&mut self, amount: usize)
        ensures
            final(self)@ == (DebugConsoleView {
                horizontal_scroll: if old(self)@.horizontal_scroll + amount <= usize::MAX {
                    (old(self)@.horizontal_scroll + amount) as nat
                } else {
                    usize::MAX as nat
                },
                ..old(self)@
            }),
    {
        self.horizontal_scroll = self.horizontal_scroll.saturating_add(amount);
    }

    /// Shows or hides the console; on showing it, first adds `world_lines`,
    /// the world's state in words; either way it notes the change.
    pub fn toggle(&mut self, world_lines: Vec<String>)
        ensures
            final(self)@.visible == !old(self)@.visible,
            final(self)@.scroll == 0,
            final(self)@.horizontal_scroll == old(self)@.horizontal_scroll,
            final(self)@.lines == appended_log(
                if old(self)@.visible {
                    old(self)@.lines
                } else {
                    appended_logs(old(self)@.lines, views(world_lines@))
                },
                if old(self)@.visible {
                    "debug console: hidden"@
                } else {
                    "debug console: shown"@
                },
            ),
    {
        self.visible = !self.visible;
        if self.visible {
            let mut rest = world_lines;
            let mut pending: Vec<String> = Vec::new();
            let ghost all = views(rest@);
            while rest.len() > 0
                invariant
                    views(rest@) + views(pending@).reverse() == all,
                decreases rest@.len(),
            {
                let ghost before = rest@;
                if let Some(line) = rest.pop() {
                    let ghost previous = pending@;
                    pending.push(line);
                    assert(views(before) =~= views(rest@).push(pending@.last()@));
                    assert(views(pending@).reverse() =~= seq![pending@.last()@] + views(
                        previous,
                    ).reverse());
                }
            }
            let ghost start = self@.lines;
            assert(views(rest@) =~= Seq::<Seq<char>>::empty());
            assert(views(pending@).reverse() =~= all);
            let ghost mut done: int = 0;
            while pending.len() > 0
                invariant
                    self@.visible,
                    self@.horizontal_scroll == old(self)@.horizontal_scroll,
                    0 <= done <= all.len(),
                    views(pending@).reverse() == all.skip(done),
                    self@.lines == appended_logs(start, all.take(done)),
                decreases pending@.len(),
            {
                let ghost previous = pending@;
                if let Some(line) = pending.pop() {
                    let ghost line_view = line@;
                    assert(views(previous).reverse() =~= seq![line_view] + views(
                        pending@,
                    ).reverse());
                    assert(all.skip(done)[0] == line_view);
                    self.push_line(line);
                    assert(all.take(done + 1).drop_last() =~= all.take(done));
                    assert(all.take(done + 1).last() == line_view);
                    assert(all.skip(done + 1) =~= all.skip(done).drop_first());
                    proof {
                        done = done + 1;
                    }
                }
            }
            assert(all.take(done) =~= all);
            self.push_line("debug console: shown".to_owned());
        } else {
            self.push_line("debug console: hidden".to_owned());
        }
    }

    /// The lines of the console popup while it is shown.
    pub fn popup_lines(&self) -> (lines: Option<Vec<String>>)
        ensures
            !self@.visible ==> lines is None,
            self@.visible ==> lines is Some && views(lines->0@) == popup_lines(self@),
    {
        if !self.visible {
            return None;
        }
        let top = self.max_scroll();
        let newest = self.lines.len().saturating_sub(DEBUG_CONSOLE_POPUP_ROWS);
        let start = newest.saturating_sub(self.scroll);
        let end = if start + DEBUG_CONSOLE_POPUP_ROWS < self.lines.len() {
            start + DEBUG_CONSOLE_POPUP_ROWS
        } else {
            self.lines.len()
        };

        let mut heading = "Debug Console v[".to_owned();
        heading.append(decimal_string(top.saturating_sub(self.scroll)).as_str());
        heading.append("/");
        heading.append(decimal_string(top).as_str());
        heading.append("] h[");
        heading.append(decimal_string(self.horizontal_scroll).as_str());
        heading.append("] PageUp/PageDown Left/Right");

        let mut lines: Vec<String> = Vec::new();
        lines.push(heading);
        lines.push("Debug menu -> Toggle debug console hides this popup".to_owned());
        lines.push(String::new());
        let mut index = start;
        while index < end
            invariant
                start <= index <= end <= self@.lines.len(),
                start == popup_start(self@),
                end == popup_end(self@),
                views(lines@) == popup_lines(self@).take(3 + index - start),
            decreases end - index,
        {
            let line = skip_characters(&self.lines[index], self.horizontal_scroll);
            lines.push(line);
            assert(popup_lines(self@).take(3 + index + 1 - start) =~= popup_lines(self@).take(
                3 + index - start,
            ).push(skip_chars(self@.lines[index as int], self@.horizontal_scroll)));
            index = index + 1;
        }
        assert(popup_lines(self@).take(3 + end - start) =~= popup_lines(self@));
        Some(lines)
    }
}

/// `lines` followed by each of `added` in turn, keeping only the newest
/// [`DEBUG_CONSOLE_MAX_LINES`].
pub open spec fn appended_logs(lines: Seq<Seq<char>>, added: Seq<Seq<char>>) -> Seq<Seq<char>>
    decreases added.len(),
{
    if added.len() == 0 {
        lines
    } else {
        appended_log(appended_logs(lines, added.drop_last()), added.last())
    }
}

/// `text` without its first `count` characters.
fn skip_characters(text: &String, count: usize) -> (rest: String)
    ensures
        rest@ == skip_chars(text@, count as nat),
{
    let mut rest = String::new();
    let mut skipped: usize = 0;
    let ghost mut index: int = 0;
    for character in it: text.as_str().chars()
        invariant
            index == it.index(),
            it.seq() == text@,
            skipped == if index < count {
                index
            } else {
                count as int
            },
            rest@ == skip_chars(text@.take(index), count as nat),
    {
        if skipped < count {
            skipped = skipped + 1;
        } else {
            push_char(&mut rest, character);
        }
        proof {
            assert(skip_chars(text@.take(index + 1), count as nat) =~= if index >= count {
                skip_chars(text@.take(index), count as nat).push(character)
            } else {
                skip_chars(text@.take(index), count as nat)
            });
            index = index + 1;
        }
    }
    assert(text@.take(index) =~= text@);
    rest
}

} // verus!
