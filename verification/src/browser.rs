//! A screen that shows either a greeting or a list of entries to pick from.

use crate::keys::{Flow, Key, KeyCode, KeyKind};
use crate::list_state::{offset_of, selected_of};
use ratatui::widgets::ListState;
use vstd::prelude::*;
use vstd::string::*;

verus! {

/// The screens of the browser.
#[derive(Debug, Clone, Copy, PartialEq, Eq, Structural)]
pub enum CurrentScreen {
    /// The greeting.
    Main,
    /// The list.
    List,
}

/// Which screen the browser shows.
#[derive(Debug)]
pub struct App {
    /// The screen on display.
    pub current_screen: CurrentScreen,
}

impl App {
    /// An application that shows the greeting.
    pub fn new() -> (app: App)
        ensures
            app.current_screen == CurrentScreen::Main,
    {
        App { current_screen: CurrentScreen::Main }
    }
}

/// The index selected after moving down from `selected` in a list of `len`
/// entries: the next entry, or the first after the last or with nothing
/// selected.
pub open spec fn index_below(selected: Option<usize>, len: nat) -> usize {
    match selected {
        Some(i) => if i >= len - 1 {
            0
        } else {
            (i + 1) as usize
        },
        None => 0,
    }
}

/// The index selected after moving up from `selected` in a list of `len`
/// entries: the entry before, or the last before the first; the first with
/// nothing selected.
pub open spec fn index_above(selected: Option<usize>, len: nat) -> usize {
    match selected {
        Some(i) => if i == 0 {
            (len - 1) as usize
        } else {
            (i - 1) as usize
        },
        None => 0,
    }
}

/// Entries to pick from, and the selection over them.
pub struct ListWidget {
    /// The entries, in the order in which they are shown.
    pub items: Vec<String>,
    /// The selection, as the screen keeps it.
    pub state: ListState,
}

impl ListWidget {
    /// The selected index, if any.
    pub open spec fn selection(&self) -> Option<usize> {
        selected_of(self.state)
    }

    /// The entries with nothing selected.
    pub fn new(items: Vec<String>) -> (list: ListWidget)
        ensures
            list.items == items,
            list.selection() is None,
            offset_of(list.state) == 0,
    {
        ListWidget { items, state: ListState::default() }
    }

    /// Replaces the entries. The selection is cleared and display starts at
    /// the first entry again.
    pub fn set_items(&mut self, items: Vec<String>)
        ensures
            final(self).items == items,
            final(self).selection() is None,
            offset_of(final(self).state) == 0,
    {
        self.items = items;
        self.state = ListState::default();
    }

    /// Moves the selection one entry down and from the last entry back to
    /// the first; with nothing selected, selects the first. With a
    /// selection, the list must not be empty.
    pub fn next(&mut self)
        requires
            old(self).selection() is Some ==> old(self).items@.len() > 0,
        ensures
            final(self).items == old(self).items,
            final(self).selection() == Some(
                index_below(old(self).selection(), old(self).items@.len()),
            ),
            offset_of(final(self).state) == offset_of(old(self).state),
    {
        let i: usize = match self.state.selected() {
            Some(i) => {
                if i >= self.items.len() - 1 {
                    0
                } else {
                    i + 1
                }
            },
            None => 0,
        };
        self.state.select(Some(i));
    }

    /// Moves the selection one entry up and from the first entry on to the
    /// last; with nothing selected, selects the first. With a selection, the
    /// list must not be empty.
    pub fn previous(&mut self)
        requires
            old(self).selection() is Some ==> old(self).items@.len() > 0,
        ensures
            final(self).items == old(self).items,
            final(self).selection() == Some(
                index_above(old(self).selection(), old(self).items@.len()),
            ),
            offset_of(final(self).state) == offset_of(old(self).state),
    {
        let i: usize = match self.state.selected() {
            Some(i) => {
                if i == 0 {
                    self.items.len() - 1
                } else {
                    i - 1
                }
            },
            None => 0,
        };
        self.state.select(Some(i));
    }

    /// Clears the selection; display starts at the first entry again.
    pub fn unselect(&mut self)
        ensures
            final(self).items == old(self).items,
            final(self).selection() is None,
            offset_of(final(self).state) == 0,
    {
        self.state.select(None);
    }
}

/// Moving over a list that is not empty keeps the selection on an entry.
pub proof fn lemma_moves_stay_in_range(selected: Option<usize>, len: nat)
    requires
        0 < len <= usize::MAX,
        selected matches Some(i) ==> i < len,
    ensures
        index_below(selected, len) < len,
        index_above(selected, len) < len,
{
}

/// On an entry of a list, moving down and then up, or up and then down,
/// leads back to the entry.
pub proof fn lemma_down_and_up_cancel(i: usize, len: nat)
    requires
        i < len <= usize::MAX,
    ensures
        index_above(Some(index_below(Some(i), len)), len) == i,
        index_below(Some(index_above(Some(i), len)), len) == i,
{
}

/// The greeting that the browser starts with.
pub open spec fn welcome() -> Seq<char> {
    "Hello Ratatui! (press 'q' to quit)"@
}

/// What is put before the text of a picked entry.
pub open spec fn picked_prefix() -> Seq<char> {
    "Selected item: "@
}

/// The text of the entry that `l` adds to the list.
pub open spec fn added_entry() -> Seq<char> {
    "Test"@
}

/// The browser: the screen on display, the entries, and the text of the
/// greeting.
pub struct Browser {
    /// The screen on display.
    pub app: App,
    /// The entries to pick from.
    pub events: ListWidget,
    /// The text of the greeting screen.
    pub greeting_text: String,
}

impl Browser {
    /// Whether the browser has an entry to move to.
    pub open spec fn wf(&self) -> bool {
        self.events.items@.len() > 0
    }

    /// The screen shown after a press of `code`.
    pub open spec fn screen_after(&self, code: KeyCode) -> CurrentScreen {
        match code {
            KeyCode::Char(c) => if c == 'l' {
                CurrentScreen::List
            } else if c == 'g' {
                CurrentScreen::Main
            } else {
                self.app.current_screen
            },
            KeyCode::Enter => if self.picks() {
                CurrentScreen::Main
            } else {
                self.app.current_screen
            },
            _ => self.app.current_screen,
        }
    }

    /// Whether enter picks an entry: one is selected, and it exists.
    pub open spec fn picks(&self) -> bool {
        self.events.selection() matches Some(i) && i < self.events.items@.len()
    }

    /// A browser on its greeting screen, with two entries and nothing
    /// selected.
    pub fn new() -> (browser: Browser)
        ensures
            browser.wf(),
            browser.app.current_screen == CurrentScreen::Main,
            browser.events.items@.len() == 2,
            browser.events.items@[0]@ == "Item 1"@,
            browser.events.items@[1]@ == "Item 2"@,
            browser.events.selection() is None,
            browser.greeting_text@ == welcome(),
    {
        let mut items: Vec<String> = Vec::new();
        items.push(String::from_str("Item 1"));
        items.push(String::from_str("Item 2"));
        Browser {
            app: App::new(),
            events: ListWidget::new(items),
            greeting_text: String::from_str("Hello Ratatui! (press 'q' to quit)"),
        }
    }

    /// Handles one key event. Only presses count. `q` ends the program, `l`
    /// shows the list and adds an entry to it, `g` shows the greeting, the
    /// arrows move the selection, and enter makes the selected entry the
    /// text of the greeting and shows it.
    pub fn on_key(&mut self, key: Key) -> (flow: Flow)
        requires
            old(self).wf(),
        ensures
            final(self).wf(),
            flow == if key.kind == KeyKind::Press && key.code == KeyCode::Char('q') {
                Flow::Quit
            } else {
                Flow::Continue
            },
            key.kind != KeyKind::Press ==> *final(self) == *old(self),
            key.kind == KeyKind::Press ==> {
                &&& final(self).app.current_screen == old(self).screen_after(key.code)
                &&& final(self).events.items@ == if key.code == KeyCode::Char('l') {
                    old(self).events.items@.push(final(self).events.items@.last())
                } else {
                    old(self).events.items@
                }
                &&& key.code == KeyCode::Char('l') ==> final(self).events.items@.last()@
                    == added_entry()
                &&& final(self).events.selection() == match key.code {
                    KeyCode::Up | KeyCode::Left => Some(
                        index_above(old(self).events.selection(), old(self).events.items@.len()),
                    ),
                    KeyCode::Down | KeyCode::Right => Some(
                        index_below(old(self).events.selection(), old(self).events.items@.len()),
                    ),
                    _ => old(self).events.selection(),
                }
                &&& final(self).greeting_text@ == if key.code == KeyCode::Enter && old(
                    self,
                ).picks() {
                    picked_prefix() + old(self).events.items@[old(
                        self,
                    ).events.selection().unwrap() as int]@
                } else {
                    old(self).greeting_text@
                }
            },
    {
        match key.kind {
            KeyKind::Press => {},
            _ => {
                return Flow::Continue;
            },
        }
        match key.code {
            KeyCode::Char(c) => {
                if c == 'q' {
                    return Flow::Quit;
                } else if c == 'l' {
                    self.app.current_screen = CurrentScreen::List;
                    self.events.items.push(String::from_str("Test"));
                } else if c == 'g' {
                    self.app.current_screen = CurrentScreen::Main;
                }
            },
            KeyCode::Up | KeyCode::Left => {
                self.events.previous();
            },
            KeyCode::Down | KeyCode::Right => {
                self.events.next();
            },
            KeyCode::Enter => {
                match self.events.state.selected() {
                    Some(index) => {
                        if index < self.events.items.len() {
                            let mut text = String::from_str("Selected item: ");
                            text.append(self.events.items[index].as_str());
                            self.greeting_text = text;
                            self.app.current_screen = CurrentScreen::Main;
                        }
                    },
                    None => {},
                }
            },
            _ => {},
        }
        Flow::Continue
    }
}

} // verus!
