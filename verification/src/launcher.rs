//! The launcher: a list of entries, a command that is started from the
//! keyboard, its output shown line by line, and an input field whose text is
//! sent to the running command.

use crate::command::CommandSpec;
use crate::keys::{Key, KeyCode, KeyKind, Modifiers};
use crate::text::views;
use vstd::prelude::*;
use vstd::string::*;
use vstd::utf8::encode_utf8;

verus! {

/// The screens of the launcher.
#[derive(Debug, Clone, Copy, PartialEq, Eq, Structural)]
pub enum CurrentScreen {
    /// The list of entries to pick from.
    Start,
    /// The picked entry: output above, the input field below.
    Input,
}

/// The settings of the launcher.
#[derive(Debug)]
pub struct Config {
    name: String,
    git_repo_dir: String,
}

impl Config {
    /// The configured name.
    pub closed spec fn spec_name(&self) -> Seq<char> {
        self.name@
    }

    /// The configured directory of git repositories.
    pub closed spec fn spec_git_repo_dir(&self) -> Seq<char> {
        self.git_repo_dir@
    }

    /// Settings with these values.
    pub fn new(name: String, git_repo_dir: String) -> (config: Config)
        ensures
            config.spec_name() == name@,
            config.spec_git_repo_dir() == git_repo_dir@,
    {
        Config { name, git_repo_dir }
    }

    /// The configured name.
    pub fn name(&self) -> (name: &String)
        ensures
            name@ == self.spec_name(),
    {
        &self.name
    }

    /// The configured directory of git repositories.
    pub fn git_repo_dir(&self) -> (dir: &String)
        ensures
            dir@ == self.spec_git_repo_dir(),
    {
        &self.git_repo_dir
    }
}

/// What the event loop has to do after a key.
#[derive(Debug)]
pub enum Request {
    /// Nothing.
    Nothing,
    /// End the program.
    Quit,
    /// Start this command.
    Launch(CommandSpec),
    /// Send this text to the running command as one line of input.
    Send(String),
}

/// The statements of the command that control-c starts: it reads one line
/// and prints it back.
pub open spec fn probe_statements() -> Seq<Seq<char>> {
    seq!["read varname"@, "echo $varname"@]
}

/// What the input field shows of a hidden text: one star for every byte of
/// its UTF-8 encoding.
pub open spec fn mask(text: Seq<char>) -> Seq<char> {
    Seq::new(encode_utf8(text).len(), |i: int| '*')
}

/// The colour of a row.
#[derive(Debug, Clone, Copy, PartialEq, Eq, Structural)]
pub enum Tint {
    /// The colour of the terminal.
    Plain,
    /// Yellow.
    Yellow,
}

/// One row of the list on screen.
#[derive(Debug, PartialEq, Eq)]
pub struct Row {
    /// The text of the row.
    pub text: String,
    /// Its colour.
    pub tint: Tint,
    /// Whether it is set in bold.
    pub bold: bool,
}

/// What the launcher shows, before it is drawn.
#[derive(Debug)]
pub struct Scene {
    /// Whether the list has its frame and title; the start screen does.
    pub framed: bool,
    /// The rows of the list, top to bottom.
    pub rows: Vec<Row>,
    /// The text in the input field, or `None` if the field is not shown.
    pub input: Option<String>,
}

/// The state of the launcher.
#[derive(Debug)]
pub struct App {
    /// The screen on display.
    pub current_screen: CurrentScreen,
    /// The entries to pick from, followed by the output lines received.
    pub items: Vec<String>,
    /// The text typed into the input field so far.
    pub input_buffer: String,
    /// Whether the input field hides what is typed.
    pub show_password_prompt: bool,
    /// Whether the input field takes the keys.
    pub activate_input_field: bool,
    /// The index of the highlighted entry.
    pub selected: usize,
    /// The text of the entry that was picked last.
    pub selected_item: String,
}

impl App {
    /// The highlighted index points at an entry; with no entries it is
    /// zero.
    pub open spec fn wf(&self) -> bool {
        self.selected < self.items@.len() || (self.items@.len() == 0 && self.selected == 0)
    }

    /// Whether `key` goes to the input field: the input screen is shown
    /// after the key's global effect, no modifier is held, and the field is
    /// active.
    pub open spec fn typing(&self, key: Key) -> bool {
        &&& key.code != KeyCode::Esc
        &&& self.current_screen == CurrentScreen::Input
        &&& key.is_plain()
        &&& self.activate_input_field
    }

    /// Whether `key` goes to the list: the start screen is shown after the
    /// key's global effect, no modifier is held, the input field is not
    /// active, and there is an entry to move to.
    pub open spec fn moving(&self, key: Key) -> bool {
        &&& key.code == KeyCode::Esc || self.current_screen == CurrentScreen::Start
        &&& key.is_plain()
        &&& !self.activate_input_field
        &&& self.items@.len() > 0
    }

    /// Whether `key` is handled at all: it is not a release, and it is not
    /// the key that ends the program.
    pub open spec fn handles(&self, key: Key) -> bool {
        key.kind != KeyKind::Release && !key.is_control('q')
    }

    /// The index highlighted after moving down: the next, or the first
    /// after the last.
    pub open spec fn index_below(&self) -> usize {
        ((self.selected + 1) % (self.items@.len() as int)) as usize
    }

    /// The index highlighted after moving up: the one before, or the last
    /// before the first.
    pub open spec fn index_above(&self) -> usize {
        if self.selected == 0 {
            (self.items@.len() - 1) as usize
        } else {
            (self.selected - 1) as usize
        }
    }

    /// A launcher on its start screen with no entries.
    pub fn new() -> (app: App)
        ensures
            app.wf(),
            app.current_screen == CurrentScreen::Start,
            app.items@.len() == 0,
            app.input_buffer@.len() == 0,
            !app.show_password_prompt,
            !app.activate_input_field,
            app.selected == 0,
            app.selected_item@.len() == 0,
    {
        App {
            current_screen: CurrentScreen::Start,
            items: Vec::new(),
            input_buffer: String::new(),
            show_password_prompt: false,
            activate_input_field: false,
            selected: 0,
            selected_item: String::new(),
        }
    }

    /// Highlights the next entry, or the first after the last.
    pub fn next(&mut self)
        requires
            old(self).items@.len() > 0,
            old(self).selected < usize::MAX,
        ensures
            final(self).selected == old(self).index_below(),
            final(self).selected < final(self).items@.len(),
            final(self).items == old(self).items,
            final(self).current_screen == old(self).current_screen,
            final(self).input_buffer == old(self).input_buffer,
            final(self).show_password_prompt == old(self).show_password_prompt,
            final(self).activate_input_field == old(self).activate_input_field,
            final(self).selected_item == old(self).selected_item,
    {
        self.selected = (self.selected + 1) % self.items.len();
    }

    /// Highlights the entry before, or the last before the first.
    pub fn previous(&mut self)
        requires
            old(self).items@.len() > 0,
        ensures
            final(self).selected == old(self).index_above(),
            old(self).wf() ==> final(self).wf(),
            final(self).items == old(self).items,
            final(self).current_screen == old(self).current_screen,
            final(self).input_buffer == old(self).input_buffer,
            final(self).show_password_prompt == old(self).show_password_prompt,
            final(self).activate_input_field == old(self).activate_input_field,
            final(self).selected_item == old(self).selected_item,
    {
        if self.selected == 0 {
            self.selected = self.items.len() - 1;
        } else {
            self.selected -= 1;
        }
    }

    /// Picks the highlighted entry and shows the input screen.
    pub fn select(&mut self)
        requires
            old(self).selected < old(self).items@.len(),
        ensures
            final(self).selected_item@ == old(self).items@[old(self).selected as int]@,
            final(self).current_screen == CurrentScreen::Input,
            final(self).items == old(self).items,
            final(self).selected == old(self).selected,
            final(self).input_buffer == old(self).input_buffer,
            final(self).show_password_prompt == old(self).show_password_prompt,
            final(self).activate_input_field == old(self).activate_input_field,
    {
        self.selected_item = self.items[self.selected].clone();
        self.current_screen = CurrentScreen::Input;
    }

    /// Shows the start screen.
    pub fn back_to_start(&mut self)
        ensures
            final(self).current_screen == CurrentScreen::Start,
            final(self).items == old(self).items,
            final(self).selected == old(self).selected,
            final(self).input_buffer == old(self).input_buffer,
            final(self).show_password_prompt == old(self).show_password_prompt,
            final(self).activate_input_field == old(self).activate_input_field,
            final(self).selected_item == old(self).selected_item,
    {
        self.current_screen = CurrentScreen::Start;
    }

    /// Takes the output lines of one poll: they are added below the entries
    /// in the order in which they came.
    pub fn absorb(&mut self, lines: Vec<String>)
        ensures
            views(final(self).items@) == views(old(self).items@) + views(lines@),
            old(self).wf() ==> final(self).wf(),
            final(self).current_screen == old(self).current_screen,
            final(self).selected == old(self).selected,
            final(self).input_buffer == old(self).input_buffer,
            final(self).show_password_prompt == old(self).show_password_prompt,
            final(self).activate_input_field == old(self).activate_input_field,
            final(self).selected_item == old(self).selected_item,
    {
        let mut lines = lines;
        self.items.append(&mut lines);
    }

    /// The command that control-c starts.
    pub fn probe_command() -> (command: CommandSpec)
        ensures
            command@ == probe_statements(),
    {
        let mut statements: Vec<String> = Vec::new();
        statements.push(String::from_str("read varname"));
        statements.push(String::from_str("echo $varname"));
        CommandSpec::new(statements)
    }

    /// Handles one key event and says what the event loop has to do.
    ///
    /// Releases are ignored. Control-q ends the program. Escape shows the
    /// start screen. Control-c activates the input field and starts the
    /// probe command. Control-s activates the input field and hides what is
    /// typed. A key without modifiers then goes to the input field, if the
    /// input screen is shown and the field is active: characters are added,
    /// backspace removes the last, enter sends the text, empties the field
    /// and deactivates it. Or it goes to the list, if the start screen is
    /// shown and the field is not active: down and up move the highlight,
    /// enter picks. With no entries, the list takes no keys.
    pub fn handle_key(&mut self, key: Key) -> (request: Request)
        requires
            old(self).wf(),
        ensures
            final(self).wf(),
            final(self).items == old(self).items,
            !old(self).handles(key) ==> *final(self) == *old(self),
            key.kind == KeyKind::Release ==> request is Nothing,
            key.kind != KeyKind::Release && key.is_control('q') ==> request is Quit,
            old(self).handles(key) ==> {
                &&& final(self).input_buffer@ == if old(self).typing(key) {
                    match key.code {
                        KeyCode::Char(c) => old(self).input_buffer@.push(c),
                        KeyCode::Backspace => if old(self).input_buffer@.len() > 0 {
                            old(self).input_buffer@.drop_last()
                        } else {
                            old(self).input_buffer@
                        },
                        KeyCode::Enter => Seq::<char>::empty(),
                        _ => old(self).input_buffer@,
                    }
                } else {
                    old(self).input_buffer@
                }
                &&& final(self).activate_input_field == if old(self).typing(key) && key.code
                    == KeyCode::Enter {
                    false
                } else {
                    old(self).activate_input_field || key.is_control('c') || key.is_control('s')
                }
                &&& final(self).show_password_prompt == if old(self).typing(key) && key.code
                    == KeyCode::Enter {
                    false
                } else {
                    old(self).show_password_prompt || key.is_control('s')
                }
                &&& final(self).selected == if old(self).moving(key) {
                    match key.code {
                        KeyCode::Down => old(self).index_below(),
                        KeyCode::Up => old(self).index_above(),
                        _ => old(self).selected,
                    }
                } else {
                    old(self).selected
                }
                &&& final(self).current_screen == if old(self).moving(key) && key.code
                    == KeyCode::Enter {
                    CurrentScreen::Input
                } else if key.code == KeyCode::Esc {
                    CurrentScreen::Start
                } else {
                    old(self).current_screen
                }
                &&& final(self).selected_item@ == if old(self).moving(key) && key.code
                    == KeyCode::Enter {
                    old(self).items@[old(self).selected as int]@
                } else {
                    old(self).selected_item@
                }
                &&& if key.is_control('c') {
                    request matches Request::Launch(command) && command@ == probe_statements()
                } else if old(self).typing(key) && key.code == KeyCode::Enter {
                    request matches Request::Send(text) && text@ == old(self).input_buffer@
                } else {
                    request is Nothing
                }
            },
    {
        match key.kind {
            KeyKind::Release => {
                return Request::Nothing;
            },
            _ => {},
        }
        if key.holds_control('q') {
            return Request::Quit;
        }
        let mut request = Request::Nothing;
        match key.code {
            KeyCode::Esc => {
                self.back_to_start();
            },
            _ => {},
        }
        if key.holds_control('c') {
            self.activate_input_field = true;
            request = Request::Launch(App::probe_command());
        }
        if key.holds_control('s') {
            self.show_password_prompt = true;
            self.activate_input_field = true;
        }
        let plain: bool = match key.modifiers {
            Modifiers::Unmodified => true,
            _ => false,
        };
        match self.current_screen {
            CurrentScreen::Input => {
                if plain && self.activate_input_field {
                    match key.code {
                        KeyCode::Char(c) => {
                            self.input_buffer.push(c);
                        },
                        KeyCode::Backspace => {
                            self.input_buffer.pop();
                        },
                        KeyCode::Enter => {
                            let mut text = String::new();
                            std::mem::swap(&mut text, &mut self.input_buffer);
                            request = Request::Send(text);
                            self.activate_input_field = false;
                            self.show_password_prompt = false;
                        },
                        _ => {},
                    }
                }
            },
            CurrentScreen::Start => {
                if plain && !self.activate_input_field && self.items.len() > 0 {
                    match key.code {
                        KeyCode::Down => {
                            self.next();
                        },
                        KeyCode::Up => {
                            self.previous();
                        },
                        KeyCode::Enter => {
                            self.select();
                        },
                        _ => {},
                    }
                }
            },
        }
        request
    }

    /// The text that the input field shows: what was typed, or one star for
    /// each of its bytes while input is hidden.
    pub fn input_text(&self) -> (text: String)
        ensures
            text@ == if self.show_password_prompt {
                mask(self.input_buffer@)
            } else {
                self.input_buffer@
            },
    {
        if self.show_password_prompt {
            let n: usize = self.input_buffer.as_str().as_bytes().len();
            let mut stars = String::new();
            let mut i: usize = 0;
            while i < n
                invariant
                    i <= n,
                    stars@ == Seq::new(i as nat, |k: int| '*'),
                decreases n - i,
            {
                stars.push('*');
                i += 1;
            }
            stars
        } else {
            self.input_buffer.clone()
        }
    }

    /// What the launcher shows. On the start screen the list is framed and
    /// the highlighted entry is yellow and bold; on the input screen every
    /// row is yellow. The input field is shown while it is active.
    pub fn scene(&self) -> (scene: Scene)
        ensures
            scene.framed == (self.current_screen == CurrentScreen::Start),
            scene.rows@.len() == self.items@.len(),
            forall|i: int|
                0 <= i < self.items@.len() ==> (#[trigger] scene.rows@[i]).text@
                    == self.items@[i]@,
            forall|i: int|
                0 <= i < self.items@.len() ==> (#[trigger] scene.rows@[i]).bold == (
                self.current_screen == CurrentScreen::Start && i == self.selected),
            forall|i: int|
                0 <= i < self.items@.len() ==> ((#[trigger] scene.rows@[i]).tint == Tint::Yellow)
                    == (self.current_screen == CurrentScreen::Input || i == self.selected),
            self.activate_input_field ==> (scene.input matches Some(text) && text@
                == if self.show_password_prompt {
                mask(self.input_buffer@)
            } else {
                self.input_buffer@
            }),
            !self.activate_input_field ==> scene.input is None,
    {
        let on_start: bool = match self.current_screen {
            CurrentScreen::Start => true,
            CurrentScreen::Input => false,
        };
        let mut rows: Vec<Row> = Vec::new();
        let mut i: usize = 0;
        while i < self.items.len()
            invariant
                i <= self.items.len(),
                rows@.len() == i,
                on_start == (self.current_screen == CurrentScreen::Start),
                forall|k: int| 0 <= k < i ==> (#[trigger] rows@[k]).text@ == self.items@[k]@,
                forall|k: int|
                    0 <= k < i ==> (#[trigger] rows@[k]).bold == (on_start && k == self.selected),
                forall|k: int|
                    0 <= k < i ==> ((#[trigger] rows@[k]).tint == Tint::Yellow) == (!on_start || k
                        == self.selected),
            decreases self.items.len() - i,
        {
            let marked: bool = i == self.selected;
            let tint: Tint = if !on_start || marked {
                Tint::Yellow
            } else {
                Tint::Plain
            };
            rows.push(Row { text: self.items[i].clone(), tint, bold: on_start && marked });
            i += 1;
        }
        let input: Option<String> = if self.activate_input_field {
            Some(self.input_text())
        } else {
            None
        };
        Scene { framed: on_start, rows, input }
    }
}

} // verus!
