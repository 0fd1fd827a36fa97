//! A single screen that starts a command, remembers each distinct line of
//! its output, and types one line of input to it.

use crate::command::CommandSpec;
use crate::keys::{Key, KeyCode, KeyKind};
use crate::launcher::Request;
use crate::text::views;
use vstd::prelude::*;
use vstd::string::*;

verus! {

/// The screens of the prompt.
#[derive(Debug, Clone, Copy, PartialEq, Eq, Structural)]
pub enum CurrentScreen {
    /// The only screen.
    Main,
}

/// Whether some entry of `entries` has the key `key`.
pub open spec fn has_key(entries: Seq<(Seq<char>, Seq<char>)>, key: Seq<char>) -> bool {
    exists|j: int| 0 <= j < entries.len() && (#[trigger] entries[j]).0 == key
}

/// Whether no two entries have the same key.
pub open spec fn distinct_keys(entries: Seq<(Seq<char>, Seq<char>)>) -> bool {
    forall|i: int, j: int|
        0 <= i < j < entries.len() ==> (#[trigger] entries[i]).0 != (#[trigger] entries[j]).0
}

/// The entries after `value` has been stored under `key`: the entry with
/// that key gets the value, and if there is none, a new entry comes last.
pub open spec fn upsert(entries: Seq<(Seq<char>, Seq<char>)>, key: Seq<char>, value: Seq<char>)
    -> Seq<(Seq<char>, Seq<char>)> {
    if has_key(entries, key) {
        let j = choose|j: int| 0 <= j < entries.len() && (#[trigger] entries[j]).0 == key;
        entries.update(j, (key, value))
    } else {
        entries.push((key, value))
    }
}

/// The entries after each of `lines` has been stored under itself, in order.
pub open spec fn upsert_all(entries: Seq<(Seq<char>, Seq<char>)>, lines: Seq<Seq<char>>) -> Seq<
    (Seq<char>, Seq<char>),
>
    decreases lines.len(),
{
    if lines.len() == 0 {
        entries
    } else {
        upsert(upsert_all(entries, lines.drop_last()), lines.last(), lines.last())
    }
}

/// The statements of the command that `c` starts: it prints a line, reads
/// one, prints it back and says that it is done.
pub open spec fn demo_statements() -> Seq<Seq<char>> {
    seq!["echo inputtest"@, "read varname"@, "echo $varname"@, "echo cmd finished"@]
}

/// Storing keeps keys distinct, keeps every other entry, and makes the
/// stored value the one found under its key.
pub proof fn lemma_upsert(entries: Seq<(Seq<char>, Seq<char>)>, key: Seq<char>, value: Seq<char>)
    requires
        distinct_keys(entries),
    ensures
        distinct_keys(upsert(entries, key, value)),
        has_key(upsert(entries, key, value), key),
        forall|k: Seq<char>| #[trigger]
            has_key(upsert(entries, key, value), k) <==> (k == key || has_key(entries, k)),
        upsert(entries, key, value).len() == if has_key(entries, key) {
            entries.len()
        } else {
            entries.len() + 1
        },
{
    let after = upsert(entries, key, value);
    if has_key(entries, key) {
        let j = choose|j: int| 0 <= j < entries.len() && (#[trigger] entries[j]).0 == key;
        assert(after[j].0 == key);
        assert forall|k: Seq<char>| #[trigger]
            has_key(after, k) <==> (k == key || has_key(entries, k)) by {
            if has_key(after, k) {
                let i = choose|i: int| 0 <= i < after.len() && (#[trigger] after[i]).0 == k;
                if i != j {
                    assert(entries[i].0 == k);
                }
            }
            if has_key(entries, k) {
                let i = choose|i: int| 0 <= i < entries.len() && (#[trigger] entries[i]).0 == k;
                assert(after[i].0 == k);
            }
        }
    } else {
        assert(after[entries.len() as int].0 == key);
        assert forall|k: Seq<char>| #[trigger]
            has_key(after, k) <==> (k == key || has_key(entries, k)) by {
            if has_key(after, k) {
                let i = choose|i: int| 0 <= i < after.len() && (#[trigger] after[i]).0 == k;
                if i < entries.len() {
                    assert(entries[i].0 == k);
                }
            }
            if has_key(entries, k) {
                let i = choose|i: int| 0 <= i < entries.len() && (#[trigger] entries[i]).0 == k;
                assert(after[i].0 == k);
            }
        }
        assert forall|a: int, b: int| 0 <= a < b < after.len() implies (#[trigger] after[a]).0 != (
        #[trigger] after[b]).0 by {
            if b == entries.len() {
                assert(entries[a].0 != key);
            }
        }
    }
}

/// The state of the prompt.
pub struct App {
    /// The screen on display.
    pub current_screen: CurrentScreen,
    /// The distinct output lines seen so far, each stored under itself, in
    /// the order in which they were first seen.
    pub pairs: Vec<(String, String)>,
    /// Whether the keys go to the input line.
    pub waiting_for_input: bool,
    /// The input typed so far.
    pub input_buffer: String,
}

impl App {
    /// The stored entries as texts.
    pub open spec fn entries(&self) -> Seq<(Seq<char>, Seq<char>)> {
        Seq::new(self.pairs@.len(), |i: int| (self.pairs@[i].0@, self.pairs@[i].1@))
    }

    /// No line is stored twice.
    pub open spec fn wf(&self) -> bool {
        distinct_keys(self.entries())
    }

    /// A prompt that has seen nothing and is not taking input.
    pub fn new() -> (app: App)
        ensures
            app.wf(),
            app.current_screen == CurrentScreen::Main,
            app.pairs@.len() == 0,
            !app.waiting_for_input,
            app.input_buffer@.len() == 0,
    {
        App {
            current_screen: CurrentScreen::Main,
            pairs: Vec::new(),
            waiting_for_input: false,
            input_buffer: String::new(),
        }
    }

    /// Stores `value` under `key`, replacing what was stored under it.
    pub fn insert(&mut self, key: String, value: String)
        requires
            old(self).wf(),
        ensures
            final(self).wf(),
            final(self).entries() == upsert(old(self).entries(), key@, value@),
            final(self).current_screen == old(self).current_screen,
            final(self).waiting_for_input == old(self).waiting_for_input,
            final(self).input_buffer == old(self).input_buffer,
    {
        let mut j: usize = 0;
        while j < self.pairs.len()
            invariant
                j <= self.pairs.len(),
                *self == *old(self),
                self.wf(),
                forall|k: int| 0 <= k < j ==> (#[trigger] self.entries()[k]).0 != key@,
            decreases self.pairs.len() - j,
        {
            if self.pairs[j].0 == key {
                let ghost found = j as int;
                assert(self.entries()[found].0 == key@);
                let ghost chosen = choose|c: int|
                    0 <= c < self.entries().len() && (#[trigger] self.entries()[c]).0 == key@;
                assert(chosen == found) by {
                    if chosen < found {
                        assert(self.entries()[chosen].0 != self.entries()[found].0);
                    } else if found < chosen {
                        assert(self.entries()[found].0 != self.entries()[chosen].0);
                    }
                }
                self.pairs[j] = (key, value);
                proof {
                    lemma_upsert(old(self).entries(), key@, value@);
                    assert(self.entries() =~= upsert(old(self).entries(), key@, value@));
                }
                return ;
            }
            j += 1;
        }
        assert(!has_key(self.entries(), key@));
        self.pairs.push((key, value));
        proof {
            lemma_upsert(old(self).entries(), key@, value@);
            assert(self.entries() =~= upsert(old(self).entries(), key@, value@));
        }
    }

    /// Takes the output lines of one poll: each line is stored under itself,
    /// so a line that was seen before is not stored again.
    pub fn absorb(&mut self, lines: &Vec<String>)
        requires
            old(self).wf(),
        ensures
            final(self).wf(),
            final(self).entries() == upsert_all(old(self).entries(), views(lines@)),
            final(self).current_screen == old(self).current_screen,
            final(self).waiting_for_input == old(self).waiting_for_input,
            final(self).input_buffer == old(self).input_buffer,
    {
        let ghost texts = views(lines@);
        let mut i: usize = 0;
        while i < lines.len()
            invariant
                i <= lines.len(),
                texts == views(lines@),
                self.wf(),
                self.entries() == upsert_all(old(self).entries(), texts.take(i as int)),
                self.current_screen == old(self).current_screen,
                self.waiting_for_input == old(self).waiting_for_input,
                self.input_buffer == old(self).input_buffer,
            decreases lines.len() - i,
        {
            assert(texts.take(i + 1).drop_last() == texts.take(i as int));
            self.insert(lines[i].clone(), lines[i].clone());
            i += 1;
        }
        assert(texts.take(i as int) == texts);
    }

    /// The command that `c` starts.
    pub fn demo_command() -> (command: CommandSpec)
        ensures
            command@ == demo_statements(),
    {
        let mut statements: Vec<String> = Vec::new();
        statements.push(String::from_str("echo inputtest"));
        statements.push(String::from_str("read varname"));
        statements.push(String::from_str("echo $varname"));
        statements.push(String::from_str("echo cmd finished"));
        CommandSpec::new(statements)
    }

    /// Handles one key event and says what the event loop has to do.
    ///
    /// While the prompt waits for input, every key event goes to the input
    /// line: characters are added, backspace removes the last, enter sends
    /// the line, empties it and ends the waiting. Otherwise releases are
    /// ignored, `q` ends the program, and `c` starts the demo command and
    /// makes the prompt wait for input.
    pub fn handle_key(&mut self, key: Key) -> (request: Request)
        ensures
            final(self).pairs == old(self).pairs,
            final(self).current_screen == old(self).current_screen,
            final(self).input_buffer@ == if old(self).waiting_for_input {
                match key.code {
                    KeyCode::Char(c) => old(self).input_buffer@.push(c),
                    KeyCode::Backspace => if old(self).input_buffer@.len() > 0 {
                        old(self).input_buffer@.drop_last()
                    } else {
                        old(self).input_buffer@
                    },
                    KeyCode::Enter => Seq::<char>::empty(),
                    _ => old(self).input_buffer@,
                }
            } else {
                old(self).input_buffer@
            },
            final(self).waiting_for_input == if old(self).waiting_for_input {
                key.code != KeyCode::Enter
            } else {
                key.kind != KeyKind::Release && key.code == KeyCode::Char('c')
            },
            if old(self).waiting_for_input {
                if key.code == KeyCode::Enter {
                    request matches Request::Send(text) && text@ == old(self).input_buffer@
                } else {
                    request is Nothing
                }
            } else if key.kind == KeyKind::Release {
                request is Nothing
            } else if key.code == KeyCode::Char('q') {
                request is Quit
            } else if key.code == KeyCode::Char('c') {
                request matches Request::Launch(command) && command@ == demo_statements()
            } else {
                request is Nothing
            },
    {
        if self.waiting_for_input {
            match key.code {
                KeyCode::Char(c) => {
                    self.input_buffer.push(c);
                },
                KeyCode::Backspace => {
                    self.input_buffer.pop();
                },
                KeyCode::Enter => {
                    let mut text = String::new();
                    std::mem::swap(&mut text, &mut self.input_buffer);
                    self.waiting_for_input = false;
                    return Request::Send(text);
                },
                _ => {},
            }
            return Request::Nothing;
        }
        match key.kind {
            KeyKind::Release => {
                return Request::Nothing;
            },
            _ => {},
        }
        match key.code {
            KeyCode::Char(c) => {
                if c == 'q' {
                    Request::Quit
                } else if c == 'c' {
                    self.waiting_for_input = true;
                    Request::Launch(App::demo_command())
                } else {
                    Request::Nothing
                }
            },
            _ => Request::Nothing,
        }
    }
}

} // verus!
