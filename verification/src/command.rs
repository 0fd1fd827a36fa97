//! Command descriptions: an ordered list of shell statements and the single
//! shell argument they are joined into.

use crate::text::views;
use vstd::prelude::*;
use vstd::string::*;

verus! {

/// The text of `parts` joined by `sep`: nothing for no parts, and no
/// separator before the first or after the last part.
pub open spec fn join_with(parts: Seq<Seq<char>>, sep: Seq<char>) -> Seq<char>
    decreases parts.len(),
{
    if parts.len() == 0 {
        Seq::empty()
    } else if parts.len() == 1 {
        parts[0]
    } else {
        join_with(parts.drop_last(), sep) + sep + parts.last()
    }
}

/// The statement separator, as a sequence of characters.
pub open spec fn separator() -> Seq<char> {
    seq![';']
}

/// The program that interprets a command line.
pub open spec fn shell_program() -> Seq<char> {
    seq!['b', 'a', 's', 'h']
}

/// The flag that makes the shell read its command from the next argument.
pub open spec fn shell_flag() -> Seq<char> {
    seq!['-', 'c']
}

/// An ordered sequence of shell statements. Once built it is never changed.
#[derive(Debug)]
pub struct CommandSpec {
    statements: Vec<String>,
}

impl View for CommandSpec {
    type V = Seq<Seq<char>>;

    closed spec fn view(&self) -> Seq<Seq<char>> {
        views(self.statements@)
    }
}

impl CommandSpec {
    /// Takes the statements in the order given.
    pub fn new(statements: Vec<String>) -> (spec: CommandSpec)
        ensures
            spec@ == views(statements@),
    {
        CommandSpec { statements }
    }

    /// Number of statements.
    pub fn len(&self) -> (n: usize)
        ensures
            n == self@.len(),
    {
        self.statements.len()
    }

    /// The statement at position `i`.
    pub fn statement(&self, i: usize) -> (s: &String)
        requires
            i < self@.len(),
        ensures
            s@ == self@[i as int],
    {
        &self.statements[i]
    }

    /// The single argument handed to the shell: all statements in order,
    /// joined by the statement separator.
    pub fn command_line(&self) -> (line: String)
        ensures
            line@ == join_with(self@, separator()),
    {
        let mut line = String::new();
        let mut i: usize = 0;
        while i < self.statements.len()
            invariant
                i <= self.statements.len(),
                line@ == join_with(self@.take(i as int), separator()),
            decreases self.statements.len() - i,
        {
            proof {
                reveal_strlit(";");
                assert(self@.take(i + 1).drop_last() == self@.take(i as int));
            }
            if i > 0 {
                line.append(";");
            }
            line.append(self.statements[i].as_str());
            i += 1;
        }
        proof {
            assert(self@.take(i as int) == self@);
        }
        line
    }

    /// The argument vector of the child process: the shell, the flag that
    /// makes it read a command string, and the joined command line.
    pub fn shell_args(&self) -> (argv: Vec<String>)
        ensures
            argv@.len() == 3,
            argv@[0]@ == shell_program(),
            argv@[1]@ == shell_flag(),
            argv@[2]@ == join_with(self@, separator()),
    {
        proof {
            reveal_strlit("bash");
            reveal_strlit("-c");
        }
        let mut argv: Vec<String> = Vec::new();
        argv.push(String::from_str("bash"));
        argv.push(String::from_str("-c"));
        argv.push(self.command_line());
        argv
    }
}

} // verus!
