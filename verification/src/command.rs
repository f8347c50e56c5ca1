//! Command lines: the program and the arguments that a line names.

use vstd::prelude::*;
use vstd::string::StringExecFns;

verus! {

/// The words that `shell_words::split` makes of a command line: quotes removed,
/// backslash escapes resolved, comments dropped. `None` where the line ends inside a
/// quote.
pub uninterp spec fn shell_split(line: Seq<char>) -> Option<Seq<Seq<char>>>;

/// Splits a command line with `shell_words::split`, which reads nothing but the line
/// and fails only on a missing closing quote.
#[verifier::external_body]
fn split_shell_words(line: &str) -> (words: Option<Vec<String>>)
    ensures
        words.deep_view() == shell_split(line@),
{
    match shell_words::split(line) {
        Ok(words) => Some(words),
        Err(_) => None,
    }
}

/// Why a command line names no program.
#[derive(Debug, Clone, Copy, PartialEq, Eq, Structural)]
pub enum CommandError {
    /// The line ends inside a quote.
    Unparsable,
    /// The line holds no word.
    Empty,
}

/// The text of a command error for the line `line`.
pub open spec fn command_error_text(error: CommandError, line: Seq<char>) -> Seq<char> {
    match error {
        CommandError::Unparsable => "failed to parse command '"@ + line
            + "': missing closing quote"@,
        CommandError::Empty => "empty command"@,
    }
}

impl CommandError {
    /// The message for this error on the command line `line`.
    pub fn message(&self, line: &str) -> (text: String)
        ensures
            text@ == command_error_text(*self, line@),
    {
        match self {
            CommandError::Unparsable => {
                let mut text = String::from_str("failed to parse command '");
                text.append(line);
                text.append("': missing closing quote");
                text
            },
            CommandError::Empty => String::from_str("empty command"),
        }
    }
}

/// Program and arguments in a list of words: the first word and the rest.
pub open spec fn invocation(words: Option<Seq<Seq<char>>>) -> Result<
    (Seq<char>, Seq<Seq<char>>),
    CommandError,
> {
    match words {
        None => Err(CommandError::Unparsable),
        Some(list) => if list.len() == 0 {
            Err(CommandError::Empty)
        } else {
            Ok((list[0], list.subrange(1, list.len() as int)))
        },
    }
}

/// The program and arguments of an invocation, as characters.
pub open spec fn invocation_view(made: Result<(String, Vec<String>), CommandError>) -> Result<
    (Seq<char>, Seq<Seq<char>>),
    CommandError,
> {
    match made {
        Ok((program, args)) => Ok((program@, args.deep_view())),
        Err(error) => Err(error),
    }
}

/// Takes the program and its arguments from the words of a command line.
pub fn command_from_words(words: Option<Vec<String>>) -> (made: Result<
    (String, Vec<String>),
    CommandError,
>)
    ensures
        invocation_view(made) == invocation(words.deep_view()),
{
    match words {
        None => Err(CommandError::Unparsable),
        Some(mut list) => {
            if list.len() == 0 {
                return Err(CommandError::Empty);
            }
            let ghost all = list.deep_view();
            let program = list.remove(0);
            assert(list.deep_view() =~= all.subrange(1, all.len() as int));
            Ok((program, list))
        },
    }
}

/// Splits a command line into the program and its arguments.
pub fn parse_command(cmd: &str) -> (made: Result<(String, Vec<String>), CommandError>)
    ensures
        invocation_view(made) == invocation(shell_split(cmd@)),
{
    command_from_words(split_shell_words(cmd))
}

} // verus!
