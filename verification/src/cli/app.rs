//! The commands of the interactive loop.
use vstd::prelude::*;
use crate::text::{trim, trimmed};

verus! {

/// What a line typed at the prompt asks for.
#[derive(Debug, PartialEq, Eq)]
pub enum Command {
    Quit,
    List,
    Add,
    Complete,
    Unknown,
}

/// The command a trimmed line names: `quit` or `exit`, `list`, `add`,
/// `complete task` or `complete`; anything else is unknown.
pub open spec fn command_of(s: Seq<char>) -> Command {
    if s == "quit"@ || s == "exit"@ {
        Command::Quit
    } else if s == "list"@ {
        Command::List
    } else if s == "add"@ {
        Command::Add
    } else if s == "complete task"@ || s == "complete"@ {
        Command::Complete
    } else {
        Command::Unknown
    }
}

/// The command that `line` names once its surrounding whitespace is
/// removed.
pub fn parse_command(line: &str) -> (c: Command)
    ensures
        c == command_of(trimmed(line@)),
{
    let t = trim(line);
    if t == String::from_str("quit") || t == String::from_str("exit") {
        Command::Quit
    } else if t == String::from_str("list") {
        Command::List
    } else if t == String::from_str("add") {
        Command::Add
    } else if t == String::from_str("complete task") || t == String::from_str("complete") {
        Command::Complete
    } else {
        Command::Unknown
    }
}

} // verus!
