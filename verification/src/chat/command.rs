//! The command that shows or sets the capacity of the history.

use crate::chat::exchange::ChatError;
use crate::text::{numeral, parse_usize, parsed_usize, render_number, split_words, words};
use vstd::prelude::*;
use vstd::string::*;

verus! {

/// What a capacity command asks for.
#[derive(Clone, Copy, Debug, PartialEq, Eq, Structural)]
pub enum HistsizeCommand {
    /// Show the capacity.
    Show,
    /// Set the capacity to the number given.
    Change(usize),
}

/// What the text of a capacity command asks for. The first word is the
/// command's name. Alone, it asks to show the capacity. With one word more,
/// it asks to set the capacity to the number that the word writes, and is in
/// error where the word writes none. With no word, or more than two, it is in
/// error.
pub open spec fn histsize_command(content: Seq<char>) -> Result<HistsizeCommand, ChatError> {
    let parts = words(content);
    if parts.len() == 1 {
        Ok(HistsizeCommand::Show)
    } else if parts.len() == 2 {
        match parsed_usize(parts[1]) {
            Some(histsize) => Ok(HistsizeCommand::Change(histsize)),
            None => Err(ChatError::InvalidCapacity),
        }
    } else {
        Err(ChatError::InvalidParameter)
    }
}

/// Reads a capacity command, as [`histsize_command`] says.
pub fn parse_histsize(content: &str) -> (command: Result<HistsizeCommand, ChatError>)
    ensures
        command == histsize_command(content@),
{
    let parts = split_words(content);
    if parts.len() == 1 {
        Ok(HistsizeCommand::Show)
    } else if parts.len() == 2 {
        match parse_usize(parts[1].as_str()) {
            Some(histsize) => Ok(HistsizeCommand::Change(histsize)),
            None => Err(ChatError::InvalidCapacity),
        }
    } else {
        Err(ChatError::InvalidParameter)
    }
}

/// The line that reports a capacity.
pub open spec fn histsize_line(histsize: usize) -> Seq<char> {
    "histsize: "@ + numeral(histsize as nat)
}

/// The line that reports a change of the capacity.
pub open spec fn histsize_change_line(previous: usize, histsize: usize) -> Seq<char> {
    "histsize: "@ + numeral(previous as nat) + " -> "@ + numeral(histsize as nat)
}

/// Writes the answer to a command that shows the capacity.
pub fn report_histsize(histsize: usize) -> (line: String)
    ensures
        line@ == histsize_line(histsize),
{
    let mut line = "histsize: ".to_owned();
    line.append(render_number(histsize as u64).as_str());
    line
}

/// Writes the answer to a command that changed the capacity from `previous`
/// to `histsize`.
pub fn report_histsize_change(previous: usize, histsize: usize) -> (line: String)
    ensures
        line@ == histsize_change_line(previous, histsize),
{
    let mut line = "histsize: ".to_owned();
    line.append(render_number(previous as u64).as_str());
    line.append(" -> ");
    line.append(render_number(histsize as u64).as_str());
    line
}

} // verus!
