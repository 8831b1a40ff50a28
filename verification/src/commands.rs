//! The reserved slash commands, valid in any dialogue state.

use vstd::prelude::*;

use crate::tokens::str_eq;

verus! {

/// A reserved command. `Help`, `Cancel` and `Start` are handled globally;
/// `Back` is meaningful only inside the editor flow, where the handlers match
/// its literal spelling.
#[derive(Debug, Clone, Copy, PartialEq, Eq, Structural)]
pub enum Command {
    /// Display help.
    Help,
    /// Cancel the current dialogue.
    Cancel,
    /// Start the bot.
    Start,
    /// Return one level up (only works in the editor).
    Back,
}

/// Which command, if any, the given message text spells. Commands are
/// matched exactly, in their lowercase spelling.
pub open spec fn spec_parse_command(t: Seq<char>) -> Option<Command> {
    if t == "/help"@ {
        Some(Command::Help)
    } else if t == "/cancel"@ {
        Some(Command::Cancel)
    } else if t == "/start"@ {
        Some(Command::Start)
    } else if t == "/back"@ {
        Some(Command::Back)
    } else {
        None
    }
}

/// Parses a reserved command from message text.
pub fn parse_command(t: &str) -> (r: Option<Command>)
    ensures
        r == spec_parse_command(t@),
{
    if str_eq(t, "/help") {
        Some(Command::Help)
    } else if str_eq(t, "/cancel") {
        Some(Command::Cancel)
    } else if str_eq(t, "/start") {
        Some(Command::Start)
    } else if str_eq(t, "/back") {
        Some(Command::Back)
    } else {
        None
    }
}

} // verus!
