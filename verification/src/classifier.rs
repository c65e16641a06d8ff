//! The command classifier: which handling branch a command name selects.

use crate::text::{chars_of, range_equals};
use vstd::prelude::*;

verus! {

/// The character that opens a command.
pub const COMMAND_MARKER: char = '/';

/// The name of the command that translates its argument.
pub const DICT: &'static str = "/dict";

/// The name of the command that flips the preference of a conversation.
pub const TOGGLE: &'static str = "/toggle";

/// The name of the command that explains the commands.
pub const HELP: &'static str = "/help";

/// The name of the command that describes the bot.
pub const ABOUT: &'static str = "/about";

/// The name of the command that greets a new user.
pub const START: &'static str = "/start";

/// The handling branch of a command.
#[derive(Clone, Copy, Debug, PartialEq, Eq, Structural)]
pub enum CommandKind {
    Translate,
    TogglePreference,
    Help,
    About,
    Start,
    Unknown,
}

/// The branch that `name` selects. Names are compared letter for letter,
/// case included; a name outside the table selects `Unknown`.
pub open spec fn classified(name: Seq<char>) -> CommandKind {
    if name == DICT@ {
        CommandKind::Translate
    } else if name == TOGGLE@ {
        CommandKind::TogglePreference
    } else if name == HELP@ {
        CommandKind::Help
    } else if name == ABOUT@ {
        CommandKind::About
    } else if name == START@ {
        CommandKind::Start
    } else {
        CommandKind::Unknown
    }
}

/// Whether `name` and `entry` hold the same characters.
fn names(name: &Vec<char>, entry: &str) -> (b: bool)
    ensures
        b == (name@ == entry@),
{
    let e = chars_of(entry);
    assert(name@.subrange(0, name@.len() as int) =~= name@);
    range_equals(name, 0, name.len(), &e)
}

/// Maps a command name to its handling branch.
pub fn classify(command_name: &str) -> (kind: CommandKind)
    ensures
        kind == classified(command_name@),
{
    let name = chars_of(command_name);
    if names(&name, DICT) {
        CommandKind::Translate
    } else if names(&name, TOGGLE) {
        CommandKind::TogglePreference
    } else if names(&name, HELP) {
        CommandKind::Help
    } else if names(&name, ABOUT) {
        CommandKind::About
    } else if names(&name, START) {
        CommandKind::Start
    } else {
        CommandKind::Unknown
    }
}

} // verus!
