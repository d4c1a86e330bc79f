//! The user-visible command surface: the four commands and the help text.

use vstd::prelude::*;
use vstd::string::StringExecFns;

verus! {

/// The four commands a user can issue. Parsing the command out of a chat
/// message is left to the transport layer; this type is what the parsed
/// command maps to.
#[derive(Clone, Copy, Debug, PartialEq, Eq, Structural)]
pub enum Command {
    Help,
    Lunch,
    Go,
    Cancel,
}

/// The lowercase name under which each command is invoked.
pub open spec fn command_name_spec(cmd: Command) -> Seq<char> {
    match cmd {
        Command::Help => "help"@,
        Command::Lunch => "lunch"@,
        Command::Go => "go"@,
        Command::Cancel => "cancel"@,
    }
}

impl Command {
    /// The lowercase name under which this command is invoked.
    pub fn name(&self) -> (r: String)
        ensures
            r@ == command_name_spec(*self),
    {
        match self {
            Command::Help => String::from_str("help"),
            Command::Lunch => String::from_str("lunch"),
            Command::Go => String::from_str("go"),
            Command::Cancel => String::from_str("cancel"),
        }
    }
}

/// The help message: a general line, then one line per command with its
/// description, the command names prefixed with a slash.
pub open spec fn help_text_spec() -> Seq<char> {
    "Підтримуються наступні команди:\n\n/help — Показати цей хелп\n/lunch — Проголосувати за обід\n/go — Завершити голосування і вибрати переможців :)\n/cancel — Скасувати поточне голосування"@
}

/// The message sent in reply to the help command.
pub fn help_text() -> (r: String)
    ensures
        r@ == help_text_spec(),
{
    String::from_str(
        "Підтримуються наступні команди:\n\n/help — Показати цей хелп\n/lunch — Проголосувати за обід\n/go — Завершити голосування і вибрати переможців :)\n/cancel — Скасувати поточне голосування",
    )
}

} // verus!
