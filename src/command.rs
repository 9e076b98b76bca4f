use vstd::prelude::*;
use vstd::string::StringExecFns;

verus! {

/// The kind of a progress line that an agent reports.
#[derive(Debug, Clone, Copy, PartialEq, Eq, Structural)]
pub enum PrintCommand {
    AICall,
    UnitTest,
    Issue,
}

/// Terminal colours used for progress lines.
#[derive(Debug, Clone, Copy, PartialEq, Eq, Structural)]
pub enum TextColor {
    Green,
    Cyan,
    Magenta,
    Red,
}

impl PrintCommand {
    /// The colour of the statement part of a progress line.
    pub fn statement_color(&self) -> (r: TextColor)
        ensures
            r == match *self {
                PrintCommand::AICall => TextColor::Cyan,
                PrintCommand::UnitTest => TextColor::Magenta,
                PrintCommand::Issue => TextColor::Red,
            },
    {
        match self {
            PrintCommand::AICall => TextColor::Cyan,
            PrintCommand::UnitTest => TextColor::Magenta,
            PrintCommand::Issue => TextColor::Red,
        }
    }

    /// The colour of the agent label that opens a progress line.
    pub fn position_color(&self) -> (r: TextColor)
        ensures
            r == TextColor::Green,
    {
        TextColor::Green
    }
}

/// The label that opens a progress line: `Agent: <position>: `.
pub fn agent_label(position: &str) -> (r: String)
    ensures
        r@ == "Agent: "@ + position@ + ": "@,
{
    let mut s = String::from_str("Agent: ");
    s.append(position);
    s.append(": ");
    s
}

/// The user's answer to the confirmation prompt, already trimmed and in
/// lower case: `Some(true)` to go on, `Some(false)` to stop, `None` to ask
/// again.
pub open spec fn confirmation_spec(answer: Seq<char>) -> Option<bool> {
    if answer == "1"@ || answer == "ok"@ || answer == "y"@ {
        Some(true)
    } else if answer == "2"@ || answer == "no"@ || answer == "n"@ {
        Some(false)
    } else {
        None
    }
}

/// Reads the answer to the confirmation prompt.
pub fn confirmation_choice(answer: &str) -> (r: Option<bool>)
    ensures
        r == confirmation_spec(answer@),
{
    let a = String::from_str(answer);
    if a == String::from_str("1") || a == String::from_str("ok") || a == String::from_str("y") {
        Some(true)
    } else if a == String::from_str("2") || a == String::from_str("no") || a == String::from_str(
        "n",
    ) {
        Some(false)
    } else {
        None
    }
}

} // verus!
