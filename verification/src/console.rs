//! Kinds of console messages and how each kind is presented.
use vstd::prelude::*;

use crate::text::join4;

verus! {

/// The kind of a console message.
#[derive(PartialEq, Eq, Structural, Clone, Copy, Debug)]
pub enum ConsoleType {
    /// Ordinary information.
    Info,
    /// A step that succeeded.
    Success,
    /// A warning.
    Warning,
    /// An error; written to standard error.
    Error,
    /// Debugging output.
    Debug,
}

/// Foreground colours used for message titles.
#[derive(PartialEq, Eq, Structural, Clone, Copy, Debug)]
pub enum Color {
    Cyan,
    Green,
    Yellow,
    Red,
    Blue,
}

/// How the title of a message is styled on the terminal.
#[derive(PartialEq, Eq, Structural, Clone, Copy, Debug)]
pub struct TitleStyle {
    pub color: Color,
    /// Drawn on a black background.
    pub on_black: bool,
    /// Drawn in bold.
    pub bold: bool,
}

/// The title word that introduces a message of the given kind.
pub open spec fn title_spec(t: ConsoleType) -> Seq<char> {
    match t {
        ConsoleType::Info => "Info"@,
        ConsoleType::Success => "Success"@,
        ConsoleType::Warning => "Warning"@,
        ConsoleType::Error => "Error"@,
        ConsoleType::Debug => "Debug"@,
    }
}

/// The style of the title of a message of the given kind.
pub open spec fn style_spec(t: ConsoleType) -> TitleStyle {
    match t {
        ConsoleType::Info => TitleStyle { color: Color::Cyan, on_black: false, bold: false },
        ConsoleType::Success => TitleStyle { color: Color::Green, on_black: false, bold: false },
        ConsoleType::Warning => TitleStyle { color: Color::Yellow, on_black: false, bold: false },
        ConsoleType::Error => TitleStyle { color: Color::Red, on_black: true, bold: true },
        ConsoleType::Debug => TitleStyle { color: Color::Blue, on_black: false, bold: false },
    }
}

/// The layout of one console line: two spaces, the title, six spaces, the message.
pub open spec fn line_spec(title: Seq<char>, message: Seq<char>) -> Seq<char> {
    "  "@ + title + "      "@ + message
}

impl ConsoleType {
    /// The title word of this kind of message.
    pub fn title(&self) -> (s: &'static str)
        ensures
            s@ == title_spec(*self),
    {
        match self {
            ConsoleType::Info => "Info",
            ConsoleType::Success => "Success",
            ConsoleType::Warning => "Warning",
            ConsoleType::Error => "Error",
            ConsoleType::Debug => "Debug",
        }
    }

    /// The style of the title of this kind of message.
    pub fn style(&self) -> (st: TitleStyle)
        ensures
            st == style_spec(*self),
    {
        match self {
            ConsoleType::Info => TitleStyle { color: Color::Cyan, on_black: false, bold: false },
            ConsoleType::Success => TitleStyle { color: Color::Green, on_black: false, bold: false },
            ConsoleType::Warning => TitleStyle { color: Color::Yellow, on_black: false, bold: false },
            ConsoleType::Error => TitleStyle { color: Color::Red, on_black: true, bold: true },
            ConsoleType::Debug => TitleStyle { color: Color::Blue, on_black: false, bold: false },
        }
    }

    /// Whether messages of this kind go to standard error (only errors do;
    /// every other kind goes to standard output).
    pub fn uses_stderr(&self) -> (b: bool)
        ensures
            b == (*self == ConsoleType::Error),
    {
        *self == ConsoleType::Error
    }
}

/// Lays out one console line from an (already styled) title and a message.
pub fn console_line(title: &str, message: &str) -> (s: String)
    ensures
        s@ == line_spec(title@, message@),
{
    join4("  ", title, "      ", message)
}

} // verus!
