//! ANSI escape sequences for terminal styling.

use vstd::prelude::*;
use vstd::string::*;

verus! {

/// The terminal colours the renderer can select.
#[derive(Clone, Copy, Debug)]
pub enum AnsiColor {
    Cyan,
    Blue,
    Yellow,
    Red,
    Green,
    Magenta,
    Black,
    White,
    BrightRed,
    BrightGreen,
    BrightYellow,
    BrightBlue,
    BrightMagenta,
    BrightCyan,
    DarkGray,
    LightGray,
    Olive,
    Maroon,
    Navy,
    Teal,
    Aqua,
    Purple,
    Silver,
    DarkRed,
    Lime,
    Brown,
    Salmon,
    SkyBlue,
    Gold,
}

/// The sequence that switches bold text on.
pub open spec fn bold_code() -> Seq<char> {
    "\u{001B}[1m"@
}

/// The sequence that clears every style.
pub open spec fn reset_sequence() -> Seq<char> {
    "\u{001B}[0m"@
}

impl AnsiColor {
    /// The escape sequence of each colour.
    pub open spec fn code(self) -> Seq<char> {
        match self {
            AnsiColor::Cyan => "\u{001B}[36m"@,
            AnsiColor::Blue => "\u{001B}[34m"@,
            AnsiColor::Yellow => "\u{001B}[33m"@,
            AnsiColor::Red => "\u{001B}[31m"@,
            AnsiColor::Green => "\u{001B}[32m"@,
            AnsiColor::Magenta => "\u{001B}[35m"@,
            AnsiColor::Black => "\u{001B}[30m"@,
            AnsiColor::White => "\u{001B}[37m"@,
            AnsiColor::BrightRed => "\u{001B}[91m"@,
            AnsiColor::BrightGreen => "\u{001B}[92m"@,
            AnsiColor::BrightYellow => "\u{001B}[93m"@,
            AnsiColor::BrightBlue => "\u{001B}[94m"@,
            AnsiColor::BrightMagenta => "\u{001B}[95m"@,
            AnsiColor::BrightCyan => "\u{001B}[96m"@,
            AnsiColor::DarkGray => "\u{001B}[90m"@,
            AnsiColor::LightGray => "\u{001B}[37;1m"@,
            AnsiColor::Olive => "\u{001B}[33;1m"@,
            AnsiColor::Maroon => "\u{001B}[31;1m"@,
            AnsiColor::Navy => "\u{001B}[34;1m"@,
            AnsiColor::Teal => "\u{001B}[36;1m"@,
            AnsiColor::Aqua => "\u{001B}[96;1m"@,
            AnsiColor::Purple => "\u{001B}[35;1m"@,
            AnsiColor::Silver => "\u{001B}[37;2m"@,
            AnsiColor::DarkRed => "\u{001B}[31;2m"@,
            AnsiColor::Lime => "\u{001B}[32;2m"@,
            AnsiColor::Brown => "\u{001B}[33;2m"@,
            AnsiColor::Salmon => "\u{001B}[91;1m"@,
            AnsiColor::SkyBlue => "\u{001B}[94;1m"@,
            AnsiColor::Gold => "\u{001B}[33;3m"@,
        }
    }

    /// Returns the escape sequence that selects this colour.
    pub fn escape_code(&self) -> (code: &'static str)
        ensures
            code@ == self.code(),
    {
        match self {
            AnsiColor::Cyan => "\u{001B}[36m",
            AnsiColor::Blue => "\u{001B}[34m",
            AnsiColor::Yellow => "\u{001B}[33m",
            AnsiColor::Red => "\u{001B}[31m",
            AnsiColor::Green => "\u{001B}[32m",
            AnsiColor::Magenta => "\u{001B}[35m",
            AnsiColor::Black => "\u{001B}[30m",
            AnsiColor::White => "\u{001B}[37m",
            AnsiColor::BrightRed => "\u{001B}[91m",
            AnsiColor::BrightGreen => "\u{001B}[92m",
            AnsiColor::BrightYellow => "\u{001B}[93m",
            AnsiColor::BrightBlue => "\u{001B}[94m",
            AnsiColor::BrightMagenta => "\u{001B}[95m",
            AnsiColor::BrightCyan => "\u{001B}[96m",
            AnsiColor::DarkGray => "\u{001B}[90m",
            AnsiColor::LightGray => "\u{001B}[37;1m",
            AnsiColor::Olive => "\u{001B}[33;1m",
            AnsiColor::Maroon => "\u{001B}[31;1m",
            AnsiColor::Navy => "\u{001B}[34;1m",
            AnsiColor::Teal => "\u{001B}[36;1m",
            AnsiColor::Aqua => "\u{001B}[96;1m",
            AnsiColor::Purple => "\u{001B}[35;1m",
            AnsiColor::Silver => "\u{001B}[37;2m",
            AnsiColor::DarkRed => "\u{001B}[31;2m",
            AnsiColor::Lime => "\u{001B}[32;2m",
            AnsiColor::Brown => "\u{001B}[33;2m",
            AnsiColor::Salmon => "\u{001B}[91;1m",
            AnsiColor::SkyBlue => "\u{001B}[94;1m",
            AnsiColor::Gold => "\u{001B}[33;3m",
        }
    }
}

/// A text style: an optional colour, optionally bold.
#[derive(Clone, Copy, Debug)]
pub struct AnsiStyle {
    pub bold: bool,
    pub color: Option<AnsiColor>,
}

impl AnsiStyle {
    /// The bold sequence, if any, followed by the colour sequence, if any.
    pub open spec fn code(self) -> Seq<char> {
        (if self.bold {
            bold_code()
        } else {
            Seq::<char>::empty()
        }) + (match self.color {
            Some(color) => color.code(),
            None => Seq::<char>::empty(),
        })
    }

    /// Returns the escape sequence that switches this style on.
    pub fn escape_code(&self) -> (code: String)
        ensures
            code@ == self.code(),
    {
        let mut code = String::new();
        if self.bold {
            code.append("\u{001B}[1m");
        }
        if let Some(color) = &self.color {
            code.append(color.escape_code());
        }
        assert(code@ =~= self.code());
        code
    }

    /// Returns the escape sequence that resets every style.
    pub fn reset_code() -> (code: &'static str)
        ensures
            code@ == reset_sequence(),
    {
        "\u{001B}[0m"
    }
}

} // verus!
