//! The palette: a closed set of tones and the escape sequence of each.

use crate::text::plain_text;
use vstd::prelude::*;

verus! {

/// A named terminal tone. `Reset` clears all styling; a `D` prefix marks the
/// dark tones and an `L` prefix the light ones.
#[derive(Clone, Copy, Debug, PartialEq, Eq, Structural)]
pub enum AnsiColor {
    Reset,
    Black,
    Red,
    Green,
    Yellow,
    Blue,
    Purple,
    Cyan,
    White,
    DBlack,
    DRed,
    DGreen,
    DYellow,
    DBlue,
    DPurple,
    DCyan,
    DWhite,
    LRed,
    LYellow,
    LWhite,
}

impl AnsiColor {
    /// The escape sequence that switches a terminal to this tone.
    pub open spec fn escape(self) -> Seq<char> {
        match self {
            AnsiColor::Reset => "\x1b[0m"@,
            AnsiColor::Black => "\x1b[0;30m"@,
            AnsiColor::Red => "\x1b[0;31m"@,
            AnsiColor::Green => "\x1b[0;32m"@,
            AnsiColor::Yellow => "\x1b[0;33m"@,
            AnsiColor::Blue => "\x1b[0;34m"@,
            AnsiColor::Purple => "\x1b[0;35m"@,
            AnsiColor::Cyan => "\x1b[0;36m"@,
            AnsiColor::White => "\x1b[0;37m"@,
            AnsiColor::DBlack => "\x1b[2;30m"@,
            AnsiColor::DRed => "\x1b[2;31m"@,
            AnsiColor::DGreen => "\x1b[2;32m"@,
            AnsiColor::DYellow => "\x1b[2;33m"@,
            AnsiColor::DBlue => "\x1b[2;34m"@,
            AnsiColor::DPurple => "\x1b[2;35m"@,
            AnsiColor::DCyan => "\x1b[2;36m"@,
            AnsiColor::DWhite => "\x1b[2;37m"@,
            AnsiColor::LRed => "\x1b[1;31m"@,
            AnsiColor::LYellow => "\x1b[1;33m"@,
            AnsiColor::LWhite => "\x1b[1;37m"@,
        }
    }

    /// The digit that names the hue inside the escape sequence.
    pub open spec fn hue(self) -> char {
        match self {
            AnsiColor::Reset | AnsiColor::Black | AnsiColor::DBlack => '0',
            AnsiColor::Red | AnsiColor::DRed | AnsiColor::LRed => '1',
            AnsiColor::Green | AnsiColor::DGreen => '2',
            AnsiColor::Yellow | AnsiColor::DYellow | AnsiColor::LYellow => '3',
            AnsiColor::Blue | AnsiColor::DBlue => '4',
            AnsiColor::Purple | AnsiColor::DPurple => '5',
            AnsiColor::Cyan | AnsiColor::DCyan => '6',
            AnsiColor::White | AnsiColor::DWhite | AnsiColor::LWhite => '7',
        }
    }

    /// The digit that names the intensity inside the escape sequence.
    pub open spec fn intensity(self) -> char {
        match self {
            AnsiColor::DBlack
            | AnsiColor::DRed
            | AnsiColor::DGreen
            | AnsiColor::DYellow
            | AnsiColor::DBlue
            | AnsiColor::DPurple
            | AnsiColor::DCyan
            | AnsiColor::DWhite => '2',
            AnsiColor::LRed | AnsiColor::LYellow | AnsiColor::LWhite => '1',
            _ => '0',
        }
    }

    /// Every escape sequence written out character by character: the reset is
    /// `ESC [ 0 m`, every other tone is `ESC [ intensity ; 3 hue m`.
    pub proof fn escape_shape(self)
        ensures
            self == AnsiColor::Reset ==> self.escape() == seq!['\x1b', '[', '0', 'm'],
            self != AnsiColor::Reset ==> self.escape() == seq![
                '\x1b',
                '[',
                self.intensity(),
                ';',
                '3',
                self.hue(),
                'm',
            ],
    {
        reveal_strlit("\x1b[0m");
        reveal_strlit("\x1b[0;30m");
        reveal_strlit("\x1b[0;31m");
        reveal_strlit("\x1b[0;32m");
        reveal_strlit("\x1b[0;33m");
        reveal_strlit("\x1b[0;34m");
        reveal_strlit("\x1b[0;35m");
        reveal_strlit("\x1b[0;36m");
        reveal_strlit("\x1b[0;37m");
        reveal_strlit("\x1b[2;30m");
        reveal_strlit("\x1b[2;31m");
        reveal_strlit("\x1b[2;32m");
        reveal_strlit("\x1b[2;33m");
        reveal_strlit("\x1b[2;34m");
        reveal_strlit("\x1b[2;35m");
        reveal_strlit("\x1b[2;36m");
        reveal_strlit("\x1b[2;37m");
        reveal_strlit("\x1b[1;31m");
        reveal_strlit("\x1b[1;33m");
        reveal_strlit("\x1b[1;37m");
    }

    /// Every escape sequence is plain, and none holds a line feed.
    pub proof fn escape_plain(self)
        ensures
            plain_text(self.escape()),
            forall|i: int| 0 <= i < self.escape().len() ==> self.escape()[i] != '\n',
    {
        self.escape_shape();
    }
}

/// The escape sequence of a tone. Total: every tone has exactly one.
pub fn add_color(color: AnsiColor) -> (code: &'static str)
    ensures
        code@ == color.escape(),
{
    match color {
        AnsiColor::Reset => "\x1b[0m",
        AnsiColor::Black => "\x1b[0;30m",
        AnsiColor::Red => "\x1b[0;31m",
        AnsiColor::Green => "\x1b[0;32m",
        AnsiColor::Yellow => "\x1b[0;33m",
        AnsiColor::Blue => "\x1b[0;34m",
        AnsiColor::Purple => "\x1b[0;35m",
        AnsiColor::Cyan => "\x1b[0;36m",
        AnsiColor::White => "\x1b[0;37m",
        AnsiColor::DBlack => "\x1b[2;30m",
        AnsiColor::DRed => "\x1b[2;31m",
        AnsiColor::DGreen => "\x1b[2;32m",
        AnsiColor::DYellow => "\x1b[2;33m",
        AnsiColor::DBlue => "\x1b[2;34m",
        AnsiColor::DPurple => "\x1b[2;35m",
        AnsiColor::DCyan => "\x1b[2;36m",
        AnsiColor::DWhite => "\x1b[2;37m",
        AnsiColor::LRed => "\x1b[1;31m",
        AnsiColor::LYellow => "\x1b[1;33m",
        AnsiColor::LWhite => "\x1b[1;37m",
    }
}

} // verus!
