//! ANSI color and cursor-movement codes.

use vstd::prelude::*;

use crate::strutil::dec_seq;
use crate::strutil::dec_str;

verus! {

pub const BLACK: &'static str = "\u{1b}[30m";

pub const RED: &'static str = "\u{1b}[31m";

pub const GREEN: &'static str = "\u{1b}[32m";

pub const YELLOW: &'static str = "\u{1b}[33m";

pub const BLUE: &'static str = "\u{1b}[34m";

pub const MAGENTA: &'static str = "\u{1b}[35m";

pub const CYAN: &'static str = "\u{1b}[36m";

pub const WHITE: &'static str = "\u{1b}[37m";

pub const BRIGHT_BLACK: &'static str = "\u{1b}[90m";

pub const BRIGHT_RED: &'static str = "\u{1b}[91m";

pub const BRIGHT_GREEN: &'static str = "\u{1b}[92m";

pub const BRIGHT_YELLOW: &'static str = "\u{1b}[93m";

pub const BRIGHT_BLUE: &'static str = "\u{1b}[94m";

pub const BRIGHT_MAGENTA: &'static str = "\u{1b}[95m";

pub const BRIGHT_CYAN: &'static str = "\u{1b}[96m";

pub const BRIGHT_WHITE: &'static str = "\u{1b}[97m";

pub const RESET: &'static str = "\u{1b}[0m";

pub const BOLD: &'static str = "\u{1b}[1m";

pub const BLACK_BG: &'static str = "\u{1b}[40m";

pub const RED_BG: &'static str = "\u{1b}[41m";

pub const GREEN_BG: &'static str = "\u{1b}[42m";

pub const YELLOW_BG: &'static str = "\u{1b}[43m";

pub const BLUE_BG: &'static str = "\u{1b}[44m";

pub const MAGENTA_BG: &'static str = "\u{1b}[45m";

pub const CYAN_BG: &'static str = "\u{1b}[46m";

pub const WHITE_BG: &'static str = "\u{1b}[47m";

pub const BRIGHT_BLACK_BG: &'static str = "\u{1b}[100m";

pub const BRIGHT_RED_BG: &'static str = "\u{1b}[101m";

pub const BRIGHT_GREEN_BG: &'static str = "\u{1b}[102m";

pub const BRIGHT_YELLOW_BG: &'static str = "\u{1b}[103m";

pub const BRIGHT_BLUE_BG: &'static str = "\u{1b}[104m";

pub const BRIGHT_MAGENTA_BG: &'static str = "\u{1b}[105m";

pub const BRIGHT_CYAN_BG: &'static str = "\u{1b}[106m";

pub const BRIGHT_WHITE_BG: &'static str = "\u{1b}[107m";

pub const COLORS: [&'static str; 16] = [
    BLACK,
    RED,
    GREEN,
    YELLOW,
    BLUE,
    MAGENTA,
    CYAN,
    WHITE,
    BRIGHT_BLACK,
    BRIGHT_RED,
    BRIGHT_GREEN,
    BRIGHT_YELLOW,
    BRIGHT_BLUE,
    BRIGHT_MAGENTA,
    BRIGHT_CYAN,
    BRIGHT_WHITE,
];

/// The code that moves the cursor up `n` rows.
pub open spec fn cursor_up_seq(n: int) -> Seq<char> {
    "\u{1b}["@ + dec_seq(n) + "A"@
}

/// The code that moves the cursor down `n` rows.
pub open spec fn cursor_down_seq(n: int) -> Seq<char> {
    "\u{1b}["@ + dec_seq(n) + "B"@
}

/// The code that moves the cursor right `n` columns.
pub open spec fn cursor_forward_seq(n: int) -> Seq<char> {
    "\u{1b}["@ + dec_seq(n) + "C"@
}

/// The code that moves the cursor left `n` columns.
pub open spec fn cursor_backward_seq(n: int) -> Seq<char> {
    "\u{1b}["@ + dec_seq(n) + "D"@
}

pub fn cursor_up(n: usize) -> (s: String)
    ensures
        s@ == cursor_up_seq(n as int),
{
    let mut s: String = String::new();
    s.append("\u{1b}[");
    s.append(dec_str(n).as_str());
    s.append("A");
    proof {
        assert(s@ =~= cursor_up_seq(n as int));
    }
    s
}

pub fn cursor_down(n: usize) -> (s: String)
    ensures
        s@ == cursor_down_seq(n as int),
{
    let mut s: String = String::new();
    s.append("\u{1b}[");
    s.append(dec_str(n).as_str());
    s.append("B");
    proof {
        assert(s@ =~= cursor_down_seq(n as int));
    }
    s
}

pub fn cursor_forward(n: usize) -> (s: String)
    ensures
        s@ == cursor_forward_seq(n as int),
{
    let mut s: String = String::new();
    s.append("\u{1b}[");
    s.append(dec_str(n).as_str());
    s.append("C");
    proof {
        assert(s@ =~= cursor_forward_seq(n as int));
    }
    s
}

pub fn cursor_backward(n: usize) -> (s: String)
    ensures
        s@ == cursor_backward_seq(n as int),
{
    let mut s: String = String::new();
    s.append("\u{1b}[");
    s.append(dec_str(n).as_str());
    s.append("D");
    proof {
        assert(s@ =~= cursor_backward_seq(n as int));
    }
    s
}

} // verus!
