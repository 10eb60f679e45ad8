//! The terminal directives the renderer emits, as sequences of characters.
//!
//! Each directive is produced by crossterm; the spec functions here state
//! exactly which characters each one consists of, so that the renderer's
//! contracts can pin down whole frames.

use crossterm::Command;
use vstd::prelude::*;

verus! {

/// The character for one decimal digit.
pub open spec fn digit_char(d: nat) -> char {
    if d == 0 {
        '0'
    } else if d == 1 {
        '1'
    } else if d == 2 {
        '2'
    } else if d == 3 {
        '3'
    } else if d == 4 {
        '4'
    } else if d == 5 {
        '5'
    } else if d == 6 {
        '6'
    } else if d == 7 {
        '7'
    } else if d == 8 {
        '8'
    } else {
        '9'
    }
}

/// The decimal digits of `n`, most significant first, exactly as core's
/// formatting machinery prints an unsigned integer (no sign, no leading
/// zeros except for `n == 0`).
pub open spec fn decimal_seq(n: nat) -> Seq<char>
    decreases n,
{
    if n < 10 {
        seq![digit_char(n)]
    } else {
        decimal_seq(n / 10) + seq![digit_char(n % 10)]
    }
}

/// The ANSI control sequence introducer: ESC `[`.
pub open spec fn csi_seq() -> Seq<char> {
    seq!['\u{1b}', '[']
}

/// The directive that hides the terminal cursor.
pub open spec fn hide_cursor_seq() -> Seq<char> {
    csi_seq() + seq!['?', '2', '5', 'l']
}

/// The directive that shows the terminal cursor.
pub open spec fn show_cursor_seq() -> Seq<char> {
    csi_seq() + seq!['?', '2', '5', 'h']
}

/// The directive that clears from the cursor to the end of the line.
pub open spec fn clear_until_newline_seq() -> Seq<char> {
    csi_seq() + seq!['K']
}

/// The directive that clears the whole screen.
pub open spec fn clear_all_seq() -> Seq<char> {
    csi_seq() + seq!['2', 'J']
}

/// The directive that places the terminal cursor at zero-based column `x`,
/// row `y` (the wire format is one-based, row first).
pub open spec fn move_to_seq(x: nat, y: nat) -> Seq<char> {
    csi_seq() + decimal_seq((y + 1) as nat) + seq![';'] + decimal_seq((x + 1) as nat) + seq!['H']
}

/// Relies on crossterm's `Command` impl for `cursor::Hide`, which writes
/// `"\x1b[?25l"`.
#[verifier::external_body]
pub(crate) fn ansi_hide_cursor() -> (r: String)
    ensures
        r@ == hide_cursor_seq(),
{
    let mut s = String::new();
    let _ = crossterm::cursor::Hide.write_ansi(&mut s);
    s
}

/// Relies on crossterm's `Command` impl for `cursor::Show`, which writes
/// `"\x1b[?25h"`.
#[verifier::external_body]
pub(crate) fn ansi_show_cursor() -> (r: String)
    ensures
        r@ == show_cursor_seq(),
{
    let mut s = String::new();
    let _ = crossterm::cursor::Show.write_ansi(&mut s);
    s
}

/// Relies on crossterm's `Command` impl for
/// `terminal::Clear(ClearType::UntilNewLine)`, which writes `"\x1b[K"`.
#[verifier::external_body]
pub(crate) fn ansi_clear_until_newline() -> (r: String)
    ensures
        r@ == clear_until_newline_seq(),
{
    let mut s = String::new();
    let _ = crossterm::terminal::Clear(crossterm::terminal::ClearType::UntilNewLine).write_ansi(
        &mut s,
    );
    s
}

/// Relies on crossterm's `Command` impl for
/// `terminal::Clear(ClearType::All)`, which writes `"\x1b[2J"`.
#[verifier::external_body]
pub(crate) fn ansi_clear_all() -> (r: String)
    ensures
        r@ == clear_all_seq(),
{
    let mut s = String::new();
    let _ = crossterm::terminal::Clear(crossterm::terminal::ClearType::All).write_ansi(&mut s);
    s
}

/// Relies on crossterm's `Command` impl for `cursor::MoveTo(x, y)`, which
/// writes `"\x1b[{y+1};{x+1}H"` with both coordinates printed in decimal.
/// `u16::MAX` is excluded because crossterm adds one to each coordinate.
#[verifier::external_body]
pub(crate) fn ansi_move_to(x: u16, y: u16) -> (r: String)
    requires
        x < 0xFFFF,
        y < 0xFFFF,
    ensures
        r@ == move_to_seq(x as nat, y as nat),
{
    let mut s = String::new();
    let _ = crossterm::cursor::MoveTo(x, y).write_ansi(&mut s);
    s
}

} // verus!
