//! Frame composition: the renderer owns the frame buffer and the cursor
//! controller and computes one complete screen image per frame.
//!
//! A frame hides the cursor, rewrites every row from the top-left corner
//! (banner rows centered, empty rows marked with a tilde, each row followed
//! by a clear-to-end-of-line directive, a line break between rows), then
//! places the cursor and shows it again. The whole image is accumulated in
//! the buffer and handed out in one piece.

use crate::ansi::ansi_clear_all;
use crate::ansi::ansi_clear_until_newline;
use crate::ansi::ansi_hide_cursor;
use crate::ansi::ansi_move_to;
use crate::ansi::ansi_show_cursor;
use crate::ansi::clear_all_seq;
use crate::ansi::clear_until_newline_seq;
use crate::ansi::hide_cursor_seq;
use crate::ansi::move_to_seq;
use crate::ansi::show_cursor_seq;
use crate::buffer::EditorContents;
use crate::cursor::accel_step;
use crate::cursor::moved;
use crate::cursor::CursorController;
use crate::cursor::Direction;
use crate::cursor::ViewportSize;
use vstd::prelude::*;

verus! {

/// The welcome banner shown near the top quarter of the screen.
pub open spec fn welcome_text() -> Seq<char> {
    "Welcome to Rudolf"@
}

/// The version banner shown right under the welcome banner.
pub open spec fn version_text() -> Seq<char> {
    "v0.1 beta"@
}

/// `n` space characters.
pub open spec fn spaces(n: nat) -> Seq<char>
    decreases n,
{
    if n == 0 {
        Seq::empty()
    } else {
        spaces((n - 1) as nat) + seq![' ']
    }
}

/// One centered message row: the message is truncated to the column count
/// if longer; half the remaining columns (rounded down) go in front of it,
/// and when that padding is not zero its first column is the tilde marker.
/// Centering is left-biased: nothing is emitted after the message.
pub open spec fn message_row(msg: Seq<char>, columns: nat) -> Seq<char> {
    let shown = if msg.len() > columns {
        msg.take(columns as int)
    } else {
        msg
    };
    let padding = ((columns - shown.len()) / 2) as nat;
    if padding > 0 {
        seq!['~'] + spaces((padding - 1) as nat) + shown
    } else {
        shown
    }
}

/// Law: a message longer than the viewport is cut to exactly the column
/// count before the row is composed — nothing else is emitted, not even
/// the tilde marker, since no padding is left.
pub proof fn lemma_long_message_truncated(msg: Seq<char>, columns: nat)
    requires
        msg.len() > columns,
    ensures
        message_row(msg, columns) == msg.take(columns as int),
        message_row(msg, columns).len() == columns,
{
}

/// The visible text of screen row `i`: the two banner rows stand at
/// `rows / 4` and the row after it; every other row is a tilde marking an
/// empty line.
pub open spec fn row_text(i: nat, rows: nat, columns: nat) -> Seq<char> {
    if i == rows / 4 {
        message_row(welcome_text(), columns)
    } else if i == rows / 4 + 1 {
        message_row(version_text(), columns)
    } else {
        seq!['~']
    }
}

/// Everything a frame emits for screen row `i`: the row text, a
/// clear-to-end-of-line directive, and — on every row but the last — a
/// line break.
pub open spec fn row_chunk(i: nat, rows: nat, columns: nat) -> Seq<char> {
    row_text(i, rows, columns) + clear_until_newline_seq() + if i + 1 < rows {
        seq!['\r', '\n']
    } else {
        Seq::empty()
    }
}

/// The first `n` row chunks of a frame, in screen order.
pub open spec fn rows_upto(n: nat, rows: nat, columns: nat) -> Seq<char>
    decreases n,
{
    if n == 0 {
        Seq::empty()
    } else {
        rows_upto((n - 1) as nat, rows, columns) + row_chunk((n - 1) as nat, rows, columns)
    }
}

/// One complete frame for a `size` viewport with the cursor at `(x, y)`:
/// hide the cursor, move to the top-left corner, emit every row, place the
/// cursor, show it again.
pub open spec fn frame_seq(size: ViewportSize, x: nat, y: nat) -> Seq<char> {
    hide_cursor_seq() + move_to_seq(0, 0) + rows_upto(
        size.rows as nat,
        size.rows as nat,
        size.columns as nat,
    ) + move_to_seq(x, y) + show_cursor_seq()
}

/// The renderer: exclusive owner of the frame buffer and the cursor
/// controller for its whole life.
pub struct Output {
    pub win_size: ViewportSize,
    pub contents: EditorContents,
    pub cursor_ctrl: CursorController,
}

impl Output {
    /// The renderer's invariant: a usable viewport, and a cursor
    /// controller that is well formed over that same viewport.
    pub open spec fn wf(self) -> bool {
        self.win_size.wf() && self.cursor_ctrl.wf() && self.cursor_ctrl.size == self.win_size
    }

    /// A renderer for the given viewport, with an empty buffer and the
    /// cursor at the top-left corner.
    pub fn new(size: ViewportSize) -> (r: Self)
        requires
            size.wf(),
        ensures
            r.wf(),
            r.win_size == size,
            r.contents@ == Seq::<char>::empty(),
            r.cursor_ctrl.cursor_x == 0,
            r.cursor_ctrl.cursor_y == 0,
    {
        Output { win_size: size, contents: EditorContents::new(), cursor_ctrl: CursorController::new(size) }
    }

    /// Moves the cursor one cell in the given direction, bounded by the
    /// viewport; the staged frame text is untouched.
    pub fn move_cursor(&mut self, direction: Direction)
        requires
            old(self).wf(),
        ensures
            final(self).wf(),
            final(self).win_size == old(self).win_size,
            final(self).contents@ == old(self).contents@,
            (final(self).cursor_ctrl.cursor_x as nat, final(self).cursor_ctrl.cursor_y as nat)
                == moved(
                old(self).cursor_ctrl.cursor_x as nat,
                old(self).cursor_ctrl.cursor_y as nat,
                old(self).win_size,
                direction,
                1,
            ),
    {
        self.cursor_ctrl.move_cursor(direction);
    }

    /// Moves the cursor one tenth of the viewport in the given direction,
    /// bounded by the viewport; the staged frame text is untouched.
    pub fn move_10x(&mut self, direction: Direction)
        requires
            old(self).wf(),
        ensures
            final(self).wf(),
            final(self).win_size == old(self).win_size,
            final(self).contents@ == old(self).contents@,
            (final(self).cursor_ctrl.cursor_x as nat, final(self).cursor_ctrl.cursor_y as nat)
                == moved(
                old(self).cursor_ctrl.cursor_x as nat,
                old(self).cursor_ctrl.cursor_y as nat,
                old(self).win_size,
                direction,
                accel_step(old(self).win_size, direction),
            ),
    {
        self.cursor_ctrl.move_10x(direction);
    }

    /// The text that clears the whole screen and returns the terminal
    /// cursor to the top-left corner, for delivery outside a frame.
    pub fn clear_screen_text() -> (r: String)
        ensures
            r@ == clear_all_seq() + move_to_seq(0, 0),
    {
        let mut out = EditorContents::new();
        let clear = ansi_clear_all();
        out.push_str(clear.as_str());
        let top = ansi_move_to(0, 0);
        out.push_str(top.as_str());
        let r = out.take();
        proof {
            assert(r@ =~= clear_all_seq() + move_to_seq(0, 0));
        }
        r
    }

    /// Stages one centered message row into the frame buffer.
    pub fn draw_message(&mut self, message: &str)
        requires
            old(self).wf(),
        ensures
            final(self).wf(),
            final(self).win_size == old(self).win_size,
            final(self).cursor_ctrl == old(self).cursor_ctrl,
            final(self).contents@ == old(self).contents@ + message_row(
                message@,
                old(self).win_size.columns as nat,
            ),
    {
        let columns = self.win_size.columns;
        let len = message.unicode_len();
        let shown: &str = if len > columns {
            message.substring_char(0, columns)
        } else {
            message
        };
        let shown_len: usize = if len > columns {
            columns
        } else {
            len
        };
        let mut padding: usize = (columns - shown_len) / 2;
        let ghost head: Seq<char> = self.contents@;
        let ghost pad0: nat = padding as nat;
        if padding > 0 {
            self.contents.push('~');
            padding = padding - 1;
        }
        let ghost marked: Seq<char> = self.contents@;
        let mut i: usize = 0;
        while i < padding
            invariant
                i <= padding,
                self.contents@ == marked + spaces(i as nat),
                self.win_size == old(self).win_size,
                self.cursor_ctrl == old(self).cursor_ctrl,
                self.wf(),
            decreases padding - i,
        {
            self.contents.push(' ');
            proof {
                assert(spaces((i + 1) as nat) == spaces(i as nat) + seq![' ']);
                assert(self.contents@ =~= marked + spaces((i + 1) as nat));
            }
            i = i + 1;
        }
        self.contents.push_str(shown);
        proof {
            let cols = old(self).win_size.columns as nat;
            let target = message_row(message@, cols);
            if pad0 > 0 {
                assert(self.contents@ =~= head + (seq!['~'] + spaces((pad0 - 1) as nat) + shown@));
            } else {
                assert(spaces(0) == Seq::<char>::empty());
                assert(self.contents@ =~= head + shown@);
            }
            assert(self.contents@ =~= head + target);
        }
    }

    /// Stages every screen row: the two banners, tilde markers everywhere
    /// else, a clear-to-end-of-line directive after each row's text, and a
    /// line break after every row but the last.
    pub fn draw_rows(&mut self)
        requires
            old(self).wf(),
        ensures
            final(self).wf(),
            final(self).win_size == old(self).win_size,
            final(self).cursor_ctrl == old(self).cursor_ctrl,
            final(self).contents@ == old(self).contents@ + rows_upto(
                old(self).win_size.rows as nat,
                old(self).win_size.rows as nat,
                old(self).win_size.columns as nat,
            ),
    {
        let screen_rows = self.win_size.rows;
        let ghost base: Seq<char> = self.contents@;
        let ghost rows_n: nat = screen_rows as nat;
        let ghost cols_n: nat = self.win_size.columns as nat;
        let mut i: usize = 0;
        while i < screen_rows
            invariant
                i <= screen_rows,
                self.wf(),
                self.win_size == old(self).win_size,
                self.cursor_ctrl == old(self).cursor_ctrl,
                screen_rows == self.win_size.rows,
                rows_n == screen_rows as nat,
                cols_n == self.win_size.columns as nat,
                self.contents@ == base + rows_upto(i as nat, rows_n, cols_n),
            decreases screen_rows - i,
        {
            let ghost before_row: Seq<char> = self.contents@;
            if i == screen_rows / 4 {
                self.draw_message("Welcome to Rudolf");
            } else if i == screen_rows / 4 + 1 {
                self.draw_message("v0.1 beta");
            } else {
                self.contents.push('~');
            }
            proof {
                assert(self.contents@ =~= before_row + row_text(i as nat, rows_n, cols_n));
            }
            let clear = ansi_clear_until_newline();
            self.contents.push_str(clear.as_str());
            if i < screen_rows - 1 {
                self.contents.push_str("\r\n");
                proof {
                    reveal_strlit("\r\n");
                    assert("\r\n"@ =~= seq!['\r', '\n']);
                }
            }
            proof {
                assert(self.contents@ =~= before_row + row_chunk(i as nat, rows_n, cols_n));
                assert(rows_upto((i + 1) as nat, rows_n, cols_n) == rows_upto(i as nat, rows_n, cols_n)
                    + row_chunk(i as nat, rows_n, cols_n));
                assert(self.contents@ =~= base + rows_upto((i + 1) as nat, rows_n, cols_n));
            }
            i = i + 1;
        }
    }

    /// Composes one complete frame after whatever the buffer already held,
    /// empties the buffer, and hands the whole text out: the caller must
    /// deliver it to the terminal in a single write.
    pub fn refresh_screen(&mut self) -> (frame: String)
        requires
            old(self).wf(),
        ensures
            final(self).wf(),
            final(self).win_size == old(self).win_size,
            final(self).cursor_ctrl == old(self).cursor_ctrl,
            final(self).contents@ == Seq::<char>::empty(),
            frame@ == old(self).contents@ + frame_seq(
                old(self).win_size,
                old(self).cursor_ctrl.cursor_x as nat,
                old(self).cursor_ctrl.cursor_y as nat,
            ),
    {
        let hide = ansi_hide_cursor();
        self.contents.push_str(hide.as_str());
        let top = ansi_move_to(0, 0);
        self.contents.push_str(top.as_str());
        self.draw_rows();
        proof {
            assert(self.cursor_ctrl.cursor_x < 0xFFFF && self.cursor_ctrl.cursor_y < 0xFFFF);
        }
        let x = self.cursor_ctrl.cursor_x as u16;
        let y = self.cursor_ctrl.cursor_y as u16;
        let place = ansi_move_to(x, y);
        self.contents.push_str(place.as_str());
        let show = ansi_show_cursor();
        self.contents.push_str(show.as_str());
        let frame = self.contents.take();
        proof {
            assert(frame@ =~= old(self).contents@ + frame_seq(
                old(self).win_size,
                old(self).cursor_ctrl.cursor_x as nat,
                old(self).cursor_ctrl.cursor_y as nat,
            ));
        }
        frame
    }
}

} // verus!
