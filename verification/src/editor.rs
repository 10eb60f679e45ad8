//! The editor's dispatch core: a two-state machine (running, terminated)
//! that turns one classified key event into at most one renderer call.
//!
//! The surrounding binary drives the loop — render, block for one key,
//! dispatch — until this core reports termination.

use crate::cursor::accel_step;
use crate::cursor::moved;
use crate::cursor::Direction;
use crate::cursor::ViewportSize;
use crate::input::classify;
use crate::input::intent_of;
use crate::input::KeyEvent;
use crate::input::KeyIntent;
use crate::input::Magnitude;
use crate::render::frame_seq;
use crate::render::Output;
use vstd::prelude::*;

verus! {

/// How many cells one movement intent travels in direction `d` inside a
/// `size` viewport.
pub open spec fn step_cells(size: ViewportSize, d: Direction, m: Magnitude) -> nat {
    match m {
        Magnitude::Unit => 1,
        Magnitude::Accelerated => accel_step(size, d),
    }
}

/// The editor: owns the renderer (and through it the frame buffer and the
/// cursor) for the life of the process.
pub struct Editor {
    pub output: Output,
}

impl Editor {
    /// The editor's invariant: its renderer is well formed.
    pub open spec fn wf(self) -> bool {
        self.output.wf()
    }

    /// An editor for the given viewport, cursor at the top-left corner,
    /// nothing staged in the frame buffer.
    pub fn new(size: ViewportSize) -> (r: Self)
        requires
            size.wf(),
        ensures
            r.wf(),
            r.output.win_size == size,
            r.output.contents@ == Seq::<char>::empty(),
            r.output.cursor_ctrl.cursor_x == 0,
            r.output.cursor_ctrl.cursor_y == 0,
    {
        Editor { output: Output::new(size) }
    }

    /// Composes and hands out the next frame; the caller delivers it to
    /// the terminal in a single write before reading the next key.
    pub fn refresh_screen(&mut self) -> (frame: String)
        requires
            old(self).wf(),
        ensures
            final(self).wf(),
            final(self).output.win_size == old(self).output.win_size,
            final(self).output.cursor_ctrl == old(self).output.cursor_ctrl,
            final(self).output.contents@ == Seq::<char>::empty(),
            frame@ == old(self).output.contents@ + frame_seq(
                old(self).output.win_size,
                old(self).output.cursor_ctrl.cursor_x as nat,
                old(self).output.cursor_ctrl.cursor_y as nat,
            ),
    {
        self.output.refresh_screen()
    }

    /// Dispatches one raw key event: a quit intent terminates the machine
    /// (and nothing else changes), a movement intent moves the cursor by
    /// its magnitude, and an unrecognized event changes nothing. The
    /// result says whether the editor is still running.
    pub fn process_keypress(&mut self, ev: KeyEvent) -> (running: bool)
        requires
            old(self).wf(),
        ensures
            final(self).wf(),
            final(self).output.win_size == old(self).output.win_size,
            final(self).output.contents@ == old(self).output.contents@,
            running == (intent_of(ev) != KeyIntent::Quit),
            match intent_of(ev) {
                KeyIntent::Move(d, m) => (
                    final(self).output.cursor_ctrl.cursor_x as nat,
                    final(self).output.cursor_ctrl.cursor_y as nat,
                ) == moved(
                    old(self).output.cursor_ctrl.cursor_x as nat,
                    old(self).output.cursor_ctrl.cursor_y as nat,
                    old(self).output.win_size,
                    d,
                    step_cells(old(self).output.win_size, d, m),
                ),
                KeyIntent::Quit => final(self).output.cursor_ctrl == old(self).output.cursor_ctrl,
                KeyIntent::Unrecognized => final(self).output.cursor_ctrl == old(
                    self,
                ).output.cursor_ctrl,
            },
    {
        let intent = classify(ev);
        match intent {
            KeyIntent::Quit => false,
            KeyIntent::Move(direction, Magnitude::Unit) => {
                self.output.move_cursor(direction);
                true
            },
            KeyIntent::Move(direction, Magnitude::Accelerated) => {
                self.output.move_10x(direction);
                true
            },
            KeyIntent::Unrecognized => true,
        }
    }
}

} // verus!
