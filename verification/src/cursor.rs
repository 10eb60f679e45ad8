//! Cursor navigation inside a fixed viewport.
//!
//! The controller owns the cursor coordinates and the viewport dimensions
//! and keeps `0 <= x < columns` and `0 <= y < rows` through every move:
//! decrements saturate at zero, increments are refused at the last valid
//! index and clamped to it when an accelerated step would pass it.

use vstd::prelude::*;

verus! {

/// A movement direction; each one affects exactly one axis.
#[derive(Clone, Copy, PartialEq, Eq, Structural, Debug)]
pub enum Direction {
    Up,
    Down,
    Left,
    Right,
}

/// The terminal's character grid, measured once at startup and fixed for
/// the life of the process.
#[derive(Clone, Copy, PartialEq, Eq, Structural, Debug)]
pub struct ViewportSize {
    pub columns: usize,
    pub rows: usize,
}

impl ViewportSize {
    /// A usable viewport: at least one cell, and small enough that every
    /// cell coordinate fits the terminal wire format (a 16-bit number that
    /// is still incremented once on the wire).
    pub open spec fn wf(self) -> bool {
        1 <= self.columns <= 0xFFFF && 1 <= self.rows <= 0xFFFF
    }
}

/// `v - step`, saturating at zero.
pub open spec fn sat_sub(v: nat, step: nat) -> nat {
    if v >= step {
        (v - step) as nat
    } else {
        0
    }
}

/// `v + step` against the valid indices `[0, bound)`: refused when `v` is
/// already the last valid index, clamped to that index when the step would
/// pass it.
pub open spec fn bounded_add(v: nat, step: nat, bound: nat) -> nat {
    if v + 1 >= bound {
        v
    } else if v + step + 1 >= bound {
        (bound - 1) as nat
    } else {
        v + step
    }
}

/// Where one move of `step` cells in direction `d` sends the cursor
/// `(x, y)` inside a `size` viewport.
pub open spec fn moved(x: nat, y: nat, size: ViewportSize, d: Direction, step: nat) -> (nat, nat) {
    match d {
        Direction::Up => (x, sat_sub(y, step)),
        Direction::Down => (x, bounded_add(y, step, size.rows as nat)),
        Direction::Left => (sat_sub(x, step), y),
        Direction::Right => (bounded_add(x, step, size.columns as nat), y),
    }
}

/// Owns the cursor position and the viewport it must stay inside.
pub struct CursorController {
    pub cursor_x: usize,
    pub cursor_y: usize,
    pub size: ViewportSize,
}

impl CursorController {
    /// The controller's invariant: the viewport is usable and the cursor
    /// is a valid cell index on both axes.
    pub open spec fn wf(self) -> bool {
        self.size.wf() && self.cursor_x < self.size.columns && self.cursor_y < self.size.rows
    }

    /// A controller at the top-left corner of the given viewport.
    pub fn new(size: ViewportSize) -> (r: Self)
        requires
            size.wf(),
        ensures
            r.wf(),
            r.cursor_x == 0,
            r.cursor_y == 0,
            r.size == size,
    {
        CursorController { cursor_x: 0, cursor_y: 0, size }
    }

    /// Moves the cursor by exactly one cell: up and left saturate at zero,
    /// down and right are refused at the last valid index, so the position
    /// stays a valid cell index.
    pub fn move_cursor(&mut self, direction: Direction)
        requires
            old(self).wf(),
        ensures
            final(self).wf(),
            final(self).size == old(self).size,
            (final(self).cursor_x as nat, final(self).cursor_y as nat) == moved(
                old(self).cursor_x as nat,
                old(self).cursor_y as nat,
                old(self).size,
                direction,
                1,
            ),
    {
        match direction {
            Direction::Up => {
                if self.cursor_y > 0 {
                    self.cursor_y = self.cursor_y - 1;
                }
            },
            Direction::Left => {
                if self.cursor_x > 0 {
                    self.cursor_x = self.cursor_x - 1;
                }
            },
            Direction::Down => {
                if self.cursor_y != self.size.rows - 1 {
                    self.cursor_y = self.cursor_y + 1;
                }
            },
            Direction::Right => {
                if self.cursor_x != self.size.columns - 1 {
                    self.cursor_x = self.cursor_x + 1;
                }
            },
        }
    }

    /// Moves the cursor by one tenth of the viewport dimension on the moved
    /// axis (integer division, so a viewport under ten cells wide or tall
    /// gives a step of zero and the position does not change). Decrements
    /// saturate at zero; an increment is refused at the last valid index
    /// and clamped to it when the step would pass it.
    pub fn move_10x(&mut self, direction: Direction)
        requires
            old(self).wf(),
        ensures
            final(self).wf(),
            final(self).size == old(self).size,
            (final(self).cursor_x as nat, final(self).cursor_y as nat) == moved(
                old(self).cursor_x as nat,
                old(self).cursor_y as nat,
                old(self).size,
                direction,
                accel_step(old(self).size, direction),
            ),
            accel_step(old(self).size, direction) == 0 ==> final(self).cursor_x == old(
                self,
            ).cursor_x && final(self).cursor_y == old(self).cursor_y,
    {
        let vertical = self.size.rows / 10;
        let horizontal = self.size.columns / 10;
        match direction {
            Direction::Up => {
                if self.cursor_y >= vertical {
                    self.cursor_y = self.cursor_y - vertical;
                } else {
                    self.cursor_y = 0;
                }
            },
            Direction::Left => {
                if self.cursor_x >= horizontal {
                    self.cursor_x = self.cursor_x - horizontal;
                } else {
                    self.cursor_x = 0;
                }
            },
            Direction::Down => {
                if self.cursor_y != self.size.rows - 1 {
                    if self.cursor_y + vertical <= self.size.rows - 1 {
                        self.cursor_y = self.cursor_y + vertical;
                    } else {
                        self.cursor_y = self.size.rows - 1;
                    }
                }
            },
            Direction::Right => {
                if self.cursor_x != self.size.columns - 1 {
                    if self.cursor_x + horizontal <= self.size.columns - 1 {
                        self.cursor_x = self.cursor_x + horizontal;
                    } else {
                        self.cursor_x = self.size.columns - 1;
                    }
                }
            },
        }
    }
}

/// The cell count of one accelerated move: a tenth of the viewport
/// dimension on the moved axis.
pub open spec fn accel_step(size: ViewportSize, d: Direction) -> nat {
    match d {
        Direction::Up | Direction::Down => (size.rows / 10) as nat,
        Direction::Left | Direction::Right => (size.columns / 10) as nat,
    }
}

/// Where a whole sequence of single-cell moves, applied in order, sends the
/// cursor `(x, y)`.
pub open spec fn moved_unit_seq(x: nat, y: nat, size: ViewportSize, ds: Seq<Direction>) -> (
    nat,
    nat,
)
    decreases ds.len(),
{
    if ds.len() == 0 {
        (x, y)
    } else {
        let first = moved(x, y, size, ds[0], 1);
        moved_unit_seq(first.0, first.1, size, ds.drop_first())
    }
}

/// Law: every sequence of single-cell moves keeps the cursor inside the
/// viewport, on both axes.
pub proof fn lemma_unit_moves_stay_in_viewport(
    x: nat,
    y: nat,
    size: ViewportSize,
    ds: Seq<Direction>,
)
    requires
        size.wf(),
        x < size.columns,
        y < size.rows,
    ensures
        moved_unit_seq(x, y, size, ds).0 < size.columns,
        moved_unit_seq(x, y, size, ds).1 < size.rows,
    decreases ds.len(),
{
    if ds.len() > 0 {
        let first = moved(x, y, size, ds[0], 1);
        lemma_unit_moves_stay_in_viewport(first.0, first.1, size, ds.drop_first());
    }
}

/// Law: a run of single-cell upward moves takes the cursor to row
/// `sat_sub(y, n)` after `n` moves, so at least `y` of them reach row zero,
/// and further ones leave it there; the column never changes.
pub proof fn lemma_repeated_up_saturates(x: nat, y: nat, size: ViewportSize, ds: Seq<Direction>)
    requires
        size.wf(),
        x < size.columns,
        y < size.rows,
        forall|i: int| 0 <= i < ds.len() ==> ds[i] == Direction::Up,
    ensures
        moved_unit_seq(x, y, size, ds) == (x, sat_sub(y, ds.len())),
        ds.len() >= y ==> moved_unit_seq(x, y, size, ds).1 == 0,
    decreases ds.len(),
{
    if ds.len() > 0 {
        let first = moved(x, y, size, ds[0], 1);
        lemma_repeated_up_saturates(first.0, first.1, size, ds.drop_first());
    }
}

/// Law: a run of single-cell rightward moves advances the cursor one column
/// each time until it stands at the last column, `columns - 1`, and leaves
/// it there afterwards, never past it; the row never changes.
pub proof fn lemma_repeated_right_stops_at_last_column(
    x: nat,
    y: nat,
    size: ViewportSize,
    ds: Seq<Direction>,
)
    requires
        size.wf(),
        x < size.columns,
        y < size.rows,
        forall|i: int| 0 <= i < ds.len() ==> ds[i] == Direction::Right,
    ensures
        moved_unit_seq(x, y, size, ds) == (
            if x + ds.len() < size.columns {
                (x + ds.len()) as nat
            } else {
                (size.columns - 1) as nat
            },
            y,
        ),
        ds.len() + x + 1 >= size.columns ==> moved_unit_seq(x, y, size, ds).0 == size.columns - 1,
    decreases ds.len(),
{
    if ds.len() > 0 {
        let first = moved(x, y, size, ds[0], 1);
        lemma_repeated_right_stops_at_last_column(first.0, first.1, size, ds.drop_first());
    }
}

} // verus!
