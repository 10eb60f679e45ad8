//! Classification of raw key events into the few intents the editor acts on.
//!
//! The raw event is the plain shape of what the terminal reports: a key
//! code, which single modifier set was held, whether the key was pressed
//! (as opposed to released or repeated), and whether any extra state flags
//! were set. The binary that polls the terminal builds this shape; the
//! classification itself is decided here.

use crate::cursor::Direction;
use vstd::prelude::*;

verus! {

/// The key named by a raw event, as far as the editor distinguishes keys.
#[derive(Clone, Copy, PartialEq, Eq, Structural, Debug)]
pub enum KeyCode {
    Up,
    Down,
    Left,
    Right,
    Char(char),
    Other,
}

/// The modifier set held with the key: exactly none, exactly shift,
/// exactly control, or any other combination.
#[derive(Clone, Copy, PartialEq, Eq, Structural, Debug)]
pub enum Modifiers {
    Plain,
    Shift,
    Control,
    Mixed,
}

/// Whether the event reports a key press, or anything else (a release or
/// a repeat).
#[derive(Clone, Copy, PartialEq, Eq, Structural, Debug)]
pub enum EventKind {
    Press,
    NonPress,
}

/// One raw key event; `state_empty` says that no extra state flags (such
/// as keypad or caps-lock indicators) came with it.
#[derive(Clone, Copy, PartialEq, Eq, Structural, Debug)]
pub struct KeyEvent {
    pub code: KeyCode,
    pub modifiers: Modifiers,
    pub kind: EventKind,
    pub state_empty: bool,
}

/// How fast a movement intent travels: one cell, or one tenth of the
/// viewport dimension.
#[derive(Clone, Copy, PartialEq, Eq, Structural, Debug)]
pub enum Magnitude {
    Unit,
    Accelerated,
}

/// What the editor is asked to do by one key event.
#[derive(Clone, Copy, PartialEq, Eq, Structural, Debug)]
pub enum KeyIntent {
    Quit,
    Move(Direction, Magnitude),
    Unrecognized,
}

/// The intent of a raw key event: control-q quits, a plain arrow key moves
/// one cell, a shifted arrow key moves accelerated, and everything else —
/// including releases, repeats and events with extra state flags — is
/// unrecognized.
pub open spec fn intent_of(ev: KeyEvent) -> KeyIntent {
    if ev.kind != EventKind::Press || !ev.state_empty {
        KeyIntent::Unrecognized
    } else if ev.code == KeyCode::Char('q') && ev.modifiers == Modifiers::Control {
        KeyIntent::Quit
    } else {
        match (ev.code, ev.modifiers) {
            (KeyCode::Up, Modifiers::Shift) => KeyIntent::Move(
                Direction::Up,
                Magnitude::Accelerated,
            ),
            (KeyCode::Down, Modifiers::Shift) => KeyIntent::Move(
                Direction::Down,
                Magnitude::Accelerated,
            ),
            (KeyCode::Left, Modifiers::Shift) => KeyIntent::Move(
                Direction::Left,
                Magnitude::Accelerated,
            ),
            (KeyCode::Right, Modifiers::Shift) => KeyIntent::Move(
                Direction::Right,
                Magnitude::Accelerated,
            ),
            (KeyCode::Up, Modifiers::Plain) => KeyIntent::Move(Direction::Up, Magnitude::Unit),
            (KeyCode::Down, Modifiers::Plain) => KeyIntent::Move(Direction::Down, Magnitude::Unit),
            (KeyCode::Left, Modifiers::Plain) => KeyIntent::Move(Direction::Left, Magnitude::Unit),
            (KeyCode::Right, Modifiers::Plain) => KeyIntent::Move(
                Direction::Right,
                Magnitude::Unit,
            ),
            _ => KeyIntent::Unrecognized,
        }
    }
}

/// Classifies one raw key event.
pub fn classify(ev: KeyEvent) -> (intent: KeyIntent)
    ensures
        intent == intent_of(ev),
{
    if !matches!(ev.kind, EventKind::Press) || !ev.state_empty {
        return KeyIntent::Unrecognized;
    }
    match (ev.code, ev.modifiers) {
        (KeyCode::Char(c), Modifiers::Control) => {
            if c == 'q' {
                KeyIntent::Quit
            } else {
                KeyIntent::Unrecognized
            }
        },
        (KeyCode::Up, Modifiers::Shift) => KeyIntent::Move(Direction::Up, Magnitude::Accelerated),
        (KeyCode::Down, Modifiers::Shift) => KeyIntent::Move(
            Direction::Down,
            Magnitude::Accelerated,
        ),
        (KeyCode::Left, Modifiers::Shift) => KeyIntent::Move(
            Direction::Left,
            Magnitude::Accelerated,
        ),
        (KeyCode::Right, Modifiers::Shift) => KeyIntent::Move(
            Direction::Right,
            Magnitude::Accelerated,
        ),
        (KeyCode::Up, Modifiers::Plain) => KeyIntent::Move(Direction::Up, Magnitude::Unit),
        (KeyCode::Down, Modifiers::Plain) => KeyIntent::Move(Direction::Down, Magnitude::Unit),
        (KeyCode::Left, Modifiers::Plain) => KeyIntent::Move(Direction::Left, Magnitude::Unit),
        (KeyCode::Right, Modifiers::Plain) => KeyIntent::Move(Direction::Right, Magnitude::Unit),
        _ => KeyIntent::Unrecognized,
    }
}

} // verus!
