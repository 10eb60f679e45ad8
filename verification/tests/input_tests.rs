use rudolf::cursor::Direction;
use rudolf::input::classify;
use rudolf::input::EventKind;
use rudolf::input::KeyCode;
use rudolf::input::KeyEvent;
use rudolf::input::KeyIntent;
use rudolf::input::Magnitude;
use rudolf::input::Modifiers;

fn pressed(code: KeyCode, modifiers: Modifiers) -> KeyEvent {
    KeyEvent { code, modifiers, kind: EventKind::Press, state_empty: true }
}

#[test]
fn control_q_quits() {
    let ev = pressed(KeyCode::Char('q'), Modifiers::Control);
    assert_eq!(classify(ev), KeyIntent::Quit);
}

#[test]
fn plain_arrows_move_one_cell() {
    let cases = [
        (KeyCode::Up, Direction::Up),
        (KeyCode::Down, Direction::Down),
        (KeyCode::Left, Direction::Left),
        (KeyCode::Right, Direction::Right),
    ];
    for (code, direction) in cases {
        let ev = pressed(code, Modifiers::Plain);
        assert_eq!(classify(ev), KeyIntent::Move(direction, Magnitude::Unit));
    }
}

#[test]
fn shifted_arrows_move_accelerated() {
    let cases = [
        (KeyCode::Up, Direction::Up),
        (KeyCode::Down, Direction::Down),
        (KeyCode::Left, Direction::Left),
        (KeyCode::Right, Direction::Right),
    ];
    for (code, direction) in cases {
        let ev = pressed(code, Modifiers::Shift);
        assert_eq!(classify(ev), KeyIntent::Move(direction, Magnitude::Accelerated));
    }
}

#[test]
fn control_arrows_are_unrecognized() {
    let ev = pressed(KeyCode::Up, Modifiers::Control);
    assert_eq!(classify(ev), KeyIntent::Unrecognized);
}

#[test]
fn plain_letter_is_unrecognized() {
    let ev = pressed(KeyCode::Char('q'), Modifiers::Plain);
    assert_eq!(classify(ev), KeyIntent::Unrecognized);
}

#[test]
fn control_with_another_letter_is_unrecognized() {
    let ev = pressed(KeyCode::Char('p'), Modifiers::Control);
    assert_eq!(classify(ev), KeyIntent::Unrecognized);
}

#[test]
fn mixed_modifiers_are_unrecognized() {
    let ev = pressed(KeyCode::Right, Modifiers::Mixed);
    assert_eq!(classify(ev), KeyIntent::Unrecognized);
}

#[test]
fn releases_are_unrecognized() {
    let mut ev = pressed(KeyCode::Char('q'), Modifiers::Control);
    ev.kind = EventKind::NonPress;
    assert_eq!(classify(ev), KeyIntent::Unrecognized);
}

#[test]
fn extra_state_flags_are_unrecognized() {
    let mut ev = pressed(KeyCode::Up, Modifiers::Plain);
    ev.state_empty = false;
    assert_eq!(classify(ev), KeyIntent::Unrecognized);
}

#[test]
fn unnamed_keys_are_unrecognized() {
    let ev = pressed(KeyCode::Other, Modifiers::Plain);
    assert_eq!(classify(ev), KeyIntent::Unrecognized);
}
