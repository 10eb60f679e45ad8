use rudolf::cursor::Direction;
use rudolf::cursor::ViewportSize;
use rudolf::editor::Editor;
use rudolf::input::EventKind;
use rudolf::input::KeyCode;
use rudolf::input::KeyEvent;
use rudolf::input::Modifiers;

fn pressed(code: KeyCode, modifiers: Modifiers) -> KeyEvent {
    KeyEvent { code, modifiers, kind: EventKind::Press, state_empty: true }
}

#[test]
fn quit_terminates_after_exactly_one_frame() {
    let mut editor = Editor::new(ViewportSize { columns: 80, rows: 24 });
    let frame = editor.refresh_screen();
    assert!(frame.starts_with("\x1b[?25l\x1b[1;1H"));
    assert!(frame.ends_with("\x1b[1;1H\x1b[?25h"));
    assert_eq!(frame.matches("\x1b[K").count(), 24);
    assert!(editor.output.contents.as_string().is_empty());
    let running = editor.process_keypress(pressed(KeyCode::Char('q'), Modifiers::Control));
    assert!(!running);
    assert_eq!(editor.output.cursor_ctrl.cursor_x, 0);
    assert_eq!(editor.output.cursor_ctrl.cursor_y, 0);
}

#[test]
fn arrow_keys_move_and_keep_running() {
    let mut editor = Editor::new(ViewportSize { columns: 80, rows: 24 });
    assert!(editor.process_keypress(pressed(KeyCode::Right, Modifiers::Plain)));
    assert!(editor.process_keypress(pressed(KeyCode::Down, Modifiers::Plain)));
    assert_eq!(editor.output.cursor_ctrl.cursor_x, 1);
    assert_eq!(editor.output.cursor_ctrl.cursor_y, 1);
}

#[test]
fn shifted_arrows_move_cursor_accelerated() {
    let mut editor = Editor::new(ViewportSize { columns: 80, rows: 24 });
    assert!(editor.process_keypress(pressed(KeyCode::Right, Modifiers::Shift)));
    assert!(editor.process_keypress(pressed(KeyCode::Down, Modifiers::Shift)));
    assert_eq!(editor.output.cursor_ctrl.cursor_x, 8);
    assert_eq!(editor.output.cursor_ctrl.cursor_y, 2);
}

#[test]
fn unrecognized_events_change_nothing() {
    let mut editor = Editor::new(ViewportSize { columns: 80, rows: 24 });
    let running = editor.process_keypress(pressed(KeyCode::Char('x'), Modifiers::Plain));
    assert!(running);
    assert_eq!(editor.output.cursor_ctrl.cursor_x, 0);
    assert_eq!(editor.output.cursor_ctrl.cursor_y, 0);
}

#[test]
fn each_frame_reflects_the_current_cursor() {
    let mut editor = Editor::new(ViewportSize { columns: 80, rows: 24 });
    let first = editor.refresh_screen();
    assert!(first.ends_with("\x1b[1;1H\x1b[?25h"));
    assert!(editor.process_keypress(pressed(KeyCode::Right, Modifiers::Plain)));
    let second = editor.refresh_screen();
    assert!(second.ends_with("\x1b[1;2H\x1b[?25h"));
    let mut expected = first.clone();
    // Only the final cursor placement differs between the two frames.
    expected.truncate(first.len() - "\x1b[1;1H\x1b[?25h".len());
    expected.push_str("\x1b[1;2H\x1b[?25h");
    assert_eq!(second, expected);
}

#[test]
fn quit_event_moves_no_cursor_even_mid_session() {
    let mut editor = Editor::new(ViewportSize { columns: 80, rows: 24 });
    assert!(editor.process_keypress(pressed(KeyCode::Down, Modifiers::Plain)));
    let running = editor.process_keypress(pressed(KeyCode::Char('q'), Modifiers::Control));
    assert!(!running);
    assert_eq!(editor.output.cursor_ctrl.cursor_y, 1);
}
