use rudolf::cursor::Direction;
use rudolf::cursor::ViewportSize;
use rudolf::render::Output;

fn output(columns: usize, rows: usize) -> Output {
    Output::new(ViewportSize { columns, rows })
}

#[test]
fn message_longer_than_viewport_is_truncated() {
    let mut out = output(10, 8);
    out.draw_message("abcdefghijklmno");
    assert_eq!(out.contents.as_string(), "abcdefghij");
}

#[test]
fn message_is_centered_left_biased() {
    let mut out = output(10, 8);
    out.draw_message("abcd");
    assert_eq!(out.contents.as_string(), "~  abcd");
    assert_eq!(out.contents.as_string().len(), 7);
}

#[test]
fn message_filling_the_width_gets_no_marker() {
    let mut out = output(9, 8);
    out.draw_message("v0.1 beta");
    assert_eq!(out.contents.as_string(), "v0.1 beta");
}

#[test]
fn message_one_column_shorter_gets_no_marker() {
    let mut out = output(5, 8);
    out.draw_message("abcd");
    assert_eq!(out.contents.as_string(), "abcd");
}

#[test]
fn frame_emits_one_clear_per_row_and_breaks_between() {
    let mut out = output(10, 8);
    let frame = out.refresh_screen();
    assert_eq!(frame.matches("\x1b[K").count(), 8);
    assert_eq!(frame.matches("\r\n").count(), 7);
    assert!(!frame.ends_with("\r\n"));
    assert!(frame.starts_with("\x1b[?25l\x1b[1;1H"));
    assert!(frame.ends_with("\x1b[1;1H\x1b[?25h"));
    assert!(out.contents.as_string().is_empty());
}

#[test]
fn whole_frame_of_a_small_viewport() {
    let mut out = output(10, 4);
    let frame = out.refresh_screen();
    let expected = "\x1b[?25l\x1b[1;1H~\x1b[K\r\nWelcome to\x1b[K\r\nv0.1 beta\x1b[K\r\n~\x1b[K\x1b[1;1H\x1b[?25h";
    assert_eq!(frame, expected);
}

#[test]
fn welcome_banner_is_centered_on_a_wide_viewport() {
    let mut out = output(80, 24);
    let frame = out.refresh_screen();
    // rows / 4 == 6: five tilde rows precede the banner row.
    let banner_padding = (80 - "Welcome to Rudolf".len()) / 2;
    let banner = format!("~{}Welcome to Rudolf", " ".repeat(banner_padding - 1));
    let version_padding = (80 - "v0.1 beta".len()) / 2;
    let version = format!("~{}v0.1 beta", " ".repeat(version_padding - 1));
    let rows: Vec<&str> = frame.split("\r\n").collect();
    assert_eq!(rows.len(), 24);
    assert_eq!(rows[6], format!("{}\x1b[K", banner));
    assert_eq!(rows[7], format!("{}\x1b[K", version));
    assert_eq!(rows[5], "~\x1b[K");
}

#[test]
fn frame_places_the_cursor_where_the_controller_stands() {
    let mut out = output(80, 24);
    out.move_10x(Direction::Right);
    out.move_cursor(Direction::Down);
    out.move_cursor(Direction::Down);
    let frame = out.refresh_screen();
    // Zero-based (8, 2) is one-based row 3, column 9 on the wire.
    assert!(frame.ends_with("\x1b[3;9H\x1b[?25h"));
}

#[test]
fn clear_screen_text_clears_and_homes() {
    assert_eq!(Output::clear_screen_text(), "\x1b[2J\x1b[1;1H");
}
