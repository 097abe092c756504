use line_editor::{render, State};

#[test]
fn blank_state_is_drawn_as_one_empty_row() {
    assert_eq!(render(&State::blank()), "\x1b[2J\x1b[1;1H\r\n\x1b[1;1H");
}

#[test]
fn every_line_is_drawn_on_its_own_row() {
    let state = State::new(vec!["hi".to_string(), String::new(), "you".to_string()], (2, 3));
    assert_eq!(render(&state), "\x1b[2J\x1b[1;1Hhi\r\n\r\nyou\r\n\x1b[3;2H");
}

#[test]
fn cursor_is_written_row_first_in_decimal() {
    let line: String = "x".repeat(120);
    let mut lines = vec![String::new(); 11];
    lines.push(line.clone());
    let state = State::new(lines, (107, 12));
    let text = render(&state);
    assert!(text.starts_with("\x1b[2J\x1b[1;1H\r\n"));
    assert!(text.ends_with(&format!("{}\r\n\x1b[12;107H", line)));
}

#[test]
fn largest_cursor_is_written_in_full() {
    let state = State::new(vec!["a".to_string()], (65535, 65535));
    assert_eq!(render(&state), "\x1b[2J\x1b[1;1Ha\r\n\x1b[65535;65535H");
}

#[test]
fn zero_coordinate_is_written_as_zero() {
    let state = State::new(vec!["a".to_string()], (10, 0));
    assert_eq!(render(&state), "\x1b[2J\x1b[1;1Ha\r\n\x1b[0;10H");
}

#[test]
fn empty_buffer_is_drawn_without_rows() {
    let state = State::new(Vec::new(), (1, 1));
    assert_eq!(render(&state), "\x1b[2J\x1b[1;1H\x1b[1;1H");
}
