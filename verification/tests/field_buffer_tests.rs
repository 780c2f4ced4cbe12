use todo_tui::tui::state::field_buffer::FieldBuffer;

#[test]
fn new_starts_cursor_at_end() {
    let buf = FieldBuffer::new("abc".to_string());
    assert_eq!(buf.cursor, 3);
}

#[test]
fn reset_cursor_jumps_to_end() {
    let mut buf = FieldBuffer::new("abc".to_string());
    buf.move_left();
    buf.reset_cursor();
    assert_eq!(buf.cursor, 3);
}

#[test]
fn move_left_and_right_are_clamped() {
    let mut buf = FieldBuffer::new("ab".to_string());
    buf.move_right(); // already at right edge
    assert_eq!(buf.cursor, 2);

    buf.move_left();
    assert_eq!(buf.cursor, 1);

    buf.move_left();
    assert_eq!(buf.cursor, 0);

    buf.move_left();
    assert_eq!(buf.cursor, 0);
}

#[test]
fn insert_char_in_the_middle_unicode() {
    // "🔥" is multibyte; total chars = 2
    let mut buf = FieldBuffer::new("a🔥".to_string()); // cursor = 2 (end)
    buf.move_left(); // cursor = 1 (after 'a')
    buf.insert_char('b'); // expect "ab🔥"
    assert_eq!(buf.text(), "ab🔥");
    assert_eq!(buf.cursor, 2); // moved one step right
}

#[test]
fn backspace_deletes_char_and_moves_cursor() {
    let mut buf = FieldBuffer::new("abc".to_string()); // cursor = 3
    buf.backspace();
    assert_eq!(buf.text(), "ab");
    assert_eq!(buf.cursor, 2);

    buf.backspace();
    assert_eq!(buf.text(), "a");
    assert_eq!(buf.cursor, 1);
}

#[test]
fn backspace_at_start_does_nothing() {
    let mut buf = FieldBuffer::new("a".to_string()); // cursor = 1
    buf.move_left(); // cursor = 0
    buf.backspace(); // should be no-op
    assert_eq!(buf.text(), "a");
    assert_eq!(buf.cursor, 0);
}
