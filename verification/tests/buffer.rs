use rush_console::buffer::LineBuffer;

fn buffer_with(text: &str) -> LineBuffer {
    let mut buffer = LineBuffer::new();
    for ch in text.chars() {
        buffer.insert(ch);
    }
    buffer
}

#[test]
fn new_buffer_is_empty() {
    let buffer = LineBuffer::new();
    assert_eq!(buffer.text(), "");
    assert_eq!(buffer.cursor(), 0);
    assert_eq!(buffer.len(), 0);
    assert!(buffer.is_empty());
}

#[test]
fn insert_puts_character_before_cursor() {
    let mut buffer = buffer_with("abc");
    buffer.move_left();
    buffer.move_left();
    assert_eq!(buffer.cursor(), 1);
    buffer.insert('x');
    assert_eq!(buffer.text(), "axbc");
    assert_eq!(buffer.cursor(), 2);
    assert_eq!(buffer.tail(), "bc");
}

#[test]
fn delete_at_end_removes_last_character() {
    let mut buffer = buffer_with("abc");
    assert_eq!(buffer.cursor(), 3);
    buffer.delete_before_cursor();
    assert_eq!(buffer.text(), "ab");
    assert_eq!(buffer.cursor(), 2);
}

#[test]
fn delete_in_the_middle_keeps_the_rest() {
    let mut buffer = buffer_with("abcd");
    buffer.move_left();
    buffer.delete_before_cursor();
    assert_eq!(buffer.text(), "abd");
    assert_eq!(buffer.cursor(), 2);
    assert_eq!(buffer.tail(), "d");
}

#[test]
fn delete_at_start_changes_nothing() {
    let mut buffer = buffer_with("abc");
    buffer.move_left();
    buffer.move_left();
    buffer.move_left();
    assert_eq!(buffer.cursor(), 0);
    buffer.delete_before_cursor();
    assert_eq!(buffer.text(), "abc");
    assert_eq!(buffer.cursor(), 0);

    let mut empty = LineBuffer::new();
    empty.delete_before_cursor();
    assert_eq!(empty.text(), "");
    assert_eq!(empty.cursor(), 0);
}

#[test]
fn move_right_at_end_changes_nothing() {
    let mut buffer = buffer_with("abc");
    buffer.move_right();
    assert_eq!(buffer.cursor(), 3);
    assert_eq!(buffer.text(), "abc");
}

#[test]
fn move_left_at_start_changes_nothing() {
    let mut buffer = LineBuffer::new();
    buffer.move_left();
    assert_eq!(buffer.cursor(), 0);
    buffer.insert('a');
    buffer.move_left();
    buffer.move_left();
    assert_eq!(buffer.cursor(), 0);
    assert_eq!(buffer.text(), "a");
}

#[test]
fn move_left_then_right_comes_back() {
    let mut buffer = buffer_with("abc");
    buffer.move_left();
    assert_eq!(buffer.cursor(), 2);
    buffer.move_right();
    assert_eq!(buffer.cursor(), 3);
}

#[test]
fn reset_empties_the_buffer() {
    let mut buffer = buffer_with("ls -la");
    buffer.move_left();
    buffer.reset();
    assert_eq!(buffer.text(), "");
    assert_eq!(buffer.cursor(), 0);
    assert!(buffer.is_empty());
}

#[test]
fn cursor_counts_characters_not_bytes() {
    let mut buffer = buffer_with("h\u{e9}llo \u{4e16}\u{754c}");
    assert_eq!(buffer.len(), 8);
    assert_eq!(buffer.cursor(), 8);
    buffer.move_left();
    buffer.move_left();
    assert_eq!(buffer.tail(), "\u{4e16}\u{754c}");
    buffer.insert('\u{276f}');
    assert_eq!(buffer.text(), "h\u{e9}llo \u{276f}\u{4e16}\u{754c}");
    assert_eq!(buffer.cursor(), 7);
    buffer.delete_before_cursor();
    buffer.delete_before_cursor();
    assert_eq!(buffer.text(), "h\u{e9}llo\u{4e16}\u{754c}");
    assert_eq!(buffer.cursor(), 5);
}

#[test]
fn text_from_gives_the_rest_of_the_line() {
    let buffer = buffer_with("abcdef");
    assert_eq!(buffer.text_from(0), "abcdef");
    assert_eq!(buffer.text_from(2), "cdef");
    assert_eq!(buffer.text_from(6), "");
    assert_eq!(buffer.text_from(7), "");
}

#[test]
fn cursor_stays_in_line_under_any_edits() {
    let mut buffer = LineBuffer::new();
    let mut seed: u32 = 12345;
    for step in 0..2000u32 {
        seed = seed.wrapping_mul(1103515245).wrapping_add(12345);
        match (seed >> 16) % 6 {
            0 | 1 => buffer.insert(char::from(b'a' + (step % 26) as u8)),
            2 => buffer.delete_before_cursor(),
            3 => buffer.move_left(),
            4 => buffer.move_right(),
            _ => {
                if step % 97 == 0 {
                    buffer.reset()
                }
            }
        }
        assert!(buffer.cursor() <= buffer.len());
        assert_eq!(buffer.text().chars().count(), buffer.len());
    }
}

#[test]
fn typing_then_backspace_restores_the_line() {
    let mut buffer = buffer_with("abc");
    buffer.move_left();
    buffer.insert('z');
    buffer.delete_before_cursor();
    assert_eq!(buffer.text(), "abc");
    assert_eq!(buffer.cursor(), 2);
}
