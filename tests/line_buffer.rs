use keyecho::{overlay, Action, EditError, Key, LineBuffer};

fn filled(text: &str) -> LineBuffer {
    let mut b = LineBuffer::new();
    for c in text.chars() {
        b.append(c);
    }
    b
}

#[test]
fn new_buffer_is_empty() {
    let b = LineBuffer::new();
    assert!(b.is_empty());
    assert_eq!(b.len(), 0);
    assert_eq!(b.cursor(), (0, 0));
    assert_eq!(b.render(), "");
}

#[test]
fn appends_render_in_order() {
    let b = filled("abc");
    assert_eq!(b.render(), "abc");
    assert_eq!(b.len(), 3);
}

#[test]
fn appends_overlay_past_end_render_in_order() {
    let mut b = filled("xyz");
    b.set_cursor(0, 3);
    assert_eq!(b.render_with_cursor_overlay('#'), "xyz");
}

#[test]
fn delete_last_on_empty_is_no_op() {
    let mut b = LineBuffer::new();
    b.delete_last();
    assert_eq!(b.render(), "");
    b.delete_last();
    assert_eq!(b.render(), "");
    assert_eq!(b.cursor(), (0, 0));
}

#[test]
fn append_then_delete_restores_empty() {
    let mut b = LineBuffer::new();
    b.append('a');
    b.delete_last();
    assert!(b.is_empty());
    assert_eq!(b.render(), "");
    assert_eq!(b.cursor(), (0, 0));
}

#[test]
fn delete_last_pulls_cursor_back() {
    let mut b = filled("abc");
    b.set_cursor(0, 3);
    b.delete_last();
    assert_eq!(b.render(), "ab");
    assert_eq!(b.cursor(), (0, 2));
}

#[test]
fn overlay_in_range_replaces_one_character() {
    let r = overlay("abcd", 1, '*');
    assert_eq!(r, "a*cd");
    assert_eq!(r.chars().count(), 4);
}

#[test]
fn overlay_counts_characters_not_bytes() {
    assert_eq!(overlay("é█x", 2, 'y'), "é█y");
}

#[test]
fn overlay_out_of_range_is_unchanged() {
    assert_eq!(overlay("abcd", 4, '*'), "abcd");
    assert_eq!(overlay("abcd", 100, '*'), "abcd");
    assert_eq!(overlay("", 0, '*'), "");
}

#[test]
fn cursor_overlay_uses_column_only() {
    let mut b = filled("hello");
    b.set_cursor(0, 2);
    assert_eq!(b.render_with_cursor_overlay('█'), "he█lo");
    assert_eq!(b.render(), "hello");
}

#[test]
fn cursor_overlay_ignores_row() {
    let mut b = filled("hello");
    b.set_cursor(2, 1);
    assert_eq!(b.render_with_cursor_overlay('_'), "h_llo");
}

#[test]
fn set_cursor_clamps_column() {
    let mut b = filled("hi");
    b.set_cursor(1, 9);
    assert_eq!(b.cursor(), (1, 2));
    assert_eq!(b.render_with_cursor_overlay('_'), "hi");
}

#[test]
fn insert_newline_is_refused() {
    let mut b = filled("ab");
    assert_eq!(b.insert_newline(), Err(EditError::MultiLineUnsupported));
    assert_eq!(b.render(), "ab");
}

#[test]
fn keys_drive_the_buffer() {
    let mut b = LineBuffer::new();
    assert_eq!(b.handle_key(Key::Char('o')), Action::Redraw);
    assert_eq!(b.handle_key(Key::Char('k')), Action::Redraw);
    assert_eq!(b.handle_key(Key::Enter), Action::Ignore);
    assert_eq!(b.handle_key(Key::Other), Action::Ignore);
    assert_eq!(b.render(), "ok");
    assert_eq!(b.handle_key(Key::Backspace), Action::Redraw);
    assert_eq!(b.render(), "o");
    assert_eq!(b.handle_key(Key::Quit), Action::Quit);
    assert_eq!(b.render(), "o");
}
