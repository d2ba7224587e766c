use clihistory::hooks::KeyEvent;
use clihistory::prompt::{cursor_manage, CharCollection, CURSOR};

fn type_keys(buffer: &mut CharCollection, keys: &[KeyEvent]) {
    for k in keys {
        assert!(!buffer.apply_key(*k));
    }
}

#[test]
fn insert_is_relative_to_the_cursor() {
    let mut b = CharCollection::new();
    b.insert('a');
    b.insert('b');
    b.move_left();
    b.insert('c');
    assert_eq!(b.line(), "acb");
}

#[test]
fn keys_edit_relative_to_the_cursor() {
    let mut b = CharCollection::start('a');
    type_keys(&mut b, &[KeyEvent::Char('b'), KeyEvent::ArrowLeft, KeyEvent::Char('c')]);
    assert!(b.apply_key(KeyEvent::Enter));
    assert_eq!(b.line(), "acb");
}

#[test]
fn backspace_at_start_is_a_no_op() {
    let mut b = CharCollection::start('x');
    type_keys(&mut b, &[KeyEvent::ArrowLeft]);
    assert_eq!(b.render(), "|x");
    b.del_last();
    assert_eq!(b.line(), "x");
    assert_eq!(b.render(), "|x");
    type_keys(&mut b, &[KeyEvent::Backspace]);
    assert_eq!(b.line(), "x");
    assert_eq!(b.render(), "|x");
}

#[test]
fn backspace_deletes_before_the_cursor() {
    let mut b = CharCollection::start('a');
    type_keys(&mut b, &[KeyEvent::Char('b'), KeyEvent::Char('c'), KeyEvent::ArrowLeft, KeyEvent::Backspace]);
    assert_eq!(b.line(), "ac");
    assert_eq!(b.render(), "a|c");
}

#[test]
fn space_and_letters_are_typed_other_keys_ignored() {
    let mut b = CharCollection::start('h');
    type_keys(
        &mut b,
        &[
            KeyEvent::Char('i'),
            KeyEvent::Char(' '),
            KeyEvent::Char('X'),
            KeyEvent::Char('1'),
            KeyEvent::Other,
            KeyEvent::ArrowUp,
            KeyEvent::Char('u'),
        ],
    );
    assert_eq!(b.line(), "hi u");
}

#[test]
fn cursor_moves_stay_within_the_line() {
    let mut b = CharCollection::start('a');
    type_keys(&mut b, &[KeyEvent::ArrowRight, KeyEvent::ArrowRight]);
    assert_eq!(b.render(), "a|");
    type_keys(&mut b, &[KeyEvent::ArrowLeft, KeyEvent::ArrowLeft, KeyEvent::ArrowLeft]);
    assert_eq!(b.render(), "|a");
    b.move_right();
    b.move_right();
    assert_eq!(b.render(), "a|");
    b.insert('z');
    assert_eq!(b.line(), "az");
}

#[test]
fn cursor_glyph_marks_the_edit_index() {
    let mut b = CharCollection::start('a');
    b.insert('b');
    b.move_left();
    assert_eq!(CURSOR, '|');
    assert_eq!(cursor_manage(&b, '^'), vec!['a', '^', 'b']);
    assert_eq!(b.render(), "a|b");
    assert_eq!(b.line(), "ab");
}

#[test]
fn empty_buffer_renders_the_glyph_alone() {
    let b = CharCollection::new();
    assert_eq!(b.line(), "");
    assert_eq!(b.render(), "|");
}
