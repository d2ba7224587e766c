use clihistory::hooks::{Hooks, KeyEvent, KeyHandle};

#[test]
fn decode_alpha_accepts_every_lowercase_letter() {
    for c in "abcdefghijklmnopqrstuvwxyz".chars() {
        assert_eq!(Hooks::get_char(KeyEvent::Char(c)), Some(c));
    }
}

#[test]
fn decode_alpha_rejects_digits_uppercase_and_punctuation() {
    for c in "0123456789ABCDEFGHIJKLMNOPQRSTUVWXYZ.,;:!?-_|/ `{".chars() {
        assert_eq!(Hooks::get_char(KeyEvent::Char(c)), None);
    }
    assert_eq!(Hooks::get_char(KeyEvent::Enter), None);
    assert_eq!(Hooks::get_char(KeyEvent::ArrowUp), None);
    assert_eq!(Hooks::get_char(KeyEvent::Other), None);
}

#[test]
fn hooks_start_with_no_instruction() {
    let hooks = Hooks::new();
    assert!(!hooks.is_arrow_up());
    assert!(!hooks.is_arrow_down());
    assert!(!hooks.is_enter());
}

#[test]
fn hooks_follow_the_last_key() {
    let mut hooks = Hooks::new();
    hooks.update(KeyEvent::ArrowUp);
    assert!(hooks.is_arrow_up() && !hooks.is_arrow_down() && !hooks.is_enter());
    hooks.update(KeyEvent::ArrowDown);
    assert!(!hooks.is_arrow_up() && hooks.is_arrow_down() && !hooks.is_enter());
    hooks.update(KeyEvent::Enter);
    assert!(!hooks.is_arrow_up() && !hooks.is_arrow_down() && hooks.is_enter());
    hooks.update(KeyEvent::Char('a'));
    assert!(!hooks.is_arrow_up() && !hooks.is_arrow_down() && !hooks.is_enter());
}

#[test]
fn key_handles_compare_by_variant() {
    assert_eq!(KeyHandle::EnterKey, KeyHandle::EnterKey);
    assert_ne!(KeyHandle::ArrowKeyUp, KeyHandle::NoKey);
}
