//! Classification of raw key events.
use vstd::prelude::*;

verus! {

/// A key event, reduced to what the editor reads of it.
#[derive(Clone, Copy, Debug, PartialEq, Eq, Structural)]
pub enum KeyEvent {
    Char(char),
    Enter,
    Backspace,
    ArrowLeft,
    ArrowRight,
    ArrowUp,
    ArrowDown,
    /// Any key the editor has no use for.
    Other,
}

/// History navigation instruction taken from the last key.
#[derive(Clone, Copy, Debug, PartialEq, Eq, Structural)]
pub enum KeyHandle {
    NoKey,
    ArrowKeyUp,
    ArrowKeyDown,
    EnterKey,
}

/// The instruction that a key stands for.
pub open spec fn handle_of(key: KeyEvent) -> KeyHandle {
    match key {
        KeyEvent::ArrowUp => KeyHandle::ArrowKeyUp,
        KeyEvent::ArrowDown => KeyHandle::ArrowKeyDown,
        KeyEvent::Enter => KeyHandle::EnterKey,
        _ => KeyHandle::NoKey,
    }
}

/// A lowercase ASCII letter.
pub open spec fn is_lower_alpha(c: char) -> bool {
    'a' <= c && c <= 'z'
}

/// The letter a key types, when it types one of `a` to `z`.
pub open spec fn alpha_of(key: KeyEvent) -> Option<char> {
    match key {
        KeyEvent::Char(c) => if is_lower_alpha(c) {
            Some(c)
        } else {
            None
        },
        _ => None,
    }
}

/// Keyboard hook state: the instruction of the last key seen.
pub struct Hooks {
    handle: KeyHandle,
}

impl Hooks {
    /// The instruction of the last key seen.
    pub closed spec fn state(&self) -> KeyHandle {
        self.handle
    }

    pub fn new() -> (r: Self)
        ensures
            r.state() == KeyHandle::NoKey,
    {
        Hooks { handle: KeyHandle::NoKey }
    }

    /// Records the instruction of `key`; a key that is none of the three
    /// resets the state.
    pub fn update(&mut self, key: KeyEvent)
        ensures
            final(self).state() == handle_of(key),
    {
        match key {
            KeyEvent::ArrowUp => self.handle = KeyHandle::ArrowKeyUp,
            KeyEvent::ArrowDown => self.handle = KeyHandle::ArrowKeyDown,
            KeyEvent::Enter => self.handle = KeyHandle::EnterKey,
            _ => self.handle = KeyHandle::NoKey,
        }
    }

    pub fn is_arrow_up(&self) -> (r: bool)
        ensures
            r == (self.state() == KeyHandle::ArrowKeyUp),
    {
        self.handle == KeyHandle::ArrowKeyUp
    }

    pub fn is_arrow_down(&self) -> (r: bool)
        ensures
            r == (self.state() == KeyHandle::ArrowKeyDown),
    {
        self.handle == KeyHandle::ArrowKeyDown
    }

    pub fn is_enter(&self) -> (r: bool)
        ensures
            r == (self.state() == KeyHandle::EnterKey),
    {
        self.handle == KeyHandle::EnterKey
    }

    /// Scans the letters `a` to `z` and returns the one that `key` types.
    pub fn get_char(key: KeyEvent) -> (r: Option<char>)
        ensures
            r == alpha_of(key),
    {
        let mut i: u8 = 0;
        while i < 26
            invariant
                i <= 26,
                forall|c: char| 'a' <= c && (c as u32) < 97 + i ==> key != KeyEvent::Char(c),
            decreases 26 - i,
        {
            let c = (97u8 + i) as char;
            if key == KeyEvent::Char(c) {
                return Some(c);
            }
            i = i + 1;
        }
        None
    }
}

} // verus!
