//! The single-line edit buffer.
use vstd::prelude::*;

use crate::hooks::{alpha_of, Hooks, KeyEvent};
use crate::text::string_of;

verus! {

/// The glyph that marks the edit position in a rendered line.
pub const CURSOR: char = '|';

/// What one key does to a line under edit: the characters and the edit
/// index that follow. Enter and keys without a use change nothing.
pub open spec fn edit_step(chars: Seq<char>, idx: int, key: KeyEvent) -> (Seq<char>, int) {
    match key {
        KeyEvent::Char(' ') => (chars.insert(idx, ' '), idx + 1),
        KeyEvent::ArrowLeft => if idx > 0 {
            (chars, idx - 1)
        } else {
            (chars, idx)
        },
        KeyEvent::ArrowRight => if idx < chars.len() {
            (chars, idx + 1)
        } else {
            (chars, idx)
        },
        KeyEvent::Backspace => if idx > 0 {
            (chars.remove(idx - 1), idx - 1)
        } else {
            (chars, idx)
        },
        _ => match alpha_of(key) {
            Some(c) => (chars.insert(idx, c), idx + 1),
            None => (chars, idx),
        },
    }
}

/// The characters typed so far and the position where the next one goes.
pub struct CharCollection {
    data: Vec<char>,
    idx: usize,
}

impl CharCollection {
    /// The characters of the line, without the cursor glyph.
    pub closed spec fn chars(&self) -> Seq<char> {
        self.data@
    }

    /// The edit index: where the next character is inserted.
    pub closed spec fn index(&self) -> int {
        self.idx as int
    }

    /// The edit index lies within the line.
    pub open spec fn wf(&self) -> bool {
        0 <= self.index() <= self.chars().len()
    }

    pub fn new() -> (r: Self)
        ensures
            r.chars() == Seq::<char>::empty(),
            r.index() == 0,
            r.wf(),
    {
        CharCollection { data: Vec::new(), idx: 0 }
    }

    /// A line that holds `seed` alone, with the edit index after it.
    pub fn start(seed: char) -> (r: Self)
        ensures
            r.chars() == seq![seed],
            r.index() == 1,
            r.wf(),
    {
        let mut r = CharCollection::new();
        r.data.insert(0, seed);
        r.idx = 1;
        assert(r.data@ =~= seq![seed]);
        r
    }

    /// Inserts `c` at the edit index and moves the index past it.
    pub fn insert(&mut self, c: char)
        requires
            old(self).wf(),
        ensures
            final(self).chars() == old(self).chars().insert(old(self).index(), c),
            final(self).index() == old(self).index() + 1,
            final(self).wf(),
    {
        self.data.insert(self.idx, c);
        let len = self.data.len();
        assert(self.idx < len);
        self.idx = self.idx + 1;
    }

    /// Deletes the character before the edit index; nothing at index 0.
    pub fn del_last(&mut self)
        requires
            old(self).wf(),
        ensures
            old(self).index() > 0 ==> final(self).chars() == old(self).chars().remove(
                old(self).index() - 1,
            ) && final(self).index() == old(self).index() - 1,
            old(self).index() == 0 ==> final(self).chars() == old(self).chars()
                && final(self).index() == 0,
            final(self).wf(),
    {
        if self.idx > 0 {
            self.data.remove(self.idx - 1);
            self.idx = self.idx - 1;
        }
    }

    /// Moves the edit index one step left, if it can.
    pub fn move_left(&mut self)
        requires
            old(self).wf(),
        ensures
            final(self).chars() == old(self).chars(),
            final(self).index() == if old(self).index() > 0 {
                old(self).index() - 1
            } else {
                0
            },
            final(self).wf(),
    {
        if self.idx > 0 {
            self.idx = self.idx - 1;
        }
    }

    /// Moves the edit index one step right, at most to the end of the line.
    pub fn move_right(&mut self)
        requires
            old(self).wf(),
        ensures
            final(self).chars() == old(self).chars(),
            final(self).index() == if old(self).index() < old(self).chars().len() {
                old(self).index() + 1
            } else {
                old(self).index()
            },
            final(self).wf(),
    {
        if self.idx < self.data.len() {
            self.idx = self.idx + 1;
        }
    }

    /// Handles one key. Returns `true` on Enter, which ends the edit and
    /// leaves the line as it is; every other key changes the line as
    /// `edit_step` says.
    pub fn apply_key(&mut self, key: KeyEvent) -> (done: bool)
        requires
            old(self).wf(),
        ensures
            done == (key == KeyEvent::Enter),
            done ==> final(self).chars() == old(self).chars() && final(self).index()
                == old(self).index(),
            !done ==> (final(self).chars(), final(self).index()) == edit_step(
                old(self).chars(),
                old(self).index(),
                key,
            ),
            final(self).wf(),
    {
        if key == KeyEvent::Enter {
            return true;
        }
        if key == KeyEvent::Char(' ') {
            self.insert(' ');
        } else if let Some(c) = Hooks::get_char(key) {
            self.insert(c);
        } else if key == KeyEvent::ArrowLeft {
            self.move_left();
        } else if key == KeyEvent::ArrowRight {
            self.move_right();
        } else if key == KeyEvent::Backspace {
            self.del_last();
        }
        false
    }

    /// The line with the cursor glyph at the edit index.
    pub fn render(&self) -> (r: String)
        requires
            self.wf(),
        ensures
            r@ == self.chars().insert(self.index(), CURSOR),
    {
        string_of(&cursor_manage(self, CURSOR))
    }

    /// The line as submitted: its characters, without the cursor glyph.
    pub fn line(&self) -> (r: String)
        ensures
            r@ == self.chars(),
    {
        string_of(&self.data)
    }
}

/// The characters of `collection` with `cursor` placed at the edit index.
pub fn cursor_manage(collection: &CharCollection, cursor: char) -> (r: Vec<char>)
    requires
        collection.wf(),
    ensures
        r@ == collection.chars().insert(collection.index(), cursor),
{
    let mut r = collection.data.clone();
    r.insert(collection.idx, cursor);
    r
}

} // verus!
