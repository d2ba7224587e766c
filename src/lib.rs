//! An interactive line-input engine with history recall.
//!
//! The library holds the decisions of a terminal line editor: the key
//! classifier, the single-line edit buffer, the history store and the session
//! state machine that ties them together. Reading keys and drawing on the
//! terminal are left to the caller, which feeds key events in and carries out
//! what each step asks for.
use vstd::prelude::*;

pub mod hooks;
pub mod navigator;
pub mod prompt;
pub mod text;

verus! {

/// The session settings as plain values.
pub struct SettingsView {
    pub label: Seq<char>,
    pub max_size: int,
    pub max_size_log_file: int,
    pub die_on_exit: bool,
    pub log_file_path: Seq<char>,
}

/// Settings of a history session: the prompt label, the history capacity,
/// the number of lines that may go to the log, whether the line `exit` ends
/// the session, and the log file (none when empty).
pub struct CliHistorySettings<'a> {
    label: &'a str,
    max_size: usize,
    max_size_log_file: usize,
    die_on_exit: bool,
    log_file_path: &'a str,
}

impl<'a> View for CliHistorySettings<'a> {
    type V = SettingsView;

    closed spec fn view(&self) -> SettingsView {
        SettingsView {
            label: self.label@,
            max_size: self.max_size as int,
            max_size_log_file: self.max_size_log_file as int,
            die_on_exit: self.die_on_exit,
            log_file_path: self.log_file_path@,
        }
    }
}

impl<'a> CliHistorySettings<'a> {
    /// Default settings: label `CliHistoryPrompt: `, capacity 500, log budget
    /// 500, no exit word, no log file.
    pub fn new() -> (r: Self)
        ensures
            r@.label == "CliHistoryPrompt: "@,
            r@.max_size == 500,
            r@.max_size_log_file == 500,
            !r@.die_on_exit,
            r@.log_file_path == ""@,
    {
        CliHistorySettings {
            label: "CliHistoryPrompt: ",
            max_size: 500,
            max_size_log_file: 500,
            die_on_exit: false,
            log_file_path: "",
        }
    }

    pub fn set_label(&mut self, label: &'a str)
        ensures
            final(self)@ == (SettingsView { label: label@, ..old(self)@ }),
    {
        self.label = label;
    }

    pub fn set_max_size(&mut self, max_size: usize)
        ensures
            final(self)@ == (SettingsView { max_size: max_size as int, ..old(self)@ }),
    {
        self.max_size = max_size;
    }

    pub fn set_die_on_exit(&mut self)
        ensures
            final(self)@ == (SettingsView { die_on_exit: true, ..old(self)@ }),
    {
        self.die_on_exit = true;
    }

    pub fn set_max_size_log_file(&mut self, max_size: usize)
        ensures
            final(self)@ == (SettingsView { max_size_log_file: max_size as int, ..old(self)@ }),
    {
        self.max_size_log_file = max_size;
    }

    pub fn set_log_to_file(&mut self, file_path: &'a str)
        ensures
            final(self)@ == (SettingsView { log_file_path: file_path@, ..old(self)@ }),
    {
        self.log_file_path = file_path;
    }

    /// The prompt label.
    pub fn label(&self) -> (r: &'a str)
        ensures
            r@ == self@.label,
    {
        self.label
    }

    /// The history capacity.
    pub fn max_size(&self) -> (r: usize)
        ensures
            r == self@.max_size,
    {
        self.max_size
    }

    /// How many lines may go to the log in one session.
    pub fn max_size_log_file(&self) -> (r: usize)
        ensures
            r == self@.max_size_log_file,
    {
        self.max_size_log_file
    }

    /// Whether the line `exit` ends the session.
    pub fn die_on_exit(&self) -> (r: bool)
        ensures
            r == self@.die_on_exit,
    {
        self.die_on_exit
    }

    /// The log file; empty when there is none.
    pub fn log_file_path(&self) -> (r: &'a str)
        ensures
            r@ == self@.log_file_path,
    {
        self.log_file_path
    }
}

/// The strings of `v`, as character sequences.
pub open spec fn views_of(v: Seq<String>) -> Seq<Seq<char>> {
    v.map_values(|s: String| s@)
}

/// The characters of an optional string.
pub open spec fn view_opt(o: Option<String>) -> Option<Seq<char>> {
    match o {
        Some(s) => Some(s@),
        None => None,
    }
}

/// The entry at position `i`, if there is one.
pub open spec fn entry_at(entries: Seq<Seq<char>>, i: int) -> Option<Seq<char>> {
    if 0 <= i < entries.len() {
        Some(entries[i])
    } else {
        None
    }
}

/// The entries after `value` is pushed: a full history is cleared first.
pub open spec fn push_step(entries: Seq<Seq<char>>, max_size: int, value: Seq<char>) -> Seq<
    Seq<char>,
> {
    if entries.len() == max_size {
        seq![value]
    } else {
        entries.push(value)
    }
}

/// The entries after pushing each of `values` in turn.
pub open spec fn push_all(entries: Seq<Seq<char>>, max_size: int, values: Seq<Seq<char>>) -> Seq<
    Seq<char>,
>
    decreases values.len(),
{
    if values.len() == 0 {
        entries
    } else {
        push_step(push_all(entries, max_size, values.drop_last()), max_size, values.last())
    }
}

/// One step up the history: the new cursor and the entry recalled.
pub open spec fn up_step(entries: Seq<Seq<char>>, cursor: int) -> (int, Option<Seq<char>>) {
    if cursor > 0 {
        (cursor - 1, entry_at(entries, cursor - 1))
    } else {
        (cursor, None)
    }
}

/// One step down the history: the new cursor and the entry at it, none once
/// the cursor reaches one past the newest entry.
pub open spec fn down_step(entries: Seq<Seq<char>>, cursor: int) -> (int, Option<Seq<char>>) {
    if cursor < entries.len() {
        (cursor + 1, entry_at(entries, cursor + 1))
    } else {
        (cursor, None)
    }
}

/// A step up that recalls an entry, followed at once by a step down, brings
/// the cursor back where it was and recalls the entry that was current there
/// before the step up (none when the cursor stood past the newest entry).
pub proof fn lemma_up_then_down(entries: Seq<Seq<char>>, cursor: int)
    requires
        0 <= cursor <= entries.len(),
        up_step(entries, cursor).1 is Some,
    ensures
        down_step(entries, up_step(entries, cursor).0) == (cursor, entry_at(entries, cursor)),
{
}

/// Pushing fewer values than the capacity onto an empty history keeps them
/// all, in order.
proof fn lemma_push_below_capacity(max_size: int, values: Seq<Seq<char>>)
    requires
        values.len() <= max_size,
    ensures
        push_all(Seq::empty(), max_size, values) == values,
    decreases values.len(),
{
    if values.len() > 0 {
        lemma_push_below_capacity(max_size, values.drop_last());
        assert(values.drop_last().push(values.last()) =~= values);
    }
}

/// Pushing `max_size + 1` values onto an empty history leaves the last one
/// alone: a full history is reset, not shifted.
pub proof fn lemma_reset_at_capacity(max_size: int, values: Seq<Seq<char>>)
    requires
        0 <= max_size,
        values.len() == max_size + 1,
    ensures
        push_all(Seq::empty(), max_size, values) == seq![values.last()],
{
    lemma_push_below_capacity(max_size, values.drop_last());
}

/// The history of submitted lines and the recall cursor.
pub struct CliHistory<'a> {
    history: Vec<String>,
    idx: usize,
    settings: &'a CliHistorySettings<'a>,
}

impl<'a> CliHistory<'a> {
    /// The submitted lines, oldest first.
    pub closed spec fn entries(&self) -> Seq<Seq<char>> {
        views_of(self.history@)
    }

    /// The recall cursor: one past the newest entry after a push.
    pub closed spec fn cursor(&self) -> int {
        self.idx as int
    }

    /// The settings the history was made with.
    pub closed spec fn settings(&self) -> SettingsView {
        self.settings@
    }

    /// The cursor lies within the entries.
    pub open spec fn wf(&self) -> bool {
        0 <= self.cursor() <= self.entries().len()
    }

    pub fn new(settings: &'a CliHistorySettings<'a>) -> (r: Self)
        ensures
            r.entries() == Seq::<Seq<char>>::empty(),
            r.cursor() == 0,
            r.settings() == settings@,
            r.wf(),
    {
        let r = CliHistory { history: Vec::new(), idx: 0, settings };
        assert(r.entries() =~= Seq::<Seq<char>>::empty());
        r
    }

    /// Adds `value` as the newest entry. A history that holds `max_size`
    /// entries is cleared first. The cursor moves one past the newest entry.
    pub fn value_add_history(&mut self, value: &str)
        ensures
            final(self).entries() == push_step(
                old(self).entries(),
                old(self).settings().max_size,
                value@,
            ),
            final(self).cursor() == final(self).entries().len(),
            final(self).settings() == old(self).settings(),
            final(self).wf(),
    {
        if self.history.len() == self.settings.max_size {
            self.history = Vec::new();
        }
        let ghost before = self.history@;
        self.history.push(value.to_string());
        assert(views_of(self.history@) =~= views_of(before).push(value@));
        assert(views_of(Seq::<String>::empty()) =~= Seq::<Seq<char>>::empty());
        self.idx = self.history.len();
    }

    /// The prompt label, as a `String`.
    pub fn get_label(&self) -> (r: String)
        ensures
            r@ == self.settings().label,
    {
        self.settings.label.to_string()
    }

    /// The settings the history was made with.
    pub fn get_settings(&self) -> (r: &'a CliHistorySettings<'a>)
        ensures
            r@ == self.settings(),
    {
        self.settings
    }

    /// The entries, open to the caller for reading and writing. The cursor
    /// is left as it was.
    pub fn get_history(&mut self) -> (r: &mut Vec<String>)
        ensures
            views_of(r@) == old(self).entries(),
            final(self).entries() == views_of(final(r)@),
            final(self).cursor() == old(self).cursor(),
            final(self).settings() == old(self).settings(),
    {
        &mut self.history
    }

    /// Moves the cursor one entry back and returns the entry there; returns
    /// `None` and stays put at the oldest entry.
    pub fn history_iter_up(&mut self) -> (r: Option<String>)
        ensures
            (final(self).cursor(), view_opt(r)) == up_step(old(self).entries(), old(self).cursor()),
            final(self).entries() == old(self).entries(),
            final(self).settings() == old(self).settings(),
            old(self).wf() ==> final(self).wf(),
    {
        if self.idx > 0 {
            self.idx = self.idx - 1;
            if self.idx < self.history.len() {
                return Some(self.history[self.idx].clone());
            }
            return None;
        }
        None
    }

    /// Moves the cursor one entry forward and returns the entry now at it;
    /// returns `None` when the cursor reaches one past the newest entry, and
    /// stays put there.
    pub fn history_iter_down(&mut self) -> (r: Option<String>)
        ensures
            (final(self).cursor(), view_opt(r)) == down_step(
                old(self).entries(),
                old(self).cursor(),
            ),
            final(self).entries() == old(self).entries(),
            final(self).settings() == old(self).settings(),
            old(self).wf() ==> final(self).wf(),
    {
        if self.idx < self.history.len() {
            self.idx = self.idx + 1;
            if self.idx < self.history.len() {
                return Some(self.history[self.idx].clone());
            }
            return None;
        }
        None
    }
}

} // verus!
