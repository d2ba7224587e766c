//! The session state machine: from key events to submitted lines.
//!
//! A session waits for a key, edits a fresh line once a letter starts one,
//! recalls history entries on the arrow keys, and ends on Enter, on a read
//! failure, or on the line `exit` when the settings ask for that. The caller
//! reads the keys, hands each to `Navigator::step`, and carries out the
//! `Reaction` that comes back.
use vstd::prelude::*;

use crate::hooks::{alpha_of, Hooks, KeyEvent};
use crate::prompt::{edit_step, CharCollection};
use crate::{down_step, push_step, up_step, CliHistory, SettingsView};

verus! {

/// Where a session stands.
#[derive(Clone, Copy, Debug, PartialEq, Eq, Structural)]
pub enum Phase {
    /// Waiting for a key that decides what comes next.
    AwaitingKey,
    /// A line is being typed in the edit buffer.
    Editing,
    /// A recalled entry is on screen; Enter on the next key submits it.
    Recalled,
    /// The session is over.
    Terminated,
}

/// What the terminal shows after a step.
#[derive(Clone, Copy, Debug, PartialEq, Eq, Structural)]
pub enum Screen {
    /// Nothing to draw.
    Still,
    /// The label, ready for the next key.
    Label,
    /// The letter that starts a new line, echoed.
    Echo(char),
    /// The line under edit, with its cursor glyph (`Navigator::rendered`).
    Edit,
    /// The current line, recalled from history, followed by enough spaces
    /// to erase a previous line of the given length.
    Recall(usize),
}

/// What the caller carries out after a step.
#[derive(Clone, Copy, Debug, PartialEq, Eq, Structural)]
pub struct Reaction {
    /// The current line was accepted: hand it to the callback.
    pub accept: bool,
    /// The accepted line also goes to the log.
    pub log: bool,
    /// What to draw.
    pub screen: Screen,
    /// The session is over and the current line is its result.
    pub finished: bool,
}

/// A session together with the history it works on, as plain values.
pub struct SessionView {
    pub phase: Phase,
    /// The current line: the one last accepted, recalled or selected.
    pub line: Seq<char>,
    /// The line under edit and its edit index.
    pub buffer: Seq<char>,
    pub edit_index: int,
    /// How many lines went to the log so far.
    pub log_count: int,
    pub entries: Seq<Seq<char>>,
    pub cursor: int,
}

/// The line that ends the session when the settings ask for it.
pub open spec fn is_exit(cfg: SettingsView, line: Seq<char>) -> bool {
    cfg.die_on_exit && line == "exit"@
}

/// A reaction that draws `screen` and hands nothing on.
pub open spec fn show(screen: Screen) -> Reaction {
    Reaction { accept: false, log: false, screen, finished: false }
}

/// The reaction that ends the session without handing anything on.
pub open spec fn stop() -> Reaction {
    Reaction { accept: false, log: false, screen: Screen::Still, finished: true }
}

/// The session ends, the line as it is.
pub open spec fn terminate(s: SessionView) -> (SessionView, Reaction) {
    (SessionView { phase: Phase::Terminated, ..s }, stop())
}

/// After the line changed: the exit word ends the session, anything else
/// waits for the next key.
pub open spec fn settle(s: SessionView, cfg: SettingsView) -> (SessionView, Reaction) {
    if is_exit(cfg, s.line) {
        terminate(s)
    } else {
        (SessionView { phase: Phase::AwaitingKey, ..s }, show(Screen::Label))
    }
}

/// A recall step moved the cursor to `cursor` and came up with `found`.
/// A non-empty entry becomes the current line and is shown.
pub open spec fn recall(s: SessionView, cfg: SettingsView, cursor: int, found: Option<Seq<char>>) -> (
    SessionView,
    Reaction,
) {
    let s = SessionView { cursor, ..s };
    match found {
        Some(e) => if e.len() > 0 {
            (
                SessionView { phase: Phase::Recalled, line: e, ..s },
                show(Screen::Recall(s.line.len() as usize)),
            )
        } else {
            settle(SessionView { line: e, ..s }, cfg)
        },
        None => settle(s, cfg),
    }
}

/// A key while waiting: the arrows recall, Enter ends the session with the
/// current line, a letter starts a new line with it, and any other key
/// clears the current line.
pub open spec fn on_key(s: SessionView, cfg: SettingsView, key: KeyEvent) -> (SessionView, Reaction) {
    match key {
        KeyEvent::ArrowUp => recall(s, cfg, up_step(s.entries, s.cursor).0, up_step(s.entries, s.cursor).1),
        KeyEvent::ArrowDown => recall(
            s,
            cfg,
            down_step(s.entries, s.cursor).0,
            down_step(s.entries, s.cursor).1,
        ),
        KeyEvent::Enter => terminate(s),
        _ => match alpha_of(key) {
            Some(c) => (
                SessionView {
                    phase: Phase::Editing,
                    line: Seq::empty(),
                    buffer: seq![c],
                    edit_index: 1,
                    ..s
                },
                show(Screen::Echo(c)),
            ),
            None => (
                SessionView { phase: Phase::AwaitingKey, line: Seq::empty(), ..s },
                show(Screen::Label),
            ),
        },
    }
}

/// Whether an accepted line goes to the log: there is a log file and its
/// budget is not spent.
pub open spec fn logs(s: SessionView, cfg: SettingsView) -> bool {
    cfg.log_file_path.len() > 0 && s.log_count < cfg.max_size_log_file
}

/// Enter while editing. A non-empty line is pushed to the history, logged
/// while the budget lasts, handed to the callback, and ends the session if it
/// is the exit word. An empty line is dropped.
pub open spec fn submit(s: SessionView, cfg: SettingsView) -> (SessionView, Reaction) {
    let line = s.buffer;
    if line.len() == 0 {
        settle(SessionView { line, ..s }, cfg)
    } else {
        let entries = push_step(s.entries, cfg.max_size, line);
        let log = logs(s, cfg);
        let s2 = SessionView {
            line,
            entries,
            cursor: entries.len() as int,
            log_count: if log {
                s.log_count + 1
            } else {
                s.log_count
            },
            ..s
        };
        if is_exit(cfg, line) {
            (
                SessionView { phase: Phase::Terminated, ..s2 },
                Reaction { accept: true, log, screen: Screen::Still, finished: true },
            )
        } else {
            (
                SessionView { phase: Phase::AwaitingKey, ..s2 },
                Reaction { accept: true, log, screen: Screen::Label, finished: false },
            )
        }
    }
}

/// One step of a session: the state and reaction that follow a key, or a
/// failed read (`None`).
pub open spec fn next(s: SessionView, cfg: SettingsView, key: Option<KeyEvent>) -> (
    SessionView,
    Reaction,
) {
    match s.phase {
        Phase::Terminated => (s, stop()),
        Phase::AwaitingKey => match key {
            None => terminate(s),
            Some(k) => on_key(s, cfg, k),
        },
        Phase::Recalled => match key {
            None => terminate(s),
            Some(KeyEvent::Enter) => (
                SessionView { phase: Phase::Terminated, ..s },
                Reaction { accept: true, log: false, screen: Screen::Still, finished: true },
            ),
            Some(k) => if is_exit(cfg, s.line) {
                terminate(s)
            } else {
                on_key(s, cfg, k)
            },
        },
        Phase::Editing => match key {
            None => terminate(SessionView { line: Seq::empty(), ..s }),
            Some(KeyEvent::Enter) => submit(s, cfg),
            Some(k) => (
                SessionView {
                    buffer: edit_step(s.buffer, s.edit_index, k).0,
                    edit_index: edit_step(s.buffer, s.edit_index, k).1,
                    ..s
                },
                show(Screen::Edit),
            ),
        },
    }
}

/// The lines that a run of keys sends to the log, in order.
pub open spec fn logged_lines(s: SessionView, cfg: SettingsView, keys: Seq<Option<KeyEvent>>) -> Seq<
    Seq<char>,
>
    decreases keys.len(),
{
    if keys.len() == 0 {
        Seq::empty()
    } else {
        let (s1, r) = next(s, cfg, keys[0]);
        let rest = logged_lines(s1, cfg, keys.drop_first());
        if r.log {
            seq![s1.line] + rest
        } else {
            rest
        }
    }
}

/// A step sends a line to the log only while the budget lasts, and counts
/// it; a step that logs nothing leaves the count as it was.
pub proof fn lemma_step_log_count(s: SessionView, cfg: SettingsView, key: Option<KeyEvent>)
    ensures
        next(s, cfg, key).1.log ==> s.log_count < cfg.max_size_log_file && next(
            s,
            cfg,
            key,
        ).0.log_count == s.log_count + 1,
        !next(s, cfg, key).1.log ==> next(s, cfg, key).0.log_count == s.log_count,
{
}

/// Once the budget is spent, no key sends anything more to the log, even
/// after the history has been reset.
pub proof fn lemma_budget_spent(s: SessionView, cfg: SettingsView, keys: Seq<Option<KeyEvent>>)
    requires
        s.log_count >= cfg.max_size_log_file,
    ensures
        logged_lines(s, cfg, keys) == Seq::<Seq<char>>::empty(),
    decreases keys.len(),
{
    if keys.len() > 0 {
        lemma_step_log_count(s, cfg, keys[0]);
        lemma_budget_spent(next(s, cfg, keys[0]).0, cfg, keys.drop_first());
    }
}

/// Over any run of keys, the lines sent to the log, added to those already
/// counted, stay within the budget.
pub proof fn lemma_log_within_budget(s: SessionView, cfg: SettingsView, keys: Seq<Option<KeyEvent>>)
    requires
        0 <= s.log_count <= cfg.max_size_log_file,
    ensures
        s.log_count + logged_lines(s, cfg, keys).len() <= cfg.max_size_log_file,
    decreases keys.len(),
{
    if keys.len() > 0 {
        lemma_step_log_count(s, cfg, keys[0]);
        lemma_log_within_budget(next(s, cfg, keys[0]).0, cfg, keys.drop_first());
    }
}

/// With a log file and a budget of one line, a first typed line goes to the
/// log when it is submitted, and whatever keys follow, no other line does.
pub proof fn lemma_log_budget_of_one(
    s: SessionView,
    cfg: SettingsView,
    keys: Seq<Option<KeyEvent>>,
)
    requires
        s.phase == Phase::Editing,
        s.buffer.len() > 0,
        s.log_count == 0,
        cfg.log_file_path.len() > 0,
        cfg.max_size_log_file == 1,
    ensures
        next(s, cfg, Some(KeyEvent::Enter)).1.accept,
        logged_lines(s, cfg, seq![Some(KeyEvent::Enter)] + keys) == seq![s.buffer],
{
    let all = seq![Some(KeyEvent::Enter)] + keys;
    assert(all[0] == Some(KeyEvent::Enter));
    assert(all.drop_first() =~= keys);
    lemma_budget_spent(next(s, cfg, Some(KeyEvent::Enter)).0, cfg, keys);
    assert(seq![s.buffer] + Seq::<Seq<char>>::empty() =~= seq![s.buffer]);
}

/// The state of one session.
pub struct Navigator {
    hooks: Hooks,
    buffer: CharCollection,
    input: String,
    phase: Phase,
    log_count: usize,
}

impl Navigator {
    /// Where the session stands.
    pub closed spec fn spec_phase(&self) -> Phase {
        self.phase
    }

    /// The current line.
    pub closed spec fn spec_line(&self) -> Seq<char> {
        self.input@
    }

    /// The line under edit.
    pub closed spec fn spec_buffer(&self) -> Seq<char> {
        self.buffer.chars()
    }

    /// The edit index of the line under edit.
    pub closed spec fn spec_edit_index(&self) -> int {
        self.buffer.index()
    }

    /// How many lines went to the log so far.
    pub closed spec fn spec_log_count(&self) -> int {
        self.log_count as int
    }

    /// The session together with `history`, whose entries and cursor are
    /// the ones the session recalls from and pushes to.
    pub open spec fn session(&self, history: &CliHistory) -> SessionView {
        SessionView {
            phase: self.spec_phase(),
            line: self.spec_line(),
            buffer: self.spec_buffer(),
            edit_index: self.spec_edit_index(),
            log_count: self.spec_log_count(),
            entries: history.entries(),
            cursor: history.cursor(),
        }
    }

    /// The edit buffer is well formed.
    pub closed spec fn wf(&self) -> bool {
        self.buffer.wf()
    }

    /// A session that waits for its first key, with an empty line. Whatever
    /// history it is run on, its entries and cursor are the session's own.
    pub fn new() -> (r: Self)
        ensures
            r.wf(),
            r.spec_phase() == Phase::AwaitingKey,
            r.spec_line() == Seq::<char>::empty(),
            r.spec_buffer() == Seq::<char>::empty(),
            r.spec_edit_index() == 0,
            r.spec_log_count() == 0,
            forall|h: &CliHistory|
                #![trigger r.session(h)]
                r.session(h).entries == h.entries() && r.session(h).cursor == h.cursor(),
    {
        Navigator {
            hooks: Hooks::new(),
            buffer: CharCollection::new(),
            input: String::new(),
            phase: Phase::AwaitingKey,
            log_count: 0,
        }
    }

    /// The current line: the session's result once it is over.
    pub fn line(&self) -> (r: &String)
        ensures
            r@ == self.spec_line(),
    {
        &self.input
    }

    /// Where the session stands.
    pub fn phase(&self) -> (r: Phase)
        ensures
            r == self.spec_phase(),
    {
        self.phase
    }

    /// The line under edit, with the cursor glyph at the edit index.
    pub fn rendered(&self) -> (r: String)
        requires
            self.wf(),
        ensures
            r@ == self.spec_buffer().insert(self.spec_edit_index(), crate::prompt::CURSOR),
    {
        self.buffer.render()
    }

    fn is_exit_line(&self, cfg: &crate::CliHistorySettings) -> (r: bool)
        ensures
            r == is_exit(cfg@, self.input@),
    {
        cfg.die_on_exit() && self.input == "exit".to_string()
    }

    fn settle(&mut self, history: &CliHistory) -> (r: Reaction)
        ensures
            (final(self).session(history), r) == settle(old(self).session(history), history.settings()),
            final(self).buffer == old(self).buffer,
    {
        if self.is_exit_line(history.get_settings()) {
            self.phase = Phase::Terminated;
            Reaction { accept: false, log: false, screen: Screen::Still, finished: true }
        } else {
            self.phase = Phase::AwaitingKey;
            Reaction { accept: false, log: false, screen: Screen::Label, finished: false }
        }
    }

    fn recall(&mut self, history: &CliHistory, found: Option<String>) -> (r: Reaction)
        ensures
            (final(self).session(history), r) == recall(
                old(self).session(history),
                history.settings(),
                history.cursor(),
                crate::view_opt(found),
            ),
            final(self).buffer == old(self).buffer,
    {
        match found {
            Some(e) => {
                if !e.as_str().is_empty() {
                    let pad = self.input.as_str().unicode_len();
                    self.input = e;
                    self.phase = Phase::Recalled;
                    Reaction {
                        accept: false,
                        log: false,
                        screen: Screen::Recall(pad),
                        finished: false,
                    }
                } else {
                    self.input = e;
                    self.settle(history)
                }
            },
            None => self.settle(history),
        }
    }

    fn on_key(&mut self, history: &mut CliHistory, key: KeyEvent) -> (r: Reaction)
        requires
            old(self).wf(),
        ensures
            (final(self).session(final(history)), r) == on_key(
                old(self).session(old(history)),
                old(history).settings(),
                key,
            ),
            final(history).settings() == old(history).settings(),
            final(self).wf(),
    {
        self.hooks.update(key);
        if self.hooks.is_arrow_up() {
            let found = history.history_iter_up();
            self.recall(history, found)
        } else if self.hooks.is_arrow_down() {
            let found = history.history_iter_down();
            self.recall(history, found)
        } else if self.hooks.is_enter() {
            self.phase = Phase::Terminated;
            Reaction { accept: false, log: false, screen: Screen::Still, finished: true }
        } else {
            self.input = String::new();
            match Hooks::get_char(key) {
                Some(c) => {
                    self.buffer = CharCollection::start(c);
                    self.phase = Phase::Editing;
                    Reaction {
                        accept: false,
                        log: false,
                        screen: Screen::Echo(c),
                        finished: false,
                    }
                },
                None => {
                    self.phase = Phase::AwaitingKey;
                    Reaction { accept: false, log: false, screen: Screen::Label, finished: false }
                },
            }
        }
    }

    fn submit(&mut self, history: &mut CliHistory) -> (r: Reaction)
        requires
            old(self).wf(),
        ensures
            (final(self).session(final(history)), r) == submit(
                old(self).session(old(history)),
                old(history).settings(),
            ),
            final(history).settings() == old(history).settings(),
            final(self).wf(),
    {
        self.input = self.buffer.line();
        if self.input.as_str().is_empty() {
            return self.settle(history);
        }
        history.value_add_history(self.input.as_str());
        let cfg = history.get_settings();
        let log = !cfg.log_file_path().is_empty() && self.log_count < cfg.max_size_log_file();
        if log {
            self.log_count = self.log_count + 1;
        }
        if self.is_exit_line(cfg) {
            self.phase = Phase::Terminated;
            Reaction { accept: true, log, screen: Screen::Still, finished: true }
        } else {
            self.phase = Phase::AwaitingKey;
            Reaction { accept: true, log, screen: Screen::Label, finished: false }
        }
    }

    /// Handles one key, or a failed read (`None`), as `next` says.
    pub fn step(&mut self, history: &mut CliHistory, key: Option<KeyEvent>) -> (r: Reaction)
        requires
            old(self).wf(),
        ensures
            (final(self).session(final(history)), r) == next(
                old(self).session(old(history)),
                old(history).settings(),
                key,
            ),
            final(history).settings() == old(history).settings(),
            final(self).wf(),
    {
        match self.phase {
            Phase::Terminated => Reaction {
                accept: false,
                log: false,
                screen: Screen::Still,
                finished: true,
            },
            Phase::AwaitingKey => match key {
                None => {
                    self.phase = Phase::Terminated;
                    Reaction { accept: false, log: false, screen: Screen::Still, finished: true }
                },
                Some(k) => self.on_key(history, k),
            },
            Phase::Recalled => match key {
                None => {
                    self.phase = Phase::Terminated;
                    Reaction { accept: false, log: false, screen: Screen::Still, finished: true }
                },
                Some(k) => {
                    self.hooks.update(k);
                    if self.hooks.is_enter() {
                        self.phase = Phase::Terminated;
                        Reaction { accept: true, log: false, screen: Screen::Still, finished: true }
                    } else if self.is_exit_line(history.get_settings()) {
                        self.phase = Phase::Terminated;
                        Reaction {
                            accept: false,
                            log: false,
                            screen: Screen::Still,
                            finished: true,
                        }
                    } else {
                        self.on_key(history, k)
                    }
                },
            },
            Phase::Editing => match key {
                None => {
                    self.input = String::new();
                    self.phase = Phase::Terminated;
                    Reaction { accept: false, log: false, screen: Screen::Still, finished: true }
                },
                Some(k) => {
                    if self.buffer.apply_key(k) {
                        self.submit(history)
                    } else {
                        Reaction { accept: false, log: false, screen: Screen::Edit, finished: false }
                    }
                },
            },
        }
    }
}

} // verus!
