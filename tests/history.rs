use clihistory::{CliHistory, CliHistorySettings};

#[test]
fn settings_defaults() {
    let s = CliHistorySettings::new();
    assert_eq!(s.label(), "CliHistoryPrompt: ");
    assert_eq!(s.max_size(), 500);
    assert_eq!(s.max_size_log_file(), 500);
    assert!(!s.die_on_exit());
    assert_eq!(s.log_file_path(), "");
}

#[test]
fn settings_setters() {
    let mut s = CliHistorySettings::new();
    s.set_label("Enter some text: ");
    s.set_max_size(100);
    s.set_die_on_exit();
    s.set_max_size_log_file(7);
    s.set_log_to_file("history.txt");
    assert_eq!(s.label(), "Enter some text: ");
    assert_eq!(s.max_size(), 100);
    assert!(s.die_on_exit());
    assert_eq!(s.max_size_log_file(), 7);
    assert_eq!(s.log_file_path(), "history.txt");
    let h = CliHistory::new(&s);
    assert_eq!(h.get_label(), "Enter some text: ");
}

#[test]
fn cursor_is_one_past_the_newest_after_each_push() {
    let s = CliHistorySettings::new();
    let mut h = CliHistory::new(&s);
    assert_eq!(h.history_iter_down(), None);
    for (i, v) in ["a", "b", "c"].iter().enumerate() {
        h.value_add_history(v);
        assert_eq!(h.get_history().len(), i + 1);
        // one past the newest: nothing below, the newest above
        assert_eq!(h.history_iter_down(), None);
        assert_eq!(h.history_iter_up(), Some(v.to_string()));
        assert_eq!(h.history_iter_down(), None);
        assert_eq!(h.history_iter_down(), None);
        assert_eq!(h.history_iter_up(), Some(v.to_string()));
        assert_eq!(h.history_iter_down(), None);
    }
}

#[test]
fn up_then_down_returns_to_the_entry_before() {
    let s = CliHistorySettings::new();
    let mut h = CliHistory::new(&s);
    for v in ["a", "b", "c"] {
        h.value_add_history(v);
    }
    assert_eq!(h.history_iter_up(), Some("c".to_string()));
    assert_eq!(h.history_iter_up(), Some("b".to_string()));
    assert_eq!(h.history_iter_down(), Some("c".to_string()));
    assert_eq!(h.history_iter_up(), Some("b".to_string()));
    assert_eq!(h.history_iter_up(), Some("a".to_string()));
    assert_eq!(h.history_iter_up(), None);
    assert_eq!(h.history_iter_up(), None);
    assert_eq!(h.history_iter_down(), Some("b".to_string()));
    assert_eq!(h.history_iter_down(), Some("c".to_string()));
    assert_eq!(h.history_iter_down(), None);
    assert_eq!(h.history_iter_down(), None);
}

#[test]
fn pushing_past_capacity_resets() {
    let mut s = CliHistorySettings::new();
    s.set_max_size(3);
    let mut h = CliHistory::new(&s);
    for v in ["one", "two", "three", "four"] {
        h.value_add_history(v);
    }
    assert_eq!(h.get_history(), &vec!["four".to_string()]);
}

#[test]
fn capacity_two_keeps_only_the_third_push() {
    let mut s = CliHistorySettings::new();
    s.set_max_size(2);
    let mut h = CliHistory::new(&s);
    h.value_add_history("x");
    h.value_add_history("y");
    assert_eq!(h.get_history().len(), 2);
    h.value_add_history("z");
    assert_eq!(h.get_history(), &vec!["z".to_string()]);
    assert_eq!(h.history_iter_up(), Some("z".to_string()));
    assert_eq!(h.history_iter_up(), None);
}

#[test]
fn entries_keep_order_and_duplicates() {
    let s = CliHistorySettings::new();
    let mut h = CliHistory::new(&s);
    for v in ["ls", "ls", "cd"] {
        h.value_add_history(v);
    }
    assert_eq!(h.get_history(), &vec!["ls".to_string(), "ls".to_string(), "cd".to_string()]);
}

#[test]
fn history_is_open_to_the_caller() {
    let s = CliHistorySettings::new();
    let mut h = CliHistory::new(&s);
    h.value_add_history("a");
    h.get_history().push("b".to_string());
    assert_eq!(h.history_iter_up(), Some("a".to_string()));
    assert_eq!(h.history_iter_down(), Some("b".to_string()));
    assert_eq!(h.history_iter_down(), None);
}

#[test]
fn capacity_one_keeps_the_newest_entry() {
    let mut s = CliHistorySettings::new();
    s.set_max_size(1);
    let mut h = CliHistory::new(&s);
    for v in ["a", "b", "c"] {
        h.value_add_history(v);
        assert_eq!(h.get_history(), &vec![v.to_string()]);
    }
}
