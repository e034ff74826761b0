use pare::monitor::{ClipboardRead, Monitor, MonitorAction, DEFAULT_TICK_MS};
use pare::store::ClipStore;

fn strings(items: &[&str]) -> Vec<String> {
    items.iter().map(|s| s.to_string()).collect()
}

fn record(value: &str, reassert: bool) -> MonitorAction {
    MonitorAction::Record { text: value.to_string(), reassert }
}

fn text(value: &str) -> ClipboardRead {
    ClipboardRead::Text(value.to_string())
}

fn run_tick(monitor: &mut Monitor, store: &mut ClipStore, read: ClipboardRead) -> Option<String> {
    match monitor.tick_on(store, read) {
        MonitorAction::Record { text, .. } => Some(text),
        MonitorAction::Idle => None,
    }
}

#[test]
fn fresh_monitor_has_seen_nothing() {
    let monitor = Monitor::new(true);
    assert_eq!(monitor.last_seen(), None);
}

#[test]
fn first_text_is_recorded() {
    let mut monitor = Monitor::new(true);
    assert_eq!(monitor.tick(text("foo")), record("foo", true));
    assert_eq!(monitor.last_seen(), Some(&"foo".to_string()));
}

#[test]
fn same_text_is_not_recorded_again() {
    let mut monitor = Monitor::new(true);
    assert_eq!(monitor.tick(text("foo")), record("foo", true));
    assert_eq!(monitor.tick(text("foo")), MonitorAction::Idle);
    assert_eq!(monitor.last_seen(), Some(&"foo".to_string()));
}

#[test]
fn empty_clipboard_is_not_recorded() {
    let mut monitor = Monitor::new(true);
    assert_eq!(monitor.tick(text("")), MonitorAction::Idle);
    assert_eq!(monitor.last_seen(), None);
    assert_eq!(monitor.tick(text("foo")), record("foo", true));
    assert_eq!(monitor.tick(text("")), MonitorAction::Idle);
    assert_eq!(monitor.last_seen(), Some(&"foo".to_string()));
}

#[test]
fn failed_read_counts_as_no_change() {
    let mut monitor = Monitor::new(true);
    assert_eq!(monitor.tick(ClipboardRead::Unavailable), MonitorAction::Idle);
    assert_eq!(monitor.last_seen(), None);
    assert_eq!(monitor.tick(text("foo")), record("foo", true));
    assert_eq!(monitor.tick(ClipboardRead::Unavailable), MonitorAction::Idle);
    assert_eq!(monitor.tick(text("foo")), MonitorAction::Idle);
    assert_eq!(monitor.last_seen(), Some(&"foo".to_string()));
}

#[test]
fn text_that_names_the_daemon_is_an_ordinary_clip() {
    let mut monitor = Monitor::new(true);
    assert_eq!(
        monitor.tick(text("pare_daemonized")),
        record("pare_daemonized", true)
    );
}

#[test]
fn constant_clipboard_gives_one_row() {
    for ticks in [1, 2, 7] {
        let mut monitor = Monitor::new(true);
        let mut store = ClipStore::new();
        store.insert("earlier").unwrap();
        let mut recorded = 0;
        for _ in 0..ticks {
            if run_tick(&mut monitor, &mut store, text("v")).is_some() {
                recorded += 1;
            }
        }
        assert_eq!(recorded, 1);
        assert_eq!(store.list(), strings(&["earlier", "v"]));
    }
}

#[test]
fn monitor_idempotence() {
    let mut monitor = Monitor::new(true);
    let mut store = ClipStore::new();
    let mut clipboard_writes: Vec<String> = Vec::new();
    for _ in 0..5 {
        if let Some(clip) = run_tick(&mut monitor, &mut store, text("foo")) {
            clipboard_writes.push(clip);
        }
    }
    assert_eq!(store.list(), strings(&["foo"]));
    assert_eq!(clipboard_writes, strings(&["foo"]));
    if let Some(clip) = run_tick(&mut monitor, &mut store, text("bar")) {
        clipboard_writes.push(clip);
    }
    assert_eq!(store.list(), strings(&["foo", "bar"]));
    assert_eq!(clipboard_writes, strings(&["foo", "bar"]));
}

#[test]
fn text_that_returns_is_recorded_without_a_second_row() {
    let mut monitor = Monitor::new(true);
    let mut store = ClipStore::new();
    for value in ["foo", "bar", "foo", "foo"] {
        run_tick(&mut monitor, &mut store, text(value));
    }
    assert_eq!(store.list(), strings(&["foo", "bar"]));
    assert_eq!(monitor.last_seen(), Some(&"foo".to_string()));
}

#[test]
fn reassert_follows_the_clipboard_capability() {
    let mut owning = Monitor::new(true);
    assert_eq!(owning.tick(text("a")), record("a", true));
    assert_eq!(owning.tick(text("b")), record("b", true));
    let mut managed = Monitor::new(false);
    assert_eq!(managed.tick(text("a")), record("a", false));
    assert_eq!(managed.tick(text("a")), MonitorAction::Idle);
    assert_eq!(managed.tick(text("b")), record("b", false));
}

#[test]
fn default_tick_is_one_second() {
    assert_eq!(DEFAULT_TICK_MS, 1000);
}

#[test]
fn tick_on_store_inserts_what_tick_records() {
    let mut plain = Monitor::new(false);
    let mut driven = Monitor::new(false);
    let mut store = ClipStore::new();
    let mut expected = ClipStore::new();
    for value in ["a", "", "a", "b", "a", "b", "b"] {
        let action = plain.tick(text(value));
        if let MonitorAction::Record { text, .. } = &action {
            let _ = expected.insert(text);
        }
        assert_eq!(driven.tick_on(&mut store, text(value)), action);
        assert_eq!(store.list(), expected.list());
        assert_eq!(driven.last_seen(), plain.last_seen());
    }
    assert_eq!(driven.tick_on(&mut store, ClipboardRead::Unavailable), MonitorAction::Idle);
    assert_eq!(store.list(), strings(&["a", "b"]));
}
