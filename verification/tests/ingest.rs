use pare::ingest::{ingest_into, plan_ingest, IngestPlan};
use pare::store::{ClipStore, InsertOutcome};

fn strings(items: &[&str]) -> Vec<String> {
    items.iter().map(|s| s.to_string()).collect()
}

fn run_ingest(store: &mut ClipStore, clipboard: &mut Option<String>, input: &str) -> Option<InsertOutcome> {
    let known = store.contains(input);
    match ingest_into(store, input.to_string()) {
        IngestPlan::Skip => None,
        IngestPlan::Record(clip) => {
            *clipboard = Some(clip);
            Some(if known { InsertOutcome::AlreadyPresent } else { InsertOutcome::Inserted })
        }
    }
}

#[test]
fn empty_input_is_skipped() {
    assert_eq!(plan_ingest(String::new()), IngestPlan::Skip);
    let mut store = ClipStore::new();
    let mut clipboard = None;
    assert_eq!(run_ingest(&mut store, &mut clipboard, ""), None);
    assert!(store.is_empty());
    assert_eq!(clipboard, None);
}

#[test]
fn input_is_recorded_untrimmed() {
    assert_eq!(plan_ingest(" \n".to_string()), IngestPlan::Record(" \n".to_string()));
    assert_eq!(plan_ingest("hello\n".to_string()), IngestPlan::Record("hello\n".to_string()));
}

#[test]
fn fresh_ingest() {
    let mut store = ClipStore::new();
    let mut clipboard = None;
    assert_eq!(run_ingest(&mut store, &mut clipboard, "hello\n"), Some(InsertOutcome::Inserted));
    assert_eq!(store.list(), strings(&["hello\n"]));
    assert_eq!(clipboard, Some("hello\n".to_string()));
}

#[test]
fn dedup_ingest() {
    let mut store = ClipStore::new();
    store.insert("abc").unwrap();
    let mut clipboard = None;
    assert_eq!(run_ingest(&mut store, &mut clipboard, "abc"), Some(InsertOutcome::AlreadyPresent));
    assert_eq!(store.list(), strings(&["abc"]));
    assert_eq!(clipboard, Some("abc".to_string()));
}

#[test]
fn quote_safety() {
    let mut store = ClipStore::new();
    let mut clipboard = None;
    let input = "O'Brien said \"hi\"\\n";
    assert_eq!(input.len(), 19);
    assert_eq!(run_ingest(&mut store, &mut clipboard, input), Some(InsertOutcome::Inserted));
    assert_eq!(store.list(), strings(&["O'Brien said \"hi\"\\n"]));
    assert_eq!(clipboard, Some(input.to_string()));
}
