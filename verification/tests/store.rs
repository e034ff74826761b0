use pare::store::{is_clip, ClipStore, DeleteOutcome, InsertOutcome, StoreError};

fn strings(items: &[&str]) -> Vec<String> {
    items.iter().map(|s| s.to_string()).collect()
}

#[test]
fn new_store_is_empty() {
    let store = ClipStore::new();
    assert!(store.is_empty());
    assert_eq!(store.len(), 0);
    assert_eq!(store.list(), Vec::<String>::new());
}

#[test]
fn insert_reports_inserted_then_already_present() {
    let mut store = ClipStore::new();
    assert_eq!(store.insert("abc"), Ok(InsertOutcome::Inserted));
    assert_eq!(store.insert("abc"), Ok(InsertOutcome::AlreadyPresent));
    assert_eq!(store.list(), strings(&["abc"]));
}

#[test]
fn insert_rejects_empty_text() {
    let mut store = ClipStore::new();
    assert_eq!(store.insert("a"), Ok(InsertOutcome::Inserted));
    assert_eq!(store.insert(""), Err(StoreError::InvalidArgument));
    assert_eq!(store.list(), strings(&["a"]));
    assert!(!store.contains(""));
}

#[test]
fn every_distinct_text_is_listed_once() {
    let mut store = ClipStore::new();
    for text in ["x", "y", "x", "", "z", "y", "x", "z"] {
        let _ = store.insert(text);
    }
    assert_eq!(store.list(), strings(&["x", "y", "z"]));
    assert_eq!(store.len(), 3);
}

#[test]
fn inserting_twice_equals_inserting_once() {
    let mut once = ClipStore::new();
    let mut twice = ClipStore::new();
    for store in [&mut once, &mut twice] {
        store.insert("first").unwrap();
    }
    once.insert("x").unwrap();
    twice.insert("x").unwrap();
    twice.insert("x").unwrap();
    assert_eq!(once.list(), twice.list());
    assert_eq!(twice.list(), strings(&["first", "x"]));
}

#[test]
fn delete_removes_by_value_and_keeps_order() {
    let mut store = ClipStore::new();
    for text in ["a", "b", "c"] {
        store.insert(text).unwrap();
    }
    assert_eq!(store.delete("b"), DeleteOutcome::Deleted);
    assert_eq!(store.list(), strings(&["a", "c"]));
    assert!(!store.contains("b"));
    assert!(store.contains("a"));
    assert!(store.contains("c"));
}

#[test]
fn delete_of_absent_text_changes_nothing() {
    let mut store = ClipStore::new();
    for text in ["a", "b"] {
        store.insert(text).unwrap();
    }
    let before = store.list();
    assert_eq!(store.delete("zzz"), DeleteOutcome::NotFound);
    assert_eq!(store.delete(""), DeleteOutcome::NotFound);
    assert_eq!(store.list(), before);
}

#[test]
fn delete_on_empty_store_is_not_found() {
    let mut store = ClipStore::new();
    assert_eq!(store.delete("a"), DeleteOutcome::NotFound);
    assert!(store.is_empty());
}

#[test]
fn deleted_text_can_be_inserted_again() {
    let mut store = ClipStore::new();
    store.insert("a").unwrap();
    store.insert("b").unwrap();
    assert_eq!(store.delete("a"), DeleteOutcome::Deleted);
    assert_eq!(store.insert("a"), Ok(InsertOutcome::Inserted));
    assert_eq!(store.list(), strings(&["b", "a"]));
}

#[test]
fn text_round_trips_unchanged() {
    let samples = [
        "O'Brien said \"hi\"\\n",
        "back\\slash\\\\",
        "line one\nline two\r\n\ttabbed",
        "'; DROP TABLE clips; --",
        "emoji \u{1F600} and \u{00e9}\u{4e2d}\u{6587}",
        " leading and trailing ",
        "hello\n",
    ];
    let mut store = ClipStore::new();
    for sample in samples {
        assert_eq!(store.insert(sample), Ok(InsertOutcome::Inserted));
        assert!(store.contains(sample));
        let listed = store.list();
        assert_eq!(listed.iter().filter(|clip| clip.as_str() == sample).count(), 1);
        assert_eq!(listed.last().unwrap().as_bytes(), sample.as_bytes());
    }
    assert_eq!(store.list(), strings(&samples));
}

#[test]
fn texts_that_differ_in_whitespace_are_distinct() {
    let mut store = ClipStore::new();
    assert_eq!(store.insert("hello"), Ok(InsertOutcome::Inserted));
    assert_eq!(store.insert("hello\n"), Ok(InsertOutcome::Inserted));
    assert_eq!(store.insert(" hello"), Ok(InsertOutcome::Inserted));
    assert_eq!(store.len(), 3);
}

#[test]
fn list_is_owned_by_the_caller() {
    let mut store = ClipStore::new();
    store.insert("a").unwrap();
    store.insert("b").unwrap();
    let mut snapshot = store.list();
    snapshot.remove(0);
    snapshot.push("other".to_string());
    assert_eq!(store.list(), strings(&["a", "b"]));
}

#[test]
fn only_empty_text_is_no_clip() {
    assert!(!is_clip(""));
    assert!(is_clip(" "));
    assert!(is_clip("\n"));
    assert!(is_clip("abc"));
}
