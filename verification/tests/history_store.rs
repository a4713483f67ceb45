//! History store: bounded capacity, most-recent-first order, blank
//! filtering, snapshots.

use mofa_ime::history::HistoryStore;

#[test]
fn fifty_one_inserts_keep_fifty_most_recent_first() {
    let mut store = HistoryStore::new();
    for i in 0..51 {
        store.add_history_item(&format!("item{}", i));
    }
    let items = store.get_history_items();
    assert_eq!(items.len(), 50);
    // Most recent first.
    assert_eq!(items[0], "item50");
    assert_eq!(items[49], "item1");
    // The oldest entry was evicted.
    assert!(!items.iter().any(|s| s == "item0"));
}

#[test]
fn blank_text_is_ignored() {
    let mut store = HistoryStore::new();
    store.add_history_item("");
    store.add_history_item("   \t");
    assert_eq!(store.len(), 0);
    store.add_history_item("hello");
    store.add_history_item("  \n ");
    let items = store.get_history_items();
    assert_eq!(items, vec!["hello".to_string()]);
}

#[test]
fn newest_goes_to_the_front() {
    let mut store = HistoryStore::new();
    store.add_history_item("first");
    store.add_history_item("second");
    let items = store.get_history_items();
    assert_eq!(items, vec!["second".to_string(), "first".to_string()]);
}

#[test]
fn clear_empties_the_store() {
    let mut store = HistoryStore::new();
    store.add_history_item("one");
    store.add_history_item("two");
    store.clear_history();
    assert_eq!(store.len(), 0);
    assert!(store.get_history_items().is_empty());
}

#[test]
fn snapshot_is_a_copy() {
    let mut store = HistoryStore::new();
    store.add_history_item("kept");
    let snapshot = store.get_history_items();
    store.clear_history();
    assert_eq!(snapshot, vec!["kept".to_string()]);
}
