use broadcast_relay::store::SubscriberStore;

#[test]
fn a_new_store_is_empty() {
    let store = SubscriberStore::new();
    assert_eq!(store.len(), 0);
    assert!(store.list_all().is_empty());
    assert!(!store.contains("42"));
}

#[test]
fn add_writes_a_row_the_first_time() {
    let mut store = SubscriberStore::new();
    assert!(store.add("42"));
    assert!(store.contains("42"));
    assert_eq!(store.len(), 1);
    assert_eq!(store.list_all(), vec!["42".to_string()]);
}

#[test]
fn adding_twice_leaves_one_row() {
    let mut store = SubscriberStore::new();
    assert!(store.add("42"));
    assert!(!store.add("42"));
    assert_eq!(store.len(), 1);
    assert_eq!(store.list_all(), vec!["42".to_string()]);
}

#[test]
fn list_all_returns_the_distinct_identities_seen() {
    let mut store = SubscriberStore::new();
    for id in ["1", "2", "1", "3", "2", "1", "3", "3"] {
        store.add(id);
    }
    assert_eq!(store.len(), 3);
    let mut all = store.list_all();
    all.sort();
    assert_eq!(all, vec!["1".to_string(), "2".to_string(), "3".to_string()]);
}

#[test]
fn rows_keep_the_order_of_first_subscription() {
    let mut store = SubscriberStore::new();
    for id in ["7", "-5", "7", "12", "-5"] {
        store.add(id);
    }
    assert_eq!(store.list_all(), vec!["7".to_string(), "-5".to_string(), "12".to_string()]);
}

#[test]
fn identities_are_compared_as_text() {
    let mut store = SubscriberStore::new();
    assert!(store.add("42"));
    assert!(store.add("042"));
    assert!(store.add("+42"));
    assert!(store.add(""));
    assert!(!store.add(""));
    assert!(store.contains("042"));
    assert!(!store.contains("4"));
    assert_eq!(store.len(), 4);
}

#[test]
fn list_all_is_a_copy() {
    let mut store = SubscriberStore::new();
    store.add("1");
    let mut all = store.list_all();
    all.push("2".to_string());
    all[0].push('0');
    assert_eq!(store.list_all(), vec!["1".to_string()]);
    assert!(!store.contains("2"));
    assert!(!store.contains("10"));
}
