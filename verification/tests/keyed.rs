use mcp_multi_tool::keyed::{position, Entry, Keyed};

#[test]
fn keyed_map_holds_one_value_per_key() {
    let mut table: Keyed<u32> = Keyed::new();
    assert_eq!(table.len(), 0);
    assert!(!table.contains_key("a"));
    table.insert("a", 1);
    table.insert("b", 2);
    table.insert("a", 3);
    assert_eq!(table.len(), 2);
    assert_eq!(table.get("a"), Some(&3));
    assert_eq!(table.get("b"), Some(&2));
    assert_eq!(table.get("c"), None);
    assert_eq!(table.remove("a"), Some(3));
    assert_eq!(table.remove("a"), None);
    assert_eq!(table.len(), 1);
    assert!(table.contains_key("b"));
    assert!(!table.contains_key("a"));
}

#[test]
fn keyed_map_hands_its_entries_out() {
    let mut table: Keyed<u32> = Keyed::new();
    table.push_fresh(Entry { key: "x".into(), value: 10 });
    table.push_fresh(Entry { key: "y".into(), value: 20 });
    let mut seen = Vec::new();
    while let Some(entry) = table.pop() {
        seen.push((entry.key, entry.value));
    }
    seen.sort();
    assert_eq!(seen, vec![("x".to_string(), 10), ("y".to_string(), 20)]);
    assert_eq!(table.len(), 0);
    assert!(table.pop().is_none());
}

#[test]
fn keys_are_found_by_position() {
    let list = vec![
        Entry { key: "a".to_string(), value: 1 },
        Entry { key: "b".to_string(), value: 2 },
    ];
    assert_eq!(position(&list, "a"), Some(0));
    assert_eq!(position(&list, "b"), Some(1));
    assert_eq!(position(&list, "c"), None);
    assert_eq!(position(&Vec::<Entry<u8>>::new(), "a"), None);
}
