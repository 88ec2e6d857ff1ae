use symphony::issue_map::IssueMap;

#[test]
fn a_read_gives_back_what_was_written() {
    let mut map = IssueMap::new();
    assert!(map.is_empty());
    assert_eq!(map.insert("a".to_string(), 1), None);
    assert_eq!(map.insert("b".to_string(), 2), None);
    assert_eq!(map.get("a"), Some(&1));
    assert_eq!(map.get("b"), Some(&2));
    assert_eq!(map.get("c"), None);
    assert_eq!(map.insert("a".to_string(), 3), Some(1));
    assert_eq!(map.get("a"), Some(&3));
    assert_eq!(map.len(), 2);
    assert!(!map.is_empty());
}

#[test]
fn a_removed_id_is_gone() {
    let mut map = IssueMap::new();
    map.insert("a".to_string(), 1);
    map.insert("b".to_string(), 2);
    assert_eq!(map.remove("a"), Some(1));
    assert_eq!(map.remove("a"), None);
    assert!(!map.contains_key("a"));
    assert!(map.contains_key("b"));
    assert_eq!(map.len(), 1);
}

#[test]
fn the_walk_meets_each_id_once() {
    let mut map = IssueMap::new();
    for (id, value) in [("x", 1), ("y", 2), ("z", 3), ("x", 4)] {
        map.insert(id.to_string(), value);
    }
    map.remove("y");
    let mut seen = Vec::new();
    for i in 0..map.len() {
        let (id, value) = map.entry_at(i);
        seen.push((id.clone(), *value));
    }
    seen.sort();
    assert_eq!(seen, vec![("x".to_string(), 4), ("z".to_string(), 3)]);
}
