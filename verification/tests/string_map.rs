//! Maps from strings.

use virt_container::string_map::StringMap;

#[test]
fn the_last_value_under_a_key_counts() {
    let mut map: StringMap<u32> = StringMap::new();
    assert!(map.get("a").is_none());
    assert_eq!(map.insert("a".to_owned(), 1), None);
    assert_eq!(map.insert("b".to_owned(), 2), None);
    assert_eq!(map.insert("a".to_owned(), 3), Some(1));
    assert_eq!(map.get("a"), Some(&3));
    assert_eq!(map.get("b"), Some(&2));
    assert!(map.contains_key("b"));
    assert!(!map.contains_key(""));
}

#[test]
fn removing_takes_out_one_key() {
    let mut map: StringMap<u32> = StringMap::new();
    map.insert("a".to_owned(), 1);
    map.insert("".to_owned(), 2);
    map.insert("c".to_owned(), 3);
    assert_eq!(map.remove(""), Some(2));
    assert_eq!(map.remove(""), None);
    assert_eq!(map.get("a"), Some(&1));
    assert_eq!(map.get("c"), Some(&3));
    let mut entries = map.into_entries();
    entries.sort();
    assert_eq!(entries, vec![("a".to_owned(), 1), ("c".to_owned(), 3)]);
}

#[test]
fn a_duplicate_holds_the_same() {
    let mut map: StringMap<String> = StringMap::new();
    map.insert("k".to_owned(), "v".to_owned());
    map.insert("l".to_owned(), "w".to_owned());
    let copy = map.duplicate();
    map.insert("k".to_owned(), "changed".to_owned());
    assert_eq!(copy.get("k").map(|v| v.as_str()), Some("v"));
    assert_eq!(copy.get("l").map(|v| v.as_str()), Some("w"));
    assert_eq!(map.get("k").map(|v| v.as_str()), Some("changed"));
}
