use exchange_client::string_map::{name_occurs_before, StringMap};

fn map_of(pairs: &[(&str, &str)]) -> StringMap {
    let mut map = StringMap::new();
    for (key, value) in pairs {
        map.insert(key.to_string(), value.to_string());
    }
    map
}

#[test]
fn new_map_is_empty() {
    let map = StringMap::new();
    assert!(map.is_empty());
    assert_eq!(map.len(), 0);
    assert_eq!(map.get("key"), None);
    assert!(!map.contains_key("key"));
}

#[test]
fn insert_then_get() {
    let map = map_of(&[("key", "k"), ("secret", "s")]);
    assert_eq!(map.len(), 2);
    assert_eq!(map.get("key"), Some(&"k".to_string()));
    assert_eq!(map.get("secret"), Some(&"s".to_string()));
    assert_eq!(map.get("passphrase"), None);
    assert!(map.contains_key("secret"));
}

#[test]
fn insert_of_a_present_key_replaces_the_value_in_place() {
    let map = map_of(&[("a", "1"), ("b", "2"), ("a", "3")]);
    assert_eq!(map.len(), 2);
    assert_eq!(map.key_at(0), "a");
    assert_eq!(map.value_at(0), "3");
    assert_eq!(map.key_at(1), "b");
    assert_eq!(map.value_at(1), "2");
}

#[test]
fn pairs_keep_the_order_of_insertion() {
    let map = map_of(&[("z", "1"), ("a", "2"), ("m", "3")]);
    let keys: Vec<&str> = (0..map.len()).map(|i| map.key_at(i).as_str()).collect();
    assert_eq!(keys, vec!["z", "a", "m"]);
}

#[test]
fn keys_are_compared_exactly() {
    let map = map_of(&[("Key", "1")]);
    assert_eq!(map.get("key"), None);
    assert_eq!(map.get("Key "), None);
    assert_eq!(map.get("Key"), Some(&"1".to_string()));
}

#[test]
fn a_name_occurs_before_a_place_or_not() {
    let pairs = vec![("a".to_string(), 1), ("b".to_string(), 2), ("a".to_string(), 3)];
    assert!(!name_occurs_before(&pairs, 0, "a"));
    assert!(name_occurs_before(&pairs, 1, "a"));
    assert!(!name_occurs_before(&pairs, 1, "b"));
    assert!(name_occurs_before(&pairs, 2, "b"));
    assert!(name_occurs_before(&pairs, 3, "a"));
    assert!(!name_occurs_before(&pairs, 3, "c"));
}
