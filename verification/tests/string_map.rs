use openai_rst::string_map::StringMap;

fn s(text: &str) -> String {
    text.to_string()
}

#[test]
fn a_new_map_is_empty() {
    let map = StringMap::new();
    assert_eq!(map.len(), 0);
    assert!(map.is_empty());
    assert!(!map.contains_key("a"));
    assert_eq!(map.get("a"), None);
}

#[test]
fn insert_then_get() {
    let mut map = StringMap::new();
    assert_eq!(map.insert(s("a"), s("1")), None);
    assert_eq!(map.insert(s("b"), s("2")), None);
    assert_eq!(map.len(), 2);
    assert!(!map.is_empty());
    assert_eq!(map.get("a"), Some(&s("1")));
    assert_eq!(map.get("b"), Some(&s("2")));
    assert_eq!(map.get("c"), None);
    assert!(map.contains_key("b"));
}

#[test]
fn a_second_insert_replaces_the_value() {
    let mut map = StringMap::new();
    map.insert(s("a"), s("1"));
    map.insert(s("b"), s("2"));
    assert_eq!(map.insert(s("a"), s("3")), Some(s("1")));
    assert_eq!(map.len(), 2);
    assert_eq!(map.get("a"), Some(&s("3")));
    assert_eq!(map.get("b"), Some(&s("2")));
}

#[test]
fn remove_takes_the_key_out() {
    let mut map = StringMap::new();
    map.insert(s("a"), s("1"));
    map.insert(s("b"), s("2"));
    assert_eq!(map.remove("a"), Some(s("1")));
    assert_eq!(map.remove("a"), None);
    assert_eq!(map.len(), 1);
    assert_eq!(map.get("a"), None);
    assert_eq!(map.get("b"), Some(&s("2")));
}

#[test]
fn keys_are_compared_exactly() {
    let mut map = StringMap::new();
    map.insert(s("Key"), s("1"));
    assert_eq!(map.get("key"), None);
    assert_eq!(map.get("Key "), None);
    assert_eq!(map.get("Key"), Some(&s("1")));
}

#[test]
fn from_pairs_keeps_the_last_value_of_a_key() {
    let map = StringMap::from_pairs(vec![
        (s("a"), s("1")),
        (s("b"), s("2")),
        (s("a"), s("3")),
    ]);
    assert_eq!(map.len(), 2);
    assert_eq!(map.get("a"), Some(&s("3")));
    assert_eq!(map.get("b"), Some(&s("2")));
}

#[test]
fn the_order_of_insertion_is_irrelevant() {
    let mut one = StringMap::new();
    one.insert(s("a"), s("1"));
    one.insert(s("b"), s("2"));
    let mut two = StringMap::new();
    two.insert(s("b"), s("2"));
    two.insert(s("a"), s("1"));
    assert!(one.same_as(&two));
    assert!(two.same_as(&one));
    two.insert(s("a"), s("changed"));
    assert!(!one.same_as(&two));
    two.insert(s("a"), s("1"));
    two.insert(s("c"), s("3"));
    assert!(!one.same_as(&two));
    assert!(!two.same_as(&one));
}

#[test]
fn entries_can_be_walked() {
    let mut map = StringMap::new();
    map.insert(s("a"), s("1"));
    map.insert(s("b"), s("2"));
    let mut seen = Vec::new();
    for i in 0..map.len() {
        let (key, value) = map.entry(i).unwrap();
        seen.push((key.clone(), value.clone()));
    }
    seen.sort();
    assert_eq!(seen, vec![(s("a"), s("1")), (s("b"), s("2"))]);
    assert_eq!(map.entry(2), None);
    assert_eq!(StringMap::new().entry(0), None);
}

#[test]
fn a_copy_is_the_same_map() {
    let mut map = StringMap::new();
    map.insert(s("a"), s("1"));
    let copy = map.duplicate();
    let clone = map.clone();
    map.insert(s("a"), s("2"));
    assert_eq!(copy.get("a"), Some(&s("1")));
    assert_eq!(clone.get("a"), Some(&s("1")));
    assert!(copy.same_as(&clone));
    assert!(!copy.same_as(&map));
}
