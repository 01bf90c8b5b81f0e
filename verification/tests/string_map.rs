use realtime_rs::string_map::StringMap;

fn text(value: &str) -> String {
    value.to_string()
}

fn keys(map: &StringMap<u32>) -> Vec<String> {
    let mut keys = Vec::new();
    for i in 0..map.len() {
        keys.push(map.key_at(i).clone());
    }
    keys
}

#[test]
fn a_map_starts_empty() {
    let map: StringMap<u32> = StringMap::new();
    assert_eq!(map.len(), 0);
    assert!(!map.contains_key(&text("a")));
    assert!(map.get(&text("a")).is_none());
}

#[test]
fn an_inserted_value_is_found() {
    let mut map = StringMap::new();
    map.insert(text("a"), 1);
    map.insert(text("b"), 2);
    assert_eq!(map.get(&text("a")), Some(&1));
    assert_eq!(map.get(&text("b")), Some(&2));
    assert_eq!(map.get(&text("c")), None);
    assert_eq!(map.len(), 2);
}

#[test]
fn a_second_value_replaces_the_first_in_its_place() {
    let mut map = StringMap::new();
    map.insert(text("a"), 1);
    map.insert(text("b"), 2);
    map.insert(text("a"), 3);
    assert_eq!(map.len(), 2);
    assert_eq!(map.get(&text("a")), Some(&3));
    assert_eq!(keys(&map), vec![text("a"), text("b")]);
}

#[test]
fn a_removed_key_is_gone() {
    let mut map = StringMap::new();
    map.insert(text("a"), 1);
    map.insert(text("b"), 2);
    map.insert(text("c"), 3);
    map.remove(&text("b"));
    map.remove(&text("x"));
    assert_eq!(keys(&map), vec![text("a"), text("c")]);
    assert!(!map.contains_key(&text("b")));
}

#[test]
fn extending_prefers_the_new_values() {
    let mut map = StringMap::new();
    map.insert(text("a"), 1);
    map.insert(text("b"), 2);
    let mut other = StringMap::new();
    other.insert(text("c"), 30);
    other.insert(text("a"), 10);
    map.extend(other);
    assert_eq!(keys(&map), vec![text("a"), text("b"), text("c")]);
    assert_eq!(map.get(&text("a")), Some(&10));
    assert_eq!(map.get(&text("b")), Some(&2));
    assert_eq!(map.get(&text("c")), Some(&30));
}

#[test]
fn the_entries_come_out_in_order() {
    let mut map = StringMap::new();
    map.insert(text("b"), 2);
    map.insert(text("a"), 1);
    assert_eq!(map.into_entries(), vec![(text("b"), 2), (text("a"), 1)]);
}

#[test]
fn a_clone_holds_the_same() {
    let mut map = StringMap::new();
    map.insert(text("b"), 2);
    map.insert(text("a"), 1);
    let copy = map.clone();
    map.remove(&text("a"));
    assert_eq!(keys(&copy), vec![text("b"), text("a")]);
    assert_eq!(copy.get(&text("a")), Some(&1));
}
