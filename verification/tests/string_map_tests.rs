use hutopia::string_map::StringMap;

#[test]
fn insert_get_remove() {
    let mut m: StringMap<u32> = StringMap::new();
    assert_eq!(m.len(), 0);
    m.insert("a".to_string(), 1);
    m.insert("b".to_string(), 2);
    m.insert("a".to_string(), 3);
    assert_eq!(m.len(), 2);
    assert_eq!(m.get(&"a".to_string()), Some(&3));
    assert_eq!(m.get(&"c".to_string()), None);
    assert!(m.contains_key(&"b".to_string()));
    assert_eq!(m.remove(&"a".to_string()), Some(3));
    assert_eq!(m.remove(&"a".to_string()), None);
    assert_eq!(m.len(), 1);
}

#[test]
fn extend_prefers_the_new_values() {
    let mut m: StringMap<u32> = StringMap::new();
    m.insert("x".to_string(), 1);
    m.insert("y".to_string(), 2);
    let mut n: StringMap<u32> = StringMap::new();
    n.insert("y".to_string(), 20);
    n.insert("z".to_string(), 30);
    m.extend(n);
    assert_eq!(m.len(), 3);
    assert_eq!(m.get(&"x".to_string()), Some(&1));
    assert_eq!(m.get(&"y".to_string()), Some(&20));
    assert_eq!(m.get(&"z".to_string()), Some(&30));
    let mut keys = m.keys();
    keys.sort();
    assert_eq!(keys, vec!["x".to_string(), "y".to_string(), "z".to_string()]);
}
