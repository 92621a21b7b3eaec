use nodemcu_collector::fields::FieldMap;

#[test]
fn new_map_is_empty() {
    let h = FieldMap::new();
    assert!(h.is_empty());
    assert!(h.get("a").is_none());
    assert!(!h.contains_key("a"));
    assert_eq!(h.entries().len(), 0);
}

#[test]
fn insert_binds_and_rebinds() {
    let mut h = FieldMap::new();
    h.insert(String::from("a"), String::from("1"));
    h.insert(String::from("b"), String::from("2"));
    assert!(!h.is_empty());
    assert_eq!(h.get("a"), Some(&String::from("1")));
    assert_eq!(h.get("b"), Some(&String::from("2")));
    assert!(h.contains_key("b"));
    h.insert(String::from("a"), String::from("3"));
    assert_eq!(h.get("a"), Some(&String::from("3")));
    assert_eq!(h.get("b"), Some(&String::from("2")));
    assert_eq!(h.entries().len(), 2);
    assert!(h.get("A").is_none());
}

#[test]
fn entries_hold_each_name_once() {
    let mut h = FieldMap::new();
    for round in 0..3 {
        for name in ["x", "y", "z"] {
            h.insert(String::from(name), format!("{}{}", name, round));
        }
    }
    let es = h.entries();
    assert_eq!(es.len(), 3);
    for i in 0..es.len() {
        for j in (i + 1)..es.len() {
            assert_ne!(es[i].name, es[j].name);
        }
    }
    assert_eq!(h.get("y"), Some(&String::from("y2")));
}
