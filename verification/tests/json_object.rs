use zapo::json_object::JsonObject;

#[test]
fn new_object_is_empty() {
    let o = JsonObject::new();
    assert!(o.entries().is_empty());
    assert_eq!(o.get(&"a".to_string()), None);
}

#[test]
fn insert_then_get() {
    let mut o = JsonObject::new();
    o.insert("a".to_string(), "1".to_string());
    o.insert("b".to_string(), "2".to_string());
    assert_eq!(o.get(&"a".to_string()), Some("1".to_string()));
    assert_eq!(o.get(&"b".to_string()), Some("2".to_string()));
    assert_eq!(o.get(&"c".to_string()), None);
}

#[test]
fn insert_replaces_value_of_present_key() {
    let mut o = JsonObject::new();
    o.insert("a".to_string(), "1".to_string());
    o.insert("b".to_string(), "2".to_string());
    o.insert("a".to_string(), "3".to_string());
    assert_eq!(o.get(&"a".to_string()), Some("3".to_string()));
    assert_eq!(
        o.entries(),
        vec![("a".to_string(), "3".to_string()), ("b".to_string(), "2".to_string())]
    );
}
