use request_runner::{Header, Headers};

fn field(name: &str, value: &str) -> Header {
    Header { name: name.to_string(), value: value.to_string() }
}

fn headers_of(pairs: &[(&str, &str)]) -> Headers {
    let mut headers = Headers::new();
    for (name, value) in pairs {
        headers.insert(name.to_string(), value.to_string());
    }
    headers
}

#[test]
fn new_headers_are_empty() {
    let headers = Headers::new();
    assert!(headers.is_empty());
    assert_eq!(headers.len(), 0);
    assert!(!headers.contains_key("Accept"));
    assert_eq!(headers.get("Accept"), None);
    assert!(headers.entries().is_empty());
}

#[test]
fn insert_adds_a_field() {
    let mut headers = Headers::new();
    headers.insert("Accept".to_string(), "text/plain".to_string());
    assert!(!headers.is_empty());
    assert_eq!(headers.len(), 1);
    assert!(headers.contains_key("Accept"));
    assert_eq!(headers.get("Accept"), Some(&"text/plain".to_string()));
    assert_eq!(headers.get("accept"), None);
}

#[test]
fn insert_replaces_the_value_of_a_name_that_is_present() {
    let mut headers = headers_of(&[("a", "1"), ("b", "2")]);
    headers.insert("a".to_string(), "3".to_string());
    assert_eq!(headers.len(), 2);
    assert_eq!(headers.get("a"), Some(&"3".to_string()));
    assert_eq!(headers.get("b"), Some(&"2".to_string()));
    let names: Vec<&str> = headers.entries().iter().map(|f| f.name.as_str()).collect();
    assert_eq!(names, vec!["a", "b"]);
}

#[test]
fn names_are_told_apart_by_case() {
    let headers = headers_of(&[("Accept", "1"), ("accept", "2")]);
    assert_eq!(headers.len(), 2);
    assert_eq!(headers.get("Accept"), Some(&"1".to_string()));
    assert_eq!(headers.get("accept"), Some(&"2".to_string()));
}

#[test]
fn the_empty_name_and_the_empty_value_are_kept() {
    let headers = headers_of(&[("", ""), ("x", "")]);
    assert_eq!(headers.len(), 2);
    assert_eq!(headers.get(""), Some(&String::new()));
    assert_eq!(headers.get("x"), Some(&String::new()));
}

#[test]
fn from_entries_lets_the_last_field_of_a_name_decide() {
    let fields = vec![field("a", "1"), field("b", "2"), field("a", "3")];
    let headers = Headers::from_entries(&fields);
    assert_eq!(headers.len(), 2);
    assert_eq!(headers.get("a"), Some(&"3".to_string()));
    assert_eq!(headers.get("b"), Some(&"2".to_string()));
}

#[test]
fn equality_does_not_depend_on_the_order_of_the_fields() {
    let one = headers_of(&[("a", "1"), ("b", "2")]);
    let other = headers_of(&[("b", "2"), ("a", "1")]);
    assert!(one.same_fields(&other));
    assert_eq!(one, other);
}

#[test]
fn equality_sees_a_different_value_a_missing_and_an_extra_field() {
    let base = headers_of(&[("a", "1"), ("b", "2")]);
    assert_ne!(base, headers_of(&[("a", "1"), ("b", "3")]));
    assert_ne!(base, headers_of(&[("a", "1")]));
    assert_ne!(base, headers_of(&[("a", "1"), ("b", "2"), ("c", "3")]));
    assert_ne!(base, headers_of(&[("a", "1"), ("c", "2")]));
    assert_ne!(base, Headers::new());
    assert_eq!(Headers::new(), Headers::new());
}

#[test]
fn a_copy_has_the_same_fields() {
    let headers = headers_of(&[("a", "1"), ("b", "2")]);
    let copy = headers.clone();
    assert_eq!(copy, headers);
    assert_eq!(copy.len(), 2);
}

#[test]
fn into_entries_gives_each_name_once() {
    let mut headers = headers_of(&[("a", "1"), ("b", "2")]);
    headers.insert("a".to_string(), "9".to_string());
    let fields = headers.into_entries();
    assert_eq!(fields.len(), 2);
    assert_eq!(fields[0].name, "a");
    assert_eq!(fields[0].value, "9");
    assert_eq!(fields[1].name, "b");
    assert_eq!(fields[1].value, "2");
}
