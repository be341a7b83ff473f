use flow_heater::headers::{text_pairs, Headers};
use flow_heater::outbound::same_header_name;

fn hs(values: &[&str]) -> Vec<String> {
    values.iter().map(|v| v.to_string()).collect()
}

#[test]
fn new_headers_are_empty() {
    let h = Headers::new();
    assert!(h.get("accept").is_none());
    assert!(!h.contains_key("accept"));
    assert_eq!(h.entries.len(), 0);
}

#[test]
fn insert_replaces_the_values_of_a_name() {
    let mut h = Headers::new();
    h.insert("a".to_string(), hs(&["1", "2"]));
    h.insert("b".to_string(), hs(&["3"]));
    h.insert("a".to_string(), hs(&["4"]));
    assert_eq!(h.get("a"), Some(&hs(&["4"])));
    assert_eq!(h.get("b"), Some(&hs(&["3"])));
    assert_eq!(h.entries.len(), 2);
    assert_eq!(h.position("b"), Some(1));
    assert_eq!(h.position("c"), None);
}

#[test]
fn append_adds_behind_the_values_of_a_name() {
    let mut h = Headers::new();
    h.append("set-cookie".to_string(), "a=1".to_string());
    h.append("host".to_string(), "example.org".to_string());
    h.append("set-cookie".to_string(), "b=2".to_string());
    assert_eq!(h.get("set-cookie"), Some(&hs(&["a=1", "b=2"])));
    assert_eq!(h.get("host"), Some(&hs(&["example.org"])));
    assert!(h.get("Host").is_none());
}

#[test]
fn pairs_are_grouped_by_name_in_order() {
    let h = Headers::from_pairs(vec![
        ("x".to_string(), "1".to_string()),
        ("y".to_string(), "2".to_string()),
        ("x".to_string(), "3".to_string()),
        ("x".to_string(), "1".to_string()),
    ]);
    assert_eq!(h.get("x"), Some(&hs(&["1", "3", "1"])));
    assert_eq!(h.get("y"), Some(&hs(&["2"])));
    assert_eq!(h.entries.len(), 2);
    assert_eq!(Headers::from_pairs(Vec::new()).entries.len(), 0);
}

#[test]
fn the_first_entry_of_a_name_counts() {
    let mut h = Headers::new();
    h.insert("a".to_string(), hs(&["first"]));
    let mut second = Headers::new();
    second.insert("a".to_string(), hs(&["second"]));
    h.entries.extend(second.entries);
    assert_eq!(h.get("a"), Some(&hs(&["first"])));
    h.insert("a".to_string(), hs(&["third"]));
    assert_eq!(h.get("a"), Some(&hs(&["third"])));
}

#[test]
fn a_copy_of_headers_holds_the_same() {
    let mut h = Headers::new();
    h.append("a".to_string(), "1".to_string());
    h.append("a".to_string(), "2".to_string());
    let copy = h.duplicate();
    h.insert("a".to_string(), Vec::new());
    assert_eq!(copy.get("a"), Some(&hs(&["1", "2"])));
}

#[test]
fn header_names_are_compared_without_case() {
    assert!(same_header_name("Accept", "accept"));
    assert!(same_header_name("ACCEPT", "aCcEpT"));
    assert!(same_header_name("", ""));
    assert!(!same_header_name("accept", "accept-encoding"));
    assert!(!same_header_name("accept", "accepu"));
    assert!(!same_header_name("[", "{"));
    assert!(!same_header_name("@", "`"));
    assert!(same_header_name("é", "é"));
}

#[test]
fn outbound_headers_gain_accept_unless_named() {
    let mut h = Headers::new();
    h.append("x-test".to_string(), "1".to_string());
    assert!(!h.has_header("accept"));
    let sent = h.outbound();
    assert_eq!(sent.get("accept"), Some(&hs(&["application/json"])));
    assert_eq!(sent.get("x-test"), Some(&hs(&["1"])));

    let mut named = Headers::new();
    named.append("Accept".to_string(), "text/plain".to_string());
    assert!(named.has_header("accept"));
    let sent = named.outbound();
    assert_eq!(sent.get("Accept"), Some(&hs(&["text/plain"])));
    assert!(sent.get("accept").is_none());
    assert_eq!(sent.entries.len(), 1);
}

#[test]
fn header_values_that_are_no_text_count_as_empty() {
    let raw = vec![
        ("a".to_string(), Some("1".to_string())),
        ("a".to_string(), None),
        ("b".to_string(), None),
    ];
    let pairs = text_pairs(&raw);
    assert_eq!(
        pairs,
        vec![
            ("a".to_string(), "1".to_string()),
            ("a".to_string(), String::new()),
            ("b".to_string(), String::new()),
        ]
    );
    let h = Headers::from_pairs(pairs);
    assert_eq!(h.get("a"), Some(&hs(&["1", ""])));
    assert_eq!(h.get("b"), Some(&hs(&[""])));
}
