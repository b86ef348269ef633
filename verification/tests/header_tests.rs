use wreq_core::header::{HeaderError, Headers};

#[test]
fn set_and_get_are_case_insensitive() {
    let mut h = Headers::new();
    assert!(h.set("Content-Type", "text/html").is_ok());
    assert_eq!(h.get("content-type"), Some(String::from("text/html")));
    assert_eq!(h.get("CONTENT-TYPE"), Some(String::from("text/html")));
    assert!(h.contains("Content-type"));
    assert!(!h.contains("content-length"));
    assert_eq!(h.get("content-length"), None);
}

#[test]
fn append_keeps_all_values_in_order_and_set_replaces_them() {
    let mut h = Headers::new();
    assert!(h.append("Set-Cookie", "a=1").is_ok());
    assert!(h.append("set-cookie", "b=2").is_ok());
    assert_eq!(h.len(), 2);
    assert_eq!(
        h.get_all("SET-COOKIE"),
        vec![String::from("a=1"), String::from("b=2")]
    );
    // The first value is the one `get` answers.
    assert_eq!(h.get("set-cookie"), Some(String::from("a=1")));
    assert!(h.set("set-cookie", "c=3").is_ok());
    assert_eq!(h.get_all("set-cookie"), vec![String::from("c=3")]);
    assert_eq!(h.len(), 1);
}

#[test]
fn invalid_names_and_values_are_rejected_unchanged() {
    let mut h = Headers::new();
    assert_eq!(h.set("bad name", "v"), Err(HeaderError::InvalidName));
    assert_eq!(h.set("", "v"), Err(HeaderError::InvalidName));
    assert_eq!(h.set("x-ok", "line\nbreak"), Err(HeaderError::InvalidValue));
    assert_eq!(h.append("x-ok", "\u{7f}"), Err(HeaderError::InvalidValue));
    assert!(h.is_empty());
    assert_eq!(h.len(), 0);
}

#[test]
fn values_may_hold_tab_and_non_ascii() {
    let mut h = Headers::new();
    assert!(h.set("x-note", "a\tb caf\u{e9}").is_ok());
    assert_eq!(h.get("x-note"), Some(String::from("a\tb caf\u{e9}")));
}

#[test]
fn remove_takes_every_value_and_returns_the_first() {
    let mut h = Headers::new();
    assert!(h.append("accept", "text/plain").is_ok());
    assert!(h.append("Accept", "text/html").is_ok());
    assert!(h.set("host", "example.test").is_ok());
    assert_eq!(h.remove("ACCEPT"), Some(String::from("text/plain")));
    assert!(!h.contains("accept"));
    assert_eq!(h.len(), 1);
    assert_eq!(h.remove("accept"), None);
    assert_eq!(h.get("host"), Some(String::from("example.test")));
}

#[test]
fn keys_are_distinct_in_first_insertion_order() {
    let mut h = Headers::new();
    assert!(h.append("B-Two", "2").is_ok());
    assert!(h.append("a-one", "1").is_ok());
    assert!(h.append("b-two", "3").is_ok());
    assert_eq!(h.keys(), vec![String::from("b-two"), String::from("a-one")]);
    assert_eq!(
        h.values(),
        vec![String::from("2"), String::from("1"), String::from("3")]
    );
}

#[test]
fn clear_empties_everything() {
    let mut h = Headers::new();
    assert!(h.set("a", "1").is_ok());
    assert!(!h.is_empty());
    h.clear();
    assert!(h.is_empty());
    assert_eq!(h.len(), 0);
    assert_eq!(h.keys(), Vec::<String>::new());
}

#[test]
fn to_s_renders_one_line_per_entry() {
    let mut h = Headers::new();
    assert!(h.set("Host", "example.test").is_ok());
    assert!(h.append("Accept", "text/plain").is_ok());
    assert_eq!(h.to_s(), "host: example.test\naccept: text/plain\n");
    let empty = Headers::new();
    assert_eq!(empty.to_s(), "");
}
