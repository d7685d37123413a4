use fetchttp::{FetchError, Headers};

#[test]
fn test_headers_basic_operations() {
    let mut headers = Headers::new();

    // Test set/get
    headers.set("content-type", "application/json").unwrap();
    assert_eq!(
        headers.get("content-type").unwrap().unwrap(),
        "application/json"
    );

    // Test case insensitive
    assert_eq!(
        headers.get("Content-Type").unwrap().unwrap(),
        "application/json"
    );

    // Test has
    assert!(headers.has("content-type").unwrap());
    assert!(!headers.has("x-nonexistent").unwrap());

    // Test append
    headers.append("accept", "application/json").unwrap();
    headers.append("accept", "text/plain").unwrap();
    assert_eq!(
        headers.get("accept").unwrap().unwrap(),
        "application/json, text/plain"
    );

    // Test delete
    headers.delete("content-type").unwrap();
    assert!(!headers.has("content-type").unwrap());
}

#[test]
fn test_headers_validation() {
    let mut headers = Headers::new();

    // Invalid header name (empty)
    assert!(headers.set("", "value").is_err());

    // Invalid header name (control character)
    assert!(headers.set("test\x00", "value").is_err());

    // Invalid header value (control character)
    assert!(headers.set("test", "value\r\n").is_err());

    // Valid headers
    assert!(headers.set("x-custom", "value").is_ok());
    assert!(headers.set("content-type", "application/json").is_ok());
}

#[test]
fn test_headers_iteration() {
    let mut headers = Headers::new();
    headers.set("a", "1").unwrap();
    headers.set("b", "2").unwrap();
    headers.set("c", "3").unwrap();

    let entries: Vec<_> = headers.entries();
    assert_eq!(entries.len(), 3);

    let keys: Vec<_> = headers.keys();
    assert_eq!(keys.len(), 3);
    assert!(keys.contains(&"a".to_string()));
    assert!(keys.contains(&"b".to_string()));
    assert!(keys.contains(&"c".to_string()));

    let values: Vec<_> = headers.values();
    assert_eq!(values.len(), 3);
    assert!(values.contains(&"1".to_string()));
    assert!(values.contains(&"2".to_string()));
    assert!(values.contains(&"3".to_string()));
}

#[test]
fn test_headers_from_slice() {
    let headers = Headers::from(
        &[
            ("content-type", "application/json"),
            ("accept", "application/json"),
        ][..],
    );

    assert_eq!(
        headers.get("content-type").unwrap().unwrap(),
        "application/json"
    );
    assert_eq!(headers.get("accept").unwrap().unwrap(), "application/json");
}

#[test]
fn test_headers_from_array() {
    let headers = Headers::from(&[
        ("content-type", "application/json"),
        ("accept", "application/json"),
    ]);

    assert_eq!(
        headers.get("content-type").unwrap().unwrap(),
        "application/json"
    );
    assert_eq!(headers.get("accept").unwrap().unwrap(), "application/json");
}

#[test]
fn test_get_set_cookie() {
    let mut headers = Headers::new();
    headers
        .set("set-cookie", "session=abc123, secure=true")
        .unwrap();

    let cookies = headers.get_set_cookie();
    assert_eq!(cookies.len(), 2);
    assert!(cookies.contains(&"session=abc123".to_string()));
    assert!(cookies.contains(&"secure=true".to_string()));
}

fn type_message(r: Result<(), FetchError>) -> String {
    match r {
        Err(FetchError::Type(e)) => e.message().to_string(),
        Err(other) => panic!("another kind of failure: {}", other.to_string()),
        Ok(()) => panic!("accepted"),
    }
}

#[test]
fn names_ignore_case_in_every_operation() {
    let mut headers = Headers::new();
    headers.set("X-MiXeD", "1").unwrap();
    assert_eq!(headers.get("x-mixed").unwrap().unwrap(), "1");
    assert_eq!(headers.get("X-MIXED").unwrap().unwrap(), "1");
    assert!(headers.has("x-Mixed").unwrap());
    headers.set("x-mixed", "2").unwrap();
    assert_eq!(headers.keys(), vec!["x-mixed".to_string()]);
    assert_eq!(headers.get("X-MiXeD").unwrap().unwrap(), "2");
    headers.append("X-MIXED", "3").unwrap();
    assert_eq!(headers.get("x-mixed").unwrap().unwrap(), "2, 3");
    headers.delete("x-MIXED").unwrap();
    assert!(!headers.has("X-MiXeD").unwrap());
    assert!(headers.keys().is_empty());
}

#[test]
fn stored_value_is_trimmed_at_both_ends_only() {
    let mut headers = Headers::new();
    headers.set("a", " \t hello  world\t \t").unwrap();
    assert_eq!(headers.get("a").unwrap().unwrap(), "hello  world");
    headers.set("b", "").unwrap();
    assert_eq!(headers.get("b").unwrap().unwrap(), "");
    headers.set("c", " \t ").unwrap();
    assert_eq!(headers.get("c").unwrap().unwrap(), "");
    headers.set("d", "x").unwrap();
    assert_eq!(headers.get("d").unwrap().unwrap(), "x");
    headers.set("e", "a\tb").unwrap();
    assert_eq!(headers.get("e").unwrap().unwrap(), "a\tb");
}

#[test]
fn append_on_absent_is_set_and_on_present_joins() {
    let mut headers = Headers::new();
    headers.append("accept", "  text/html ").unwrap();
    assert_eq!(headers.get("accept").unwrap().unwrap(), "text/html");
    headers.append("Accept", " */* ").unwrap();
    assert_eq!(headers.get("accept").unwrap().unwrap(), "text/html, */*");
    headers.append("accept", "").unwrap();
    assert_eq!(headers.get("accept").unwrap().unwrap(), "text/html, */*, ");
    assert_eq!(headers.entries().len(), 1);
}

#[test]
fn refused_name_and_value_leave_the_list_as_it_was() {
    let mut headers = Headers::new();
    headers.set("keep", "1").unwrap();
    assert_eq!(type_message(headers.set("bad name", "v")), "Invalid header name");
    assert_eq!(type_message(headers.set("", "v")), "Invalid header name");
    assert_eq!(type_message(headers.set("na\u{e9}me", "v")), "Invalid header name");
    assert_eq!(type_message(headers.set("keep", "a\nb")), "Invalid header value");
    assert_eq!(type_message(headers.set("keep", "caf\u{e9}")), "Invalid header value");
    assert_eq!(type_message(headers.set("keep", "a\u{7f}")), "Invalid header value");
    assert_eq!(type_message(headers.append("keep", "\r")), "Invalid header value");
    assert_eq!(type_message(headers.append("(", "v")), "Invalid header name");
    // the name is checked before the value
    assert_eq!(type_message(headers.set("", "a\nb")), "Invalid header name");
    assert_eq!(type_message(headers.delete("a b")), "Invalid header name");
    assert_eq!(headers.get("keep").unwrap().unwrap(), "1");
    assert_eq!(headers.entries(), vec![("keep".to_string(), "1".to_string())]);
}

#[test]
fn lookups_refuse_a_name_that_is_no_token() {
    let headers = Headers::new();
    assert!(matches!(headers.get(""), Err(FetchError::Type(_))));
    assert!(matches!(headers.has("a:b"), Err(FetchError::Type(_))));
    assert_eq!(
        headers.get("a b").unwrap_err().message(),
        "Invalid header name"
    );
    assert_eq!(
        headers.has("a\tb").unwrap_err().message(),
        "Invalid header name"
    );
}

#[test]
fn every_token_character_is_accepted_in_a_name() {
    let mut headers = Headers::new();
    headers
        .set("!#$%&'*+-.^_`|~09AZaz", "v")
        .unwrap();
    assert_eq!(headers.keys(), vec!["!#$%&'*+-.^_`|~09azaz".to_string()]);
    for bad in ["\"", "(", ")", ",", "/", ":", ";", "<", "=", ">", "?", "@", "[", "\\", "]", "{", "}", " ", "\u{7f}"] {
        assert!(headers.set(bad, "v").is_err(), "{:?}", bad);
    }
}

#[test]
fn delete_of_an_absent_header_changes_nothing() {
    let mut headers = Headers::new();
    headers.set("a", "1").unwrap();
    headers.delete("b").unwrap();
    assert_eq!(headers.entries(), vec![("a".to_string(), "1".to_string())]);
    headers.delete("A").unwrap();
    assert!(headers.entries().is_empty());
    headers.delete("a").unwrap();
    assert!(headers.entries().is_empty());
}

#[test]
fn delete_in_the_middle_keeps_the_others() {
    let mut headers = Headers::new();
    headers.set("a", "1").unwrap();
    headers.set("b", "2").unwrap();
    headers.set("c", "3").unwrap();
    headers.delete("b").unwrap();
    assert_eq!(headers.get("a").unwrap().unwrap(), "1");
    assert!(headers.get("b").unwrap().is_none());
    assert_eq!(headers.get("c").unwrap().unwrap(), "3");
    assert_eq!(headers.keys().len(), 2);
}

#[test]
fn entries_keys_and_values_go_together() {
    let mut headers = Headers::new();
    headers.set("B", "2").unwrap();
    headers.set("a", "1").unwrap();
    let entries = headers.entries();
    let keys = headers.keys();
    let values = headers.values();
    assert_eq!(entries.len(), 2);
    for i in 0..entries.len() {
        assert_eq!(entries[i].0, keys[i]);
        assert_eq!(entries[i].1, values[i]);
        assert_eq!(headers.get(&keys[i]).unwrap().unwrap(), values[i]);
    }
    assert!(keys.contains(&"b".to_string()));
    assert!(keys.contains(&"a".to_string()));
}

#[test]
fn set_cookie_parts() {
    let mut headers = Headers::new();
    assert!(headers.get_set_cookie().is_empty());
    headers.set("Set-Cookie", "a=1").unwrap();
    assert_eq!(headers.get_set_cookie(), vec!["a=1".to_string()]);
    headers.append("set-cookie", "b=2").unwrap();
    headers.append("set-cookie", "c=3").unwrap();
    assert_eq!(
        headers.get_set_cookie(),
        vec!["a=1".to_string(), "b=2".to_string(), "c=3".to_string()]
    );
    headers.set("set-cookie", "").unwrap();
    assert_eq!(headers.get_set_cookie(), vec!["".to_string()]);
    headers.set("set-cookie", "x,y, ,z,, w,").unwrap();
    assert_eq!(
        headers.get_set_cookie(),
        vec!["x,y".to_string(), ",z,".to_string(), "w,".to_string()]
    );
    headers.set("set-cookie", ", a, ").unwrap();
    assert_eq!(
        headers.get_set_cookie(),
        vec!["".to_string(), "a,".to_string()]
    );
}

#[test]
fn from_pairs_passes_over_what_set_refuses() {
    let headers = Headers::from_pairs(&[("a", "1"), ("bad name", "2"), ("A", " 3 "), ("c", "x\ny")]);
    assert_eq!(headers.entries(), vec![("a".to_string(), "3".to_string())]);
    assert!(Headers::from_pairs(&[]).entries().is_empty());
}

#[test]
fn clone_is_independent() {
    let mut headers = Headers::new();
    headers.set("a", "1").unwrap();
    let mut copy = headers.clone();
    copy.set("a", "2").unwrap();
    copy.set("b", "3").unwrap();
    assert_eq!(headers.entries(), vec![("a".to_string(), "1".to_string())]);
    assert_eq!(copy.get("a").unwrap().unwrap(), "2");
    assert!(Headers::default().entries().is_empty());
}
