use open_auth2::util::{UriBuf, concat_query, extend_uri_query, serialize_concat_query};

#[test]
fn concat_query_joins_with_ampersand() {
    assert_eq!(concat_query("a=1".to_owned(), "b=2"), "a=1&b=2");
    assert_eq!(concat_query("".to_owned(), "b=2"), "b=2");
    assert_eq!(concat_query("a=1".to_owned(), ""), "a=1");
    assert_eq!(concat_query("".to_owned(), ""), "");
}

// Form encoding percent-encodes keys and values: a space becomes `+`,
// reserved characters become `%XX` escapes.
#[test]
fn serialize_concat_query_encodes_parameters() {
    let params = vec![
        ("a".to_owned(), "b c".to_owned()),
        ("redirect".to_owned(), "https://x/?q=1".to_owned()),
    ];
    let query = serialize_concat_query("lang=en".to_owned(), &params);
    assert_eq!(query, "lang=en&a=b+c&redirect=https%3A%2F%2Fx%2F%3Fq%3D1");
}

#[test]
fn serialize_concat_query_of_no_parameters_is_the_query() {
    let params: Vec<(String, String)> = vec![];
    assert_eq!(serialize_concat_query("lang=en".to_owned(), &params), "lang=en");
}

#[test]
fn extend_uri_query_preserves_existing_parameters() {
    let mut uri = UriBuf::new("https://h.example/p?lang=en").unwrap();
    let params = vec![("state".to_owned(), "xyz".to_owned())];
    extend_uri_query(&mut uri, &params);
    assert_eq!(uri.to_text(), "https://h.example/p?lang=en&state=xyz");
}

#[test]
fn extend_uri_query_without_existing_query() {
    let mut uri = UriBuf::new("https://h.example/p").unwrap();
    let params = vec![("a".to_owned(), "1".to_owned()), ("b".to_owned(), "2".to_owned())];
    extend_uri_query(&mut uri, &params);
    assert_eq!(uri.to_text(), "https://h.example/p?a=1&b=2");
}
