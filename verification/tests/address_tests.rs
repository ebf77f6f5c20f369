use pinreq::address::{with_params, with_segment, MAX_PARAMS, MAX_PART_BYTES};

fn pair(k: &str, v: &str) -> (String, String) {
    (k.to_owned(), v.to_owned())
}

#[test]
fn params_are_added_in_order() {
    assert_eq!(
        with_params("https://example.net/a", &vec![pair("lang", "rust"), pair("browser", "servo")]),
        Some("https://example.net/a?lang=rust&browser=servo".to_owned())
    );
}

#[test]
fn params_keep_what_the_query_had() {
    assert_eq!(
        with_params("https://example.net?dont=clobberme", &vec![pair("lang", "rust")]),
        Some("https://example.net/?dont=clobberme&lang=rust".to_owned())
    );
}

#[test]
fn params_are_encoded() {
    assert_eq!(
        with_params("https://example.net/", &vec![pair("a b", "c&d=e/\u{e9}")]),
        Some("https://example.net/?a+b=c%26d%3De%2F%C3%A9".to_owned())
    );
}

#[test]
fn base_must_be_an_absolute_url() {
    assert_eq!(with_params("example.net/a", &vec![pair("k", "v")]), None);
    assert_eq!(with_params("", &vec![]), None);
    assert_eq!(with_params("https://exa mple.net/", &vec![]), None);
    assert_eq!(with_segment("/just/a/path", "x"), None);
}

#[test]
fn too_many_params_give_no_address() {
    let at_limit: Vec<(String, String)> = (0..MAX_PARAMS).map(|i| pair("k", &i.to_string())).collect();
    assert!(with_params("https://example.net/", &at_limit).is_some());
    let beyond: Vec<(String, String)> = (0..MAX_PARAMS + 1).map(|i| pair("k", &i.to_string())).collect();
    assert_eq!(with_params("https://example.net/", &beyond), None);
}

#[test]
fn too_long_parts_give_no_address() {
    let long = "a".repeat(MAX_PART_BYTES + 1);
    assert_eq!(with_params("https://example.net/", &vec![pair("k", &long)]), None);
    assert_eq!(with_params("https://example.net/", &vec![pair(&long, "v")]), None);
    assert_eq!(with_params(&format!("https://example.net/{}", long), &vec![]), None);
    assert_eq!(with_segment("https://example.net/", &long), None);
    assert_eq!(with_segment(&format!("https://example.net/{}", long), "x"), None);
}

#[test]
fn part_at_the_limit_is_taken() {
    let fits = "a".repeat(MAX_PART_BYTES);
    let url = with_params("https://example.net/", &vec![pair("k", &fits)]).unwrap();
    assert_eq!(url.len(), "https://example.net/?k=".len() + MAX_PART_BYTES);
}

#[test]
fn length_is_counted_in_bytes() {
    let two_bytes_each = "\u{e9}".repeat(MAX_PART_BYTES / 2 + 1);
    assert_eq!(with_segment("https://example.net/", &two_bytes_each), None);
}

#[test]
fn segment_is_added_to_the_path() {
    assert_eq!(
        with_segment("https://example.net/a/b", "c"),
        Some("https://example.net/a/b/c".to_owned())
    );
    assert_eq!(with_segment("https://example.net", "c"), Some("https://example.net/c".to_owned()));
}

#[test]
fn segment_is_encoded_as_one_segment() {
    assert_eq!(
        with_segment("https://example.net/room", "#a/b?c%d e"),
        Some("https://example.net/room/%23a%2Fb%3Fc%25d%20e".to_owned())
    );
}

#[test]
fn segment_goes_before_query() {
    assert_eq!(
        with_segment("https://example.net/a?k=v", "b"),
        Some("https://example.net/a/b?k=v".to_owned())
    );
}

#[test]
fn url_without_a_path_to_add_to_gives_no_address() {
    assert_eq!(with_segment("mailto:someone@example.net", "x"), None);
}
