use darkroom::config::WebUrl;

#[test]
fn test_get() {
    let url = WebUrl::new("https://example.com").unwrap();
    assert_eq!(url.scheme(), "https");
    assert_eq!(url.host_str(), Some("example.com"));
}

#[test]
fn test_set() {
    let mut url = WebUrl::new("https://example.com").unwrap();
    url.0.set_scheme("http").unwrap();
    assert_eq!(url.scheme(), "http");
}

#[test]
fn new_rejects_what_is_no_absolute_address() {
    assert!(WebUrl::new("example.com/path").is_err());
    assert!(WebUrl::new("").is_err());
    assert_eq!(WebUrl::new("/assets"), Err(url::ParseError::RelativeUrlWithoutBase));
}

#[test]
fn new_keeps_the_text_of_the_address() {
    let url = WebUrl::new("https://example.com/assets?x=1").unwrap();
    assert_eq!(url.as_str(), "https://example.com/assets?x=1");
    assert_eq!(url.path(), "/assets");
}
