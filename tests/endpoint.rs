use rb_http::endpoint::{has_scheme_and_host, ConfigError, Endpoint};

#[test]
fn scheme_and_host_shape() {
    assert!(has_scheme_and_host("http://localhost:8080"));
    assert!(has_scheme_and_host("https://example.com/path?q=1"));
    assert!(!has_scheme_and_host("not a url"));
    assert!(!has_scheme_and_host("localhost:8080"));
    assert!(!has_scheme_and_host("://host"));
    assert!(!has_scheme_and_host("http:/host"));
    assert!(!has_scheme_and_host("http:///path"));
    assert!(!has_scheme_and_host("http://"));
    assert!(!has_scheme_and_host(""));
}

#[test]
fn endpoint_keeps_text() {
    let e = Endpoint::parse("http://localhost:8080/x").unwrap();
    assert_eq!(e.as_str(), "http://localhost:8080/x");
    assert_eq!(e.duplicate().as_str(), "http://localhost:8080/x");
    assert_eq!(e.uri().host(), Some("localhost"));
}

#[test]
fn endpoint_errors() {
    assert!(matches!(Endpoint::parse("not a url"), Err(ConfigError::NotAbsolute)));
    assert!(matches!(Endpoint::parse("http://[::1/x"), Err(ConfigError::Malformed)));
}
