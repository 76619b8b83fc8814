use freddie::origin::origin_allowed;

#[test]
fn web_origins_are_refused_and_others_are_not() {
    for allowed in [None, Some("chrome-extension://abcdef"), Some("file://")] {
        assert!(origin_allowed(allowed), "{allowed:?} should connect");
    }
    for refused in [
        "https://evil.com",
        "http://evil.com",
        "http://localhost:3000",
        "http://127.0.0.1:8797",
    ] {
        assert!(
            !origin_allowed(Some(refused)),
            "{refused} should not connect"
        );
    }
}

#[test]
fn a_bare_scheme_name_is_not_a_web_page() {
    assert!(origin_allowed(Some("http")));
    assert!(origin_allowed(Some("")));
    assert!(!origin_allowed(Some("http://")));
}
