use rust_for_it::syntax::parse_service_syntax;

#[test]
fn test_parse_service_syntax_for_valid() {
    assert_eq!(
        parse_service_syntax("[::1]:123"),
        Ok(String::from("[::1]:123"))
    );
    assert_eq!(
        parse_service_syntax("127.0.0.1:631"),
        Ok(String::from("127.0.0.1:631"))
    );
    assert_eq!(parse_service_syntax("h:1"), Ok(String::from("h:1")));
}

#[test]
fn test_parse_service_syntax_for_invalid() {
    let expected_error = Err(String::from(
        "does not match regular expression \"^(\\[[0-9a-fA-F.:]+\\]|[^:]+):([1-9][0-9]{0,4})$\".",
    ));
    assert_eq!(parse_service_syntax("h:123456"), expected_error);
    assert_eq!(parse_service_syntax("no colon"), expected_error);
    assert_eq!(parse_service_syntax(":123"), expected_error);
}

#[test]
fn test_parse_service_syntax_edges() {
    // Largest allowed port, bracketed hosts, and rejected shapes around them.
    assert_eq!(
        parse_service_syntax("h:99999"),
        Ok(String::from("h:99999"))
    );
    assert!(parse_service_syntax("h:0").is_err());
    assert!(parse_service_syntax("h:01").is_err());
    assert!(parse_service_syntax("h:").is_err());
    assert!(parse_service_syntax("").is_err());
    // A bracket-shaped token with nothing (or a non-hex character) inside is
    // no bracketed host, but still passes as a plain colon-free token.
    assert_eq!(parse_service_syntax("[]:1"), Ok(String::from("[]:1")));
    assert_eq!(parse_service_syntax("[g]:1"), Ok(String::from("[g]:1")));
    assert!(parse_service_syntax("[g:h]:1").is_err());
    assert_eq!(
        parse_service_syntax("[fe80::1]:8080"),
        Ok(String::from("[fe80::1]:8080"))
    );
    // The splitting colon is the last one: "a:b:1" has a colon in its host.
    assert!(parse_service_syntax("a:b").is_err());
    assert!(parse_service_syntax("a:b:1").is_err());
}
