use origin_guard::cors::{
    authorized, compile_allowed_origin, parse_allowed_origins, validate_allow_origin_entry,
    AllowedOrigin, InvalidOriginError, Scheme,
};

fn exact(scheme: Scheme, host: &str, port: u16) -> AllowedOrigin {
    AllowedOrigin::Exact { scheme, host: host.to_string(), port }
}

fn compiled(raw: &str) -> AllowedOrigin {
    compile_allowed_origin(raw).unwrap()
}

#[test]
fn compile_exact_default_port() {
    let p = compiled("https://example.com");
    assert_eq!(p, exact(Scheme::Https, "example.com", 443));
}

#[test]
fn compile_exact_explicit_port() {
    let p = compiled("http://example.com:8080");
    assert_eq!(p, exact(Scheme::Http, "example.com", 8080));
}

#[test]
fn compile_exact_http_default_port() {
    let p = compiled("http://example.com");
    assert_eq!(p, exact(Scheme::Http, "example.com", 80));
}

#[test]
fn compile_is_deterministic_and_idempotent() {
    assert_eq!(compiled("https://example.com"), compiled("https://example.com"));
    assert_eq!(compiled("https://*.example.com"), compiled("https://*.example.com"));
    assert_eq!(compiled("http://localhost"), compiled("http://localhost"));
}

#[test]
fn compile_trims_one_trailing_slash() {
    assert_eq!(compiled("https://example.com/"), exact(Scheme::Https, "example.com", 443));
}

#[test]
fn compile_lowercases_host() {
    assert_eq!(compiled("https://EXAMPLE.com"), exact(Scheme::Https, "example.com", 443));
}

#[test]
fn compile_localhost_shortcut() {
    let p = compiled("https://localhost");
    assert_eq!(p, AllowedOrigin::Localhost { scheme: Scheme::Https });
    let p = compiled("http://localhost");
    assert_eq!(p, AllowedOrigin::Localhost { scheme: Scheme::Http });
}

#[test]
fn compile_localhost_shortcut_is_case_insensitive() {
    let p = compiled("HTTPS://LOCALHOST");
    assert_eq!(p, AllowedOrigin::Localhost { scheme: Scheme::Https });
}

#[test]
fn compile_wildcard() {
    let p = compiled("https://*.example.com");
    match &p {
        AllowedOrigin::Wildcard { scheme, matcher, base_host } => {
            assert_eq!(*scheme, Scheme::Https);
            assert_eq!(base_host.as_str(), "example.com");
            assert_eq!(matcher.suffix.as_str(), ".example.com");
        }
        other => panic!("expected a wildcard pattern, got {:?}", other),
    }
}

#[test]
fn compile_rejections() {
    assert_eq!(
        compile_allowed_origin("https://example.com/path"),
        Err(InvalidOriginError::NonRootPath)
    );
    assert_eq!(
        compile_allowed_origin("ftp://example.com"),
        Err(InvalidOriginError::UnsupportedScheme)
    );
    assert_eq!(
        compile_allowed_origin("https://*.com"),
        Err(InvalidOriginError::InvalidWildcardBase)
    );
    assert_eq!(
        compile_allowed_origin("https://*.example.com:443"),
        Err(InvalidOriginError::MalformedWildcard)
    );
    assert_eq!(
        compile_allowed_origin("https://*.*.example.com"),
        Err(InvalidOriginError::InvalidWildcardBase)
    );
}

#[test]
fn compile_more_rejections() {
    assert_eq!(compile_allowed_origin("not a url"), Err(InvalidOriginError::UnparsableUrl));
    assert_eq!(compile_allowed_origin("https://"), Err(InvalidOriginError::UnparsableUrl));
    assert_eq!(
        compile_allowed_origin("https://example.com?x=1"),
        Err(InvalidOriginError::HasQueryOrFragment)
    );
    assert_eq!(
        compile_allowed_origin("https://example.com#frag"),
        Err(InvalidOriginError::HasQueryOrFragment)
    );
    assert_eq!(
        compile_allowed_origin("*.example.com"),
        Err(InvalidOriginError::MalformedWildcard)
    );
    assert_eq!(
        compile_allowed_origin("ftp://*.example.com"),
        Err(InvalidOriginError::UnsupportedScheme)
    );
    assert_eq!(
        compile_allowed_origin("https://foo*.example.com"),
        Err(InvalidOriginError::MalformedWildcard)
    );
    assert_eq!(
        compile_allowed_origin("https://*.example.com/path"),
        Err(InvalidOriginError::MalformedWildcard)
    );
    assert_eq!(compile_allowed_origin("https://*."), Err(InvalidOriginError::InvalidWildcardBase));
}

#[test]
fn localhost_with_a_port_is_an_exact_pattern() {
    assert_eq!(compiled("https://localhost:8080"), exact(Scheme::Https, "localhost", 8080));
}

#[test]
fn compile_exact_port_edge() {
    assert_eq!(compiled("https://example.com:65535"), exact(Scheme::Https, "example.com", 65535));
}

#[test]
fn error_messages() {
    assert_eq!(InvalidOriginError::UnparsableUrl.describe(), "must be a valid URL");
    assert_eq!(
        InvalidOriginError::UnsupportedScheme.describe(),
        "only http/https schemes are supported"
    );
    assert_eq!(InvalidOriginError::MissingHost.describe(), "must contain a host");
    assert_eq!(
        InvalidOriginError::NonRootPath.describe(),
        "must not contain path, query, or fragment"
    );
    assert_eq!(
        InvalidOriginError::MalformedWildcard.describe(),
        "wildcard origins must use the *.example.com format"
    );
    assert_eq!(
        InvalidOriginError::InvalidWildcardBase.describe(),
        "wildcard base must be a valid domain like example.com"
    );
}

#[test]
fn localhost_ignores_port() {
    let patterns = vec![compiled("https://localhost")];
    assert!(authorized("https://localhost:9999", &patterns));
    assert!(authorized("https://localhost", &patterns));
    assert!(authorized("https://localhost:80", &patterns));
    assert!(!authorized("http://localhost:9999", &patterns));
}

#[test]
fn wildcard_matches_strict_subdomains_only() {
    let patterns = vec![compiled("https://*.example.com")];
    assert!(authorized("https://api.example.com", &patterns));
    assert!(authorized("https://a.b.example.com", &patterns));
    assert!(!authorized("https://example.com", &patterns));
    assert!(!authorized("http://api.example.com", &patterns));
    assert!(!authorized("https://notexample.com", &patterns));
    assert!(!authorized("https://api.example.org", &patterns));
}

#[test]
fn exact_requires_scheme_host_and_port() {
    let patterns = vec![compiled("https://example.com")];
    assert!(authorized("https://example.com", &patterns));
    assert!(authorized("https://example.com:443", &patterns));
    assert!(!authorized("https://example.com:8443", &patterns));
    assert!(!authorized("http://example.com", &patterns));
    assert!(!authorized("https://www.example.com", &patterns));
}

#[test]
fn unparsable_origin_is_never_authorized() {
    let patterns = vec![
        compiled("https://example.com"),
        compiled("https://localhost"),
        compiled("https://*.example.com"),
    ];
    assert!(!authorized("not a url", &patterns));
    assert!(!authorized("", &patterns));
}

#[test]
fn trailing_slash_does_not_change_the_decision() {
    let patterns = vec![compiled("https://example.com")];
    assert_eq!(
        authorized("https://example.com/", &patterns),
        authorized("https://example.com", &patterns)
    );
    assert!(authorized("https://example.com/", &patterns));
    let other = vec![compiled("https://other.example")];
    assert_eq!(
        authorized("https://example.com/", &other),
        authorized("https://example.com", &other)
    );
}

#[test]
fn host_case_is_ignored() {
    let patterns = vec![compiled("https://example.com")];
    assert!(authorized("https://EXAMPLE.com", &patterns));
    let wild = vec![compiled("https://*.example.com")];
    assert!(authorized("HTTPS://API.EXAMPLE.COM", &wild));
}

#[test]
fn matching_is_order_independent() {
    let a = compiled("https://example.com");
    let b = compiled("https://*.example.com");
    let c = compiled("http://localhost");
    let one = vec![a.clone(), b.clone(), c.clone()];
    let two = vec![c, b, a];
    for origin in [
        "https://example.com",
        "https://api.example.com",
        "http://localhost:3000",
        "https://other.org",
        "not a url",
    ] {
        assert_eq!(authorized(origin, &one), authorized(origin, &two));
    }
}

#[test]
fn empty_pattern_set_authorizes_nothing() {
    let patterns: Vec<AllowedOrigin> = Vec::new();
    assert!(!authorized("https://example.com", &patterns));
}

#[test]
fn validate_entry_agrees_with_compilation() {
    assert!(validate_allow_origin_entry("https://example.com").is_ok());
    assert!(validate_allow_origin_entry("https://localhost/").is_ok());
    assert_eq!(
        validate_allow_origin_entry("ftp://example.com"),
        Err(InvalidOriginError::UnsupportedScheme)
    );
}

#[test]
fn parse_allowed_origins_compiles_every_entry() {
    let origins = vec![
        "https://example.com".to_string(),
        "http://localhost".to_string(),
        "https://*.example.com".to_string(),
    ];
    let patterns = parse_allowed_origins(&origins).unwrap();
    assert_eq!(patterns.len(), 3);
    assert_eq!(patterns[0], exact(Scheme::Https, "example.com", 443));
}

#[test]
fn parse_allowed_origins_reports_the_first_failure() {
    let origins = vec![
        "https://example.com".to_string(),
        "ftp://example.com".to_string(),
        "https://*.com".to_string(),
    ];
    assert_eq!(parse_allowed_origins(&origins), Err(InvalidOriginError::UnsupportedScheme));
}
