use ddnsd::toolkit::requests::{
    create_request_with_empty_body, empty_body_request_from_parse, get_host_and_authority, request_host_and_authority, HttpRequest,
    ResponseJson, UriParts,
};

fn parts(scheme: Option<&str>, host: Option<&str>, port: Option<u16>) -> UriParts {
    UriParts {
        scheme: scheme.map(|s| s.to_string()),
        authority: host.map(|h| h.to_string()),
        host: host.map(|h| h.to_string()),
        port,
    }
}

#[test]
fn host_and_authority_default_ports() {
    let r = get_host_and_authority(&parts(Some("https"), Some("example.com"), None));
    assert_eq!(r, Some(("example.com".to_string(), "example.com:443".to_string())));
    let r = get_host_and_authority(&parts(Some("http"), Some("example.com"), None));
    assert_eq!(r, Some(("example.com".to_string(), "example.com:80".to_string())));
    let r = get_host_and_authority(&parts(None, Some("example.com"), None));
    assert_eq!(r, Some(("example.com".to_string(), "example.com:443".to_string())));
    let r = get_host_and_authority(&parts(Some("ftp"), Some("example.com"), None));
    assert_eq!(r, Some(("example.com".to_string(), "example.com:80".to_string())));
}

#[test]
fn host_and_authority_explicit_port_and_missing_host() {
    let r = get_host_and_authority(&parts(Some("http"), Some("example.com"), Some(8080)));
    assert_eq!(r, Some(("example.com".to_string(), "example.com:8080".to_string())));
    assert_eq!(get_host_and_authority(&parts(Some("https"), None, None)), None);
}

#[test]
fn empty_body_request_for_ip_service() {
    let req = create_request_with_empty_body("https://checkip.amazonaws.com/").unwrap();
    assert_eq!(req.method, "GET");
    assert_eq!(req.uri, "https://checkip.amazonaws.com/");
    assert_eq!(req.headers, vec![("host".to_string(), "checkip.amazonaws.com:443".to_string())]);
    assert_eq!(req.body, "");
}

#[test]
fn empty_body_request_with_port_and_http() {
    let req = create_request_with_empty_body("http://api.ipify.org").unwrap();
    assert_eq!(req.headers, vec![("host".to_string(), "api.ipify.org:80".to_string())]);
    let req = create_request_with_empty_body("https://example.org:8443/ip").unwrap();
    assert_eq!(req.headers, vec![("host".to_string(), "example.org:8443".to_string())]);
}

#[test]
fn empty_body_request_without_authority() {
    let err = create_request_with_empty_body("/hello/world").unwrap_err();
    assert_eq!(err, "authority not found in url");
}

#[test]
fn empty_body_request_invalid_uri() {
    let err = create_request_with_empty_body("").unwrap_err();
    assert!(!err.is_empty());
    let err = create_request_with_empty_body("https://exa mple.com").unwrap_err();
    assert!(!err.is_empty());
}

#[test]
fn request_target_of_request() {
    let req = HttpRequest {
        method: "PATCH".to_string(),
        uri: "https://api.cloudflare.com/client/v4/zones/z/dns_records/r".to_string(),
        headers: vec![],
        body: String::new(),
    };
    assert_eq!(
        request_host_and_authority(&req),
        Some(("api.cloudflare.com".to_string(), "api.cloudflare.com:443".to_string()))
    );
    let bad = HttpRequest { method: "GET".to_string(), uri: "not a uri".to_string(), headers: vec![], body: String::new() };
    assert_eq!(request_host_and_authority(&bad), None);
}

#[test]
fn response_duplicate_keeps_fields() {
    let r = ResponseJson { status_code: 503, body: "911".to_string() };
    let d = r.duplicate();
    assert_eq!(d.status_code, 503);
    assert_eq!(d.body, "911");
}

#[test]
fn empty_body_request_from_parsed_parts() {
    let req = empty_body_request_from_parse("http://a.example:81/x", Ok(parts(Some("http"), Some("a.example"), Some(81)))).unwrap();
    assert_eq!(req.uri, "http://a.example:81/x");
    assert_eq!(req.headers, vec![("host".to_string(), "a.example:81".to_string())]);
    assert_eq!(
        empty_body_request_from_parse("x", Ok(parts(None, None, None))).unwrap_err(),
        "authority not found in url"
    );
    assert_eq!(empty_body_request_from_parse("x", Err("invalid".to_string())).unwrap_err(), "invalid");
}
