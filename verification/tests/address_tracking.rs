use ddnsd::address_tracking::{
    address_has_changed, build_domain_result, domains_to_update, TrackedService, should_retry_cloudflare, should_retry_dyndns2,
    update_target_address, DomainResult, IpServiceResult, ResponseJson, UpdateIpResults,
};
use ddnsd::toolkit::result_map::ResultMap;

fn results(prev: Option<&str>, current: Option<&str>) -> UpdateIpResults {
    let mut r = UpdateIpResults::new();
    r.ip_service_result.prev_address = prev.map(|s| s.to_string());
    r.ip_service_result.address = current.map(|s| s.to_string());
    r
}

fn response(status_code: u16, body: &str) -> ResponseJson {
    ResponseJson { status_code, body: body.to_string(), headers: ResultMap::new(), timestamp: 1_700_000_000_000 }
}

#[test]
fn new_results_are_empty() {
    let r = UpdateIpResults::new();
    assert!(r.ip_service_result.prev_address.is_none());
    assert!(r.ip_service_result.address.is_none());
    assert!(r.ip_service_result.service.is_none());
    assert!(r.ip_service_result.errors.is_empty());
    assert!(r.ip_service_result.response.is_none());
    assert_eq!(r.domain_service_results.len(), 0);
    let ip = IpServiceResult::new();
    assert!(ip.address.is_none());
    let d = DomainResult::new(&"h.example.com".to_string());
    assert_eq!(d.hostname, "h.example.com");
    assert!(d.errors.is_empty());
    assert!(d.response.is_none());
}

#[test]
fn address_change_detection() {
    assert!(address_has_changed(&results(Some("1.1.1.1"), Some("2.2.2.2"))));
    assert!(!address_has_changed(&results(Some("1.1.1.1"), Some("1.1.1.1"))));
    assert!(address_has_changed(&results(None, Some("1.1.1.1"))));
    assert!(!address_has_changed(&results(Some("1.1.1.1"), None)));
    assert!(!address_has_changed(&results(None, None)));
}

#[test]
fn retry_rules() {
    assert!(!should_retry_dyndns2(None));
    let mut d = DomainResult::new(&"h".to_string());
    assert!(!should_retry_dyndns2(Some(&d)));
    d.response = Some(response(200, "911 try later"));
    assert!(should_retry_dyndns2(Some(&d)));
    d.response = Some(response(200, "good 1.2.3.4"));
    assert!(!should_retry_dyndns2(Some(&d)));
    d.response = Some(response(503, ""));
    assert!(should_retry_cloudflare(Some(&d)));
    d.response = Some(response(599, ""));
    assert!(should_retry_cloudflare(Some(&d)));
    d.response = Some(response(600, ""));
    assert!(!should_retry_cloudflare(Some(&d)));
    d.response = Some(response(400, ""));
    assert!(!should_retry_cloudflare(Some(&d)));
    assert!(should_retry_cloudflare(None));
    let no_answer = DomainResult::new(&"h".to_string());
    assert!(!should_retry_cloudflare(Some(&no_answer)));
}

#[test]
fn update_only_on_change_or_retry() {
    assert_eq!(update_target_address(&results(Some("1.1.1.1"), Some("1.1.1.1")), false), None);
    assert_eq!(
        update_target_address(&results(Some("1.1.1.1"), Some("1.1.1.1")), true).as_deref(),
        Some("1.1.1.1")
    );
    assert_eq!(
        update_target_address(&results(Some("1.1.1.1"), Some("2.2.2.2")), false).as_deref(),
        Some("2.2.2.2")
    );
    assert_eq!(update_target_address(&results(Some("1.1.1.1"), None), true).as_deref(), Some("1.1.1.1"));
    assert_eq!(update_target_address(&results(None, None), true), None);
}

#[test]
fn attempt_results() {
    let h = "h.example.com".to_string();
    let r = build_domain_result(&h, Ok(response(200, "good")));
    assert_eq!(r.hostname, "h.example.com");
    assert_eq!(r.response.unwrap().body, "good");
    assert!(r.errors.is_empty());
    let r = build_domain_result(&h, Err("refused".to_string()));
    assert_eq!(r.errors, vec!["refused".to_string()]);
    assert!(r.response.is_none());
}

#[test]
fn domains_due_for_update() {
    let names = vec!["new.example.com".to_string(), "busy.example.com".to_string(), "fine.example.com".to_string()];
    let mut r = results(Some("1.1.1.1"), Some("1.1.1.1"));
    let mut busy = DomainResult::new(&"busy.example.com".to_string());
    busy.response = Some(response(503, "911 retry"));
    r.domain_service_results.insert("busy.example.com".to_string(), busy);
    let mut fine = DomainResult::new(&"fine.example.com".to_string());
    fine.response = Some(response(200, "good 1.1.1.1"));
    r.domain_service_results.insert("fine.example.com".to_string(), fine);
    assert_eq!(domains_to_update(&r, TrackedService::Cloudflare, &names), vec![true, true, false]);
    assert_eq!(domains_to_update(&r, TrackedService::Dyndns2, &names), vec![false, true, false]);
    let mut changed = results(Some("1.1.1.1"), Some("2.2.2.2"));
    changed.domain_service_results = ResultMap::new();
    assert_eq!(domains_to_update(&changed, TrackedService::Dyndns2, &names), vec![true, true, true]);
    assert_eq!(domains_to_update(&changed, TrackedService::Cloudflare, &vec![]), Vec::<bool>::new());
}
