use ddnsd::errors::Error;
use ddnsd::toolkit::config::{env_variable_name, resolve_results_filepath};
use ddnsd::toolkit::requests::ResponseJson;
use ddnsd::toolkit::result_map::ResultMap;
use ddnsd::toolkit::results::{DomainResult, IpServiceResult, UpdateIpResults};

#[test]
fn ip_service_result_new_is_empty() {
    let r = IpServiceResult::new("https://api.ipify.org");
    assert_eq!(r.service, "https://api.ipify.org");
    assert!(r.ip_address.is_none());
    assert!(r.response.is_none());
}

#[test]
fn domain_result_new_is_empty() {
    let d = DomainResult::new("sub.example.com");
    assert_eq!(d.hostname, "sub.example.com");
    assert!(d.ip_address.is_none());
    assert!(d.response.is_none());
    assert!(d.errors.is_empty());
}

#[test]
fn domain_result_duplicate_keeps_everything() {
    let mut d = DomainResult::new("a.example.com");
    d.ip_address = Some("1.2.3.4".to_string());
    d.errors.push("e1".to_string());
    d.errors.push("e2".to_string());
    d.response = Some(ResponseJson { status_code: 200, body: "good".to_string() });
    let c = d.duplicate();
    assert_eq!(c.hostname, "a.example.com");
    assert_eq!(c.ip_address.as_deref(), Some("1.2.3.4"));
    assert_eq!(c.errors, vec!["e1".to_string(), "e2".to_string()]);
    assert_eq!(c.response.as_ref().unwrap().status_code, 200);
    assert_eq!(c.response.as_ref().unwrap().body, "good");
}

#[test]
fn result_map_read_after_write() {
    let mut m: ResultMap<DomainResult> = ResultMap::new();
    assert_eq!(m.len(), 0);
    assert!(m.get("a").is_none());
    m.insert("a".to_string(), DomainResult::new("a"));
    m.insert("b".to_string(), DomainResult::new("b"));
    assert_eq!(m.len(), 2);
    assert!(m.contains_key("a"));
    assert!(!m.contains_key("c"));
    let mut replaced = DomainResult::new("a");
    replaced.ip_address = Some("5.6.7.8".to_string());
    m.insert("a".to_string(), replaced);
    assert_eq!(m.len(), 2);
    assert_eq!(m.get("a").unwrap().ip_address.as_deref(), Some("5.6.7.8"));
    assert!(m.get("b").unwrap().ip_address.is_none());
    let entries = m.into_entries();
    assert_eq!(entries.len(), 2);
}

#[test]
fn try_from_both_ok() {
    let mut domains = ResultMap::new();
    domains.insert("x".to_string(), DomainResult::new("x"));
    let r = UpdateIpResults::try_from(Ok(IpServiceResult::new("svc")), Ok(domains)).unwrap();
    assert_eq!(r.ip_service_result.service, "svc");
    assert_eq!(r.domain_service_results.len(), 1);
}

#[test]
fn try_from_any_error() {
    let e = UpdateIpResults::try_from(Err("no ip".to_string()), Ok(ResultMap::new())).unwrap_err();
    assert_eq!(e, "couldn't get results");
    let e = UpdateIpResults::try_from(Ok(IpServiceResult::new("svc")), Err("boom".to_string())).unwrap_err();
    assert_eq!(e, "couldn't get results");
    let e = UpdateIpResults::try_from(Err("a".to_string()), Err("b".to_string())).unwrap_err();
    assert_eq!(e, "couldn't get results");
}

#[test]
fn error_messages() {
    assert_eq!(Error::Io("disk full".to_string()).message(), "disk full");
    assert_eq!(Error::IpAddr("bad ip".to_string()).message(), "bad ip");
    assert_eq!(Error::Hyper("h".to_string()).message(), "h");
    assert_eq!(Error::SerdeJson("j".to_string()).message(), "j");
    assert_eq!(Error::NativeTls("t".to_string()).message(), "t");
    assert_eq!(Error::Uri("u".to_string()).message(), "u");
    assert_eq!(Error::Custom("couldn't get results".to_string()).message(), "couldn't get results");
}

#[test]
fn env_secret_references() {
    assert_eq!(env_variable_name("ENV:MY_SECRET_PASSWORD").as_deref(), Some("MY_SECRET_PASSWORD"));
    assert_eq!(env_variable_name("ENV:").as_deref(), Some(""));
    assert_eq!(env_variable_name("plain-password"), None);
    assert_eq!(env_variable_name("env:LOWER"), None);
    assert_eq!(env_variable_name("ENV"), None);
}

#[test]
fn results_path_relative_to_config() {
    assert_eq!(
        resolve_results_filepath("/etc/ddnsd/config.json", "./results.json").as_deref(),
        Some("/etc/ddnsd/./results.json")
    );
    assert_eq!(
        resolve_results_filepath("/etc/ddnsd/config.json", "state/results.json").as_deref(),
        Some("/etc/ddnsd/state/results.json")
    );
    assert_eq!(
        resolve_results_filepath("/etc/ddnsd/config.json", "/var/lib/ddnsd/results.json").as_deref(),
        Some("/var/lib/ddnsd/results.json")
    );
    assert_eq!(resolve_results_filepath("/", "results.json"), None);
}
