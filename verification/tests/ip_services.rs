use ddnsd::ip_services::{
    choose_ip_service,    get_ip_address_from_body, get_random_ip_service, ip_service_result_from_response, previous_service,
    select_ip_service,
};
use ddnsd::toolkit::requests::ResponseJson;
use ddnsd::toolkit::result_map::ResultMap;
use ddnsd::toolkit::results::{IpServiceResult, UpdateIpResults};

fn services(urls: &[&str]) -> Vec<(String, String)> {
    urls.iter().map(|u| (u.to_string(), "address_as_body".to_string())).collect()
}

#[test]
fn select_from_empty_and_single() {
    assert_eq!(select_ip_service(&services(&[]), "x", 0), None);
    let one = services(&["https://api.ipify.org"]);
    assert_eq!(select_ip_service(&one, "https://api.ipify.org", 0), Some(one[0].clone()));
}

#[test]
fn select_skips_previous_service() {
    let s = services(&["a", "b", "c"]);
    assert_eq!(select_ip_service(&s, "b", 0).unwrap().0, "a");
    assert_eq!(select_ip_service(&s, "b", 1).unwrap().0, "c");
    assert_eq!(select_ip_service(&s, "a", 0).unwrap().0, "b");
    assert_eq!(select_ip_service(&s, "a", 1).unwrap().0, "c");
    assert_eq!(select_ip_service(&s, "c", 0).unwrap().0, "a");
    assert_eq!(select_ip_service(&s, "c", 1).unwrap().0, "b");
}

#[test]
fn select_without_previous_service() {
    let s = services(&["a", "b", "c"]);
    assert_eq!(select_ip_service(&s, "z", 0).unwrap().0, "a");
    assert_eq!(select_ip_service(&s, "z", 2).unwrap().0, "c");
}

#[test]
fn random_choice_avoids_previous() {
    let s = services(&["https://checkip.amazonaws.com/", "https://api.ipify.org"]);
    for _ in 0..50 {
        let (url, kind) = get_random_ip_service(&s, "https://api.ipify.org").unwrap();
        assert_eq!(url, "https://checkip.amazonaws.com/");
        assert_eq!(kind, "address_as_body");
    }
    let three = services(&["a", "b", "c"]);
    for _ in 0..50 {
        let (url, _) = get_random_ip_service(&three, "b").unwrap();
        assert!(url == "a" || url == "c");
    }
    assert_eq!(get_random_ip_service(&services(&[]), "b"), None);
    assert_eq!(get_random_ip_service(&services(&["b"]), "b").unwrap().0, "b");
}

#[test]
fn previous_service_names() {
    let prev: Result<UpdateIpResults, String> = Err("no file".to_string());
    assert_eq!(previous_service(&prev), "previous-results-do-not-exist");
    let prev = UpdateIpResults::try_from(Ok(IpServiceResult::new("https://api.ipify.org")), Ok(ResultMap::new()));
    assert_eq!(previous_service(&prev), "https://api.ipify.org");
}

#[test]
fn address_from_body() {
    let ok = ResponseJson { status_code: 200, body: "1.2.3.4\n".to_string() };
    assert_eq!(get_ip_address_from_body(&ok, Some("1.2.3.4".to_string())), Ok("1.2.3.4".to_string()));
    assert_eq!(
        get_ip_address_from_body(&ok, None),
        Err("ip address could not be parsed from response_json".to_string())
    );
    let bad = ResponseJson { status_code: 503, body: "1.2.3.4".to_string() };
    assert_eq!(
        get_ip_address_from_body(&bad, Some("1.2.3.4".to_string())),
        Err("response_json was not okay".to_string())
    );
}

#[test]
fn ip_service_result_records_response() {
    let res = ResponseJson { status_code: 200, body: "203.0.113.7".to_string() };
    let r = ip_service_result_from_response("https://api.ipify.org", res, Some("203.0.113.7".to_string())).unwrap();
    assert_eq!(r.service, "https://api.ipify.org");
    assert_eq!(r.ip_address.as_deref(), Some("203.0.113.7"));
    assert_eq!(r.response.unwrap().body, "203.0.113.7");
    let res = ResponseJson { status_code: 404, body: "nope".to_string() };
    let e = ip_service_result_from_response("https://api.ipify.org", res, None).unwrap_err();
    assert_eq!(e, "response_json was not okay");
}

#[test]
fn choose_ip_service_errors_without_services() {
    let none: Result<UpdateIpResults, String> = Err("no file".to_string());
    assert_eq!(choose_ip_service(&services(&[]), &none).unwrap_err(), "failed to find ip service");
    assert_eq!(choose_ip_service(&services(&["a"]), &none).unwrap().0, "a");
    let prev = UpdateIpResults::try_from(Ok(IpServiceResult::new("a")), Ok(ResultMap::new()));
    for _ in 0..30 {
        assert_eq!(choose_ip_service(&services(&["a", "b"]), &prev).unwrap().0, "b");
    }
}
