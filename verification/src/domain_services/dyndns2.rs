//! The dyndns2 protocol (a subset): an authenticated GET of
//! `/nic/update?hostname=...&myip=...` at the service's authority.
use base64::{engine::general_purpose, Engine as _};
use vstd::prelude::*;
use vstd::string::StringExecFns;

use crate::text::{has_prefix, owned, starts_with};
use crate::toolkit::domain_services::Dyndns2;
use crate::toolkit::requests::{
    HttpRequest, RequestView, ResponseJson, UriParts, UriView, checked, parse_uri, parsed_view,
    request_result_view, then_checked, uri_parse,
};

verus! {

/// The standard base64 encoding, with padding, of the UTF-8 bytes of
/// `text`, as the `base64` crate's `general_purpose::STANDARD` engine
/// writes it.
pub uninterp spec fn base64_standard(text: Seq<char>) -> Seq<char>;

/// Encodes the UTF-8 bytes of `text` with `base64`'s
/// `general_purpose::STANDARD.encode`. The contract claims only that the
/// result is [`base64_standard`] of the text.
#[verifier::external_body]
fn base64_encode(text: &str) -> (r: String)
    ensures
        r@ == base64_standard(text@),
{
    general_purpose::STANDARD.encode(text.as_bytes())
}

/// The value of the `authorization` header for HTTP basic authentication.
pub open spec fn basic_auth(username: Seq<char>, password: Seq<char>) -> Seq<char> {
    "Basic "@ + base64_standard(username + ":"@ + password)
}

/// `Basic ` followed by the base64 encoding of `username:password`.
pub fn basic_auth_value(username: &str, password: &str) -> (r: String)
    ensures
        r@ == basic_auth(username@, password@),
{
    let mut credentials = owned(username);
    credentials.append(":");
    credentials.append(password);
    let encoded = base64_encode(credentials.as_str());
    let mut value = owned("Basic ");
    value.append(encoded.as_str());
    value
}

/// The update URL of the dyndns2 protocol at a service authority.
pub open spec fn dyndns2_update_uri(service_domain: Seq<char>, ip_addr: Seq<char>, hostname: Seq<char>) -> Seq<
    char,
> {
    "https://"@ + service_domain + "/nic/update?hostname="@ + hostname + "&myip="@ + ip_addr
}

/// `https://<service_domain>/nic/update?hostname=<hostname>&myip=<ip_addr>`.
pub fn get_https_dyndns2_uri(service_domain: &str, ip_addr: &str, hostname: &str) -> (r: String)
    ensures
        r@ == dyndns2_update_uri(service_domain@, ip_addr@, hostname@),
{
    let mut uri = owned("https://");
    uri.append(service_domain);
    uri.append("/nic/update?hostname=");
    uri.append(hostname);
    uri.append("&myip=");
    uri.append(ip_addr);
    uri
}

/// The update URL for a domain, from what the URI parser made of its
/// `service_uri`: the protocol's path and parameters follow the authority.
pub open spec fn dyndns2_target(
    service: Result<UriView, Seq<char>>,
    hostname: Seq<char>,
    ip_addr: Seq<char>,
) -> Result<Seq<char>, Seq<char>> {
    match service {
        Err(e) => Err(e),
        Ok(parts) => match parts.1 {
            None => Err("host not found in uri"@),
            Some(authority) => Ok(dyndns2_update_uri(authority, ip_addr, hostname)),
        },
    }
}

pub open spec fn text_result_view(r: Result<String, String>) -> Result<Seq<char>, Seq<char>> {
    match r {
        Ok(s) => Ok(s@),
        Err(e) => Err(e@),
    }
}

/// The update URL at the authority of a parsed `service_uri`.
pub fn dyndns2_update_target(service: Result<UriParts, String>, hostname: &str, ip_addr: &str) -> (r:
    Result<String, String>)
    ensures
        text_result_view(r) == dyndns2_target(parsed_view(service), hostname@, ip_addr@),
{
    let parts = match service {
        Ok(p) => p,
        Err(e) => return Err(e),
    };
    match &parts.authority {
        None => Err(owned("host not found in uri")),
        Some(authority) => Ok(get_https_dyndns2_uri(authority.as_str(), ip_addr, hostname)),
    }
}

/// The user agent the requests carry.
pub open spec fn client_header_value() -> Seq<char> {
    "hyper/1.0 rust-client"@
}

/// The update request for a target URL, from what the URI parser made of
/// it and the `authorization` value.
pub open spec fn dyndns2_request_for(
    target: Seq<char>,
    target_parse: Result<UriView, Seq<char>>,
    auth: Seq<char>,
) -> Result<RequestView, Seq<char>> {
    match target_parse {
        Err(e) => Err(e),
        Ok(parts) => match parts.2 {
            None => Err("host not found in uri"@),
            Some(host) => Ok(
                RequestView {
                    method: "GET"@,
                    uri: target,
                    headers: seq![
                        ("host"@, host),
                        ("user-agent"@, client_header_value()),
                        ("authorization"@, auth),
                    ],
                    body: Seq::empty(),
                },
            ),
        },
    }
}

/// The update request for a parsed target URL: a GET with the URL's host,
/// the client's user agent and the given authorization.
pub fn dyndns2_request_from_target(
    target: String,
    target_parse: Result<UriParts, String>,
    auth_value: String,
) -> (r: Result<HttpRequest, String>)
    ensures
        request_result_view(r) == dyndns2_request_for(target@, parsed_view(target_parse), auth_value@),
{
    let parts = match target_parse {
        Ok(p) => p,
        Err(e) => return Err(e),
    };
    let host = match parts.host {
        None => return Err(owned("host not found in uri")),
        Some(h) => h,
    };
    let mut headers: Vec<(String, String)> = Vec::new();
    headers.push((owned("host"), host));
    headers.push((owned("user-agent"), owned("hyper/1.0 rust-client")));
    headers.push((owned("authorization"), auth_value));
    let req = HttpRequest { method: owned("GET"), uri: target, headers, body: String::new() };
    assert(req@.headers =~= seq![
        ("host"@, req@.headers[0].1),
        ("user-agent"@, client_header_value()),
        ("authorization"@, req@.headers[2].1),
    ]);
    Ok(req)
}

/// The update request of a domain, for address `ip_addr`.
pub open spec fn dyndns2_request(
    service_uri: Seq<char>,
    hostname: Seq<char>,
    username: Seq<char>,
    password: Seq<char>,
    ip_addr: Seq<char>,
) -> Result<RequestView, Seq<char>> {
    match dyndns2_target(uri_parse(service_uri), hostname, ip_addr) {
        Err(e) => Err(e),
        Ok(target) => then_checked(
            dyndns2_request_for(target, uri_parse(target), basic_auth(username, password)),
        ),
    }
}

/// The dyndns2 update request for a domain: the protocol's path and
/// parameters at the authority of `service_uri`, with basic authentication,
/// as far as the HTTP request builder accepts it.
pub fn get_https_dyndns2_req(domain: &Dyndns2, ip_addr: &str) -> (r: Result<HttpRequest, String>)
    ensures
        request_result_view(r) == dyndns2_request(
            domain.service_uri@,
            domain.hostname@,
            domain.username@,
            domain.password@,
            ip_addr@,
        ),
{
    let service = parse_uri(domain.service_uri.as_str());
    let target = match dyndns2_update_target(service, domain.hostname.as_str(), ip_addr) {
        Ok(t) => t,
        Err(e) => return Err(e),
    };
    let target_parse = parse_uri(target.as_str());
    let auth_value = basic_auth_value(domain.username.as_str(), domain.password.as_str());
    match dyndns2_request_from_target(target, target_parse, auth_value) {
        Ok(req) => checked(req),
        Err(e) => Err(e),
    }
}

/// Whether a dyndns2 response reports success: a 2xx status with a body
/// that begins with `good` or `nochg` (the protocol's two success codes;
/// `911`, `badauth`, `nohost` and the other codes are failures).
pub open spec fn dyndns2_accepted(status_code: u16, body: Seq<char>) -> bool {
    &&& 200 <= status_code < 300
    &&& has_prefix(body, "good"@) || has_prefix(body, "nochg"@)
}

/// Whether a dyndns2 answer asks for the update to be sent again: its body
/// begins with `911` (a failure on the service's side).
pub open spec fn dyndns2_asks_retry(body: Seq<char>) -> bool {
    has_prefix(body, "911"@)
}

/// A dyndns2 update counts as done on a 2xx status whose body reports
/// `good` or `nochg`.
pub fn verify_resposne(res: &ResponseJson) -> (b: bool)
    ensures
        b == dyndns2_accepted(res.status_code, res.body@),
{
    res.status_code >= 200 && res.status_code < 300 && (starts_with(res.body.as_str(), "good")
        || starts_with(res.body.as_str(), "nochg"))
}

/// Whether a recorded dyndns2 answer asks to be tried again.
pub fn answer_asks_retry(res: &ResponseJson) -> (b: bool)
    ensures
        b == dyndns2_asks_retry(res.body@),
{
    starts_with(res.body.as_str(), "911")
}


/// A dyndns2 answer asks for a retry exactly when its body begins with the
/// characters `9`, `1`, `1`; any other answer (`nohost`, `badauth`,
/// `abuse`, ...) never does.
pub proof fn lemma_retry_only_on_911(body: Seq<char>)
    ensures
        dyndns2_asks_retry(body) <==> (body.len() >= 3 && body[0] == '9' && body[1] == '1' && body[2] == '1'),
{
    reveal_strlit("911");
    assert("911"@ =~= seq!['9', '1', '1']);
    if body.len() >= 3 && body[0] == '9' && body[1] == '1' && body[2] == '1' {
        assert(body.take(3) =~= seq!['9', '1', '1']);
    }
    if dyndns2_asks_retry(body) {
        assert(body.take(3)[0] == '9' && body.take(3)[1] == '1' && body.take(3)[2] == '1');
    }
}

/// A dyndns2 answer reports success exactly when its status is 2xx and its
/// body begins with `good` or with `nochg`.
pub proof fn lemma_accepted_only_on_good_or_nochg(status_code: u16, body: Seq<char>)
    ensures
        dyndns2_accepted(status_code, body) <==> (200 <= status_code < 300 && ((body.len() >= 4
            && body[0] == 'g' && body[1] == 'o' && body[2] == 'o' && body[3] == 'd') || (body.len() >= 5
            && body[0] == 'n' && body[1] == 'o' && body[2] == 'c' && body[3] == 'h' && body[4] == 'g'))),
{
    reveal_strlit("good");
    reveal_strlit("nochg");
    assert("good"@ =~= seq!['g', 'o', 'o', 'd']);
    assert("nochg"@ =~= seq!['n', 'o', 'c', 'h', 'g']);
    if body.len() >= 4 && body[0] == 'g' && body[1] == 'o' && body[2] == 'o' && body[3] == 'd' {
        assert(body.take(4) =~= seq!['g', 'o', 'o', 'd']);
    }
    if body.len() >= 5 && body[0] == 'n' && body[1] == 'o' && body[2] == 'c' && body[3] == 'h' && body[4] == 'g' {
        assert(body.take(5) =~= seq!['n', 'o', 'c', 'h', 'g']);
    }
    if has_prefix(body, "good"@) {
        assert(body.take(4)[0] == 'g' && body.take(4)[1] == 'o' && body.take(4)[2] == 'o' && body.take(4)[3]
            == 'd');
    }
    if has_prefix(body, "nochg"@) {
        assert(body.take(5)[0] == 'n' && body.take(5)[1] == 'o' && body.take(5)[2] == 'c' && body.take(5)[3]
            == 'h' && body.take(5)[4] == 'g');
    }
}

} // verus!
