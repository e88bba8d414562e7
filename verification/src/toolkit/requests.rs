//! Requests as plain values, the parts of a URI, and where a request goes.
use vstd::prelude::*;

use vstd::string::StringExecFns;

use crate::text::{decimal, owned, str_eq, u64_to_decimal};

verus! {

/// What was recorded of an HTTP response: its status code and its body.
#[derive(Clone, Debug)]
pub struct ResponseJson {
    pub status_code: u16,
    pub body: String,
}

/// The mathematical model of a [`ResponseJson`].
pub struct ResponseView {
    pub status_code: u16,
    pub body: Seq<char>,
}

impl View for ResponseJson {
    type V = ResponseView;

    open spec fn view(&self) -> ResponseView {
        ResponseView { status_code: self.status_code, body: self.body@ }
    }
}

impl ResponseJson {
    /// A field-by-field copy.
    pub fn duplicate(&self) -> (r: ResponseJson)
        ensures
            r@ == self@,
    {
        ResponseJson { status_code: self.status_code, body: self.body.clone() }
    }
}

/// An HTTP request to be sent: method, target URI, header lines in order,
/// and body.
#[derive(Clone, Debug)]
pub struct HttpRequest {
    pub method: String,
    pub uri: String,
    pub headers: Vec<(String, String)>,
    pub body: String,
}

/// The mathematical model of an [`HttpRequest`].
pub struct RequestView {
    pub method: Seq<char>,
    pub uri: Seq<char>,
    pub headers: Seq<(Seq<char>, Seq<char>)>,
    pub body: Seq<char>,
}

pub open spec fn header_view(h: (String, String)) -> (Seq<char>, Seq<char>) {
    (h.0@, h.1@)
}

impl View for HttpRequest {
    type V = RequestView;

    open spec fn view(&self) -> RequestView {
        RequestView {
            method: self.method@,
            uri: self.uri@,
            headers: self.headers@.map_values(|h: (String, String)| header_view(h)),
            body: self.body@,
        }
    }
}

/// The parts of a parsed URI that requests depend on.
#[derive(Clone, Debug)]
pub struct UriParts {
    pub scheme: Option<String>,
    pub authority: Option<String>,
    pub host: Option<String>,
    pub port: Option<u16>,
}

pub open spec fn opt_view(o: Option<String>) -> Option<Seq<char>> {
    match o {
        Some(s) => Some(s@),
        None => None,
    }
}

/// The model of [`UriParts`]: scheme, authority, host and port.
pub type UriView = (Option<Seq<char>>, Option<Seq<char>>, Option<Seq<char>>, Option<u16>);

impl View for UriParts {
    type V = UriView;

    open spec fn view(&self) -> UriView {
        (opt_view(self.scheme), opt_view(self.authority), opt_view(self.host), self.port)
    }
}

/// What `http::Uri`'s parser makes of a text: its scheme, authority, host
/// and port, or the text of the error it reports.
pub uninterp spec fn uri_parse(text: Seq<char>) -> Result<UriView, Seq<char>>;

/// The model of a parse outcome.
pub open spec fn parsed_view(r: Result<UriParts, String>) -> Result<UriView, Seq<char>> {
    match r {
        Ok(p) => Ok(p@),
        Err(e) => Err(e@),
    }
}

/// Parses a URI with `<http::Uri as FromStr>::from_str` and reads
/// `scheme_str`, `authority`, `host` and `port_u16` from it; on failure gives
/// the error's `to_string`. The contract claims only that the outcome is
/// [`uri_parse`] of the text.
#[verifier::external_body]
pub(crate) fn parse_uri(text: &str) -> (r: Result<UriParts, String>)
    ensures
        uri_parse(text@) == parsed_view(r),
{
    match text.parse::<http::Uri>() {
        Ok(uri) => Ok(UriParts {
            scheme: uri.scheme_str().map(|s| s.to_string()),
            authority: uri.authority().map(|a| a.as_str().to_string()),
            host: uri.host().map(|h| h.to_string()),
            port: uri.port_u16(),
        }),
        Err(e) => Err(e.to_string()),
    }
}

pub open spec fn https_scheme() -> Seq<char> {
    seq!['h', 't', 't', 'p', 's']
}

/// The port a connection goes to: the URI's own, else 443 for `https` or
/// no scheme, else 80.
pub open spec fn effective_port(uri: UriView) -> u16 {
    match uri.3 {
        Some(p) => p,
        None => match uri.0 {
            None => 443,
            Some(s) => if s == https_scheme() {
                443
            } else {
                80
            },
        },
    }
}

/// The host of a URI and the `host:port` address to connect to; none
/// without a host.
pub open spec fn host_and_authority(uri: UriView) -> Option<(Seq<char>, Seq<char>)> {
    match uri.2 {
        None => None,
        Some(h) => Some((h, h + seq![':'] + decimal(effective_port(uri) as nat))),
    }
}

/// Finds the host and the `host:port` address of a URI, with the default
/// port of its scheme (https when none is given) where it names no port.
pub fn get_host_and_authority(uri: &UriParts) -> (r: Option<(String, String)>)
    ensures
        match r {
            Some(p) => host_and_authority(uri@) == Some((p.0@, p.1@)),
            None => host_and_authority(uri@) is None,
        },
{
    let port: u16 = match uri.port {
        Some(p) => p,
        None => match &uri.scheme {
            None => 443,
            Some(s) => {
                proof {
                    reveal_strlit("https");
                    assert("https"@ =~= https_scheme());
                }
                if str_eq(s.as_str(), "https") {
                    443
                } else {
                    80
                }
            },
        },
    };
    match &uri.host {
        None => None,
        Some(h) => {
            let mut authority = h.clone();
            authority.append(":");
            let digits = u64_to_decimal(port as u64);
            authority.append(digits.as_str());
            proof {
                reveal_strlit(":");
                assert(":"@ =~= seq![':']);
            }
            Some((h.clone(), authority))
        },
    }
}


/// The error `http::Request::builder()` reports for a request with these
/// method, URI and headers (as its `to_string`), none where it builds one.
pub uninterp spec fn request_build_error(req: RequestView) -> Option<Seq<char>>;

/// A request, where the HTTP request builder accepts it, else its error.
pub open spec fn checked_request(req: RequestView) -> Result<RequestView, Seq<char>> {
    match request_build_error(req) {
        Some(e) => Err(e),
        None => Ok(req),
    }
}

/// Hands the method, URI and headers to `http::Request::builder()` and
/// reports the builder's error, if any, as text. The contract claims only
/// that the outcome is [`request_build_error`] of the request.
#[verifier::external_body]
fn request_error(req: &HttpRequest) -> (r: Option<String>)
    ensures
        opt_view(r) == request_build_error(req@),
{
    let mut builder = http::Request::builder().method(req.method.as_str()).uri(req.uri.as_str());
    for (name, value) in &req.headers {
        builder = builder.header(name.as_str(), value.as_str());
    }
    builder.body(()).err().map(|e| e.to_string())
}

/// The request, where the HTTP request builder accepts its method, URI and
/// headers; otherwise the builder's error.
pub fn checked(req: HttpRequest) -> (r: Result<HttpRequest, String>)
    ensures
        request_result_view(r) == checked_request(req@),
{
    match request_error(&req) {
        Some(e) => Err(e),
        None => Ok(req),
    }
}

pub open spec fn get_method() -> Seq<char> {
    seq!['G', 'E', 'T']
}

pub open spec fn host_header() -> Seq<char> {
    seq!['h', 'o', 's', 't']
}

/// A request with an empty body: the given method, URI and headers.
pub open spec fn request_view(
    method: Seq<char>,
    uri: Seq<char>,
    headers: Seq<(Seq<char>, Seq<char>)>,
) -> RequestView {
    RequestView { method, uri, headers, body: Seq::empty() }
}

/// The request [`create_request_with_empty_body`] makes for `url`, given
/// what the URI parser made of it, before the HTTP request builder checks
/// it.
pub open spec fn empty_body_request(url: Seq<char>, parsed: Result<UriView, Seq<char>>) -> Result<
    RequestView,
    Seq<char>,
> {
    match parsed {
        Err(e) => Err(e),
        Ok(parts) => match host_and_authority(parts) {
            None => Err("authority not found in url"@),
            Some(ha) => Ok(request_view(get_method(), url, seq![(host_header(), ha.1)])),
        },
    }
}

pub open spec fn request_result_view(r: Result<HttpRequest, String>) -> Result<RequestView, Seq<char>> {
    match r {
        Ok(req) => Ok(req@),
        Err(e) => Err(e@),
    }
}

/// A result of building a request, checked by the HTTP request builder.
pub open spec fn then_checked(r: Result<RequestView, Seq<char>>) -> Result<RequestView, Seq<char>> {
    match r {
        Err(e) => Err(e),
        Ok(req) => checked_request(req),
    }
}

/// The GET request with an empty body for `url`, from what the URI parser
/// made of it: its `host` header is the `host:port` address of the URL,
/// which must name a host.
pub fn empty_body_request_from_parse(url_string: &str, parsed: Result<UriParts, String>) -> (r: Result<
    HttpRequest,
    String,
>)
    ensures
        request_result_view(r) == empty_body_request(url_string@, parsed_view(parsed)),
{
    let uri = match parsed {
        Ok(u) => u,
        Err(e) => return Err(e),
    };
    let authority = match get_host_and_authority(&uri) {
        Some((_host, authority)) => authority,
        None => return Err(owned("authority not found in url")),
    };
    proof {
        reveal_strlit("GET");
        reveal_strlit("host");
        assert("GET"@ =~= get_method());
        assert("host"@ =~= host_header());
    }
    let mut headers: Vec<(String, String)> = Vec::new();
    headers.push((owned("host"), authority));
    let req = HttpRequest {
        method: owned("GET"),
        uri: owned(url_string),
        headers,
        body: String::new(),
    };
    assert(req@.headers =~= seq![(host_header(), req@.headers[0].1)]);
    Ok(req)
}

/// A GET request for `url` with an empty body whose `host` header is the
/// `host:port` address of the URL. The URL must parse and name a host, and
/// the HTTP request builder must accept the request.
pub fn create_request_with_empty_body(url_string: &str) -> (r: Result<HttpRequest, String>)
    ensures
        request_result_view(r) == then_checked(empty_body_request(url_string@, uri_parse(url_string@))),
{
    match empty_body_request_from_parse(url_string, parse_uri(url_string)) {
        Ok(req) => checked(req),
        Err(e) => Err(e),
    }
}

/// Where a request goes: the host of its URI and the `host:port` address,
/// as [`get_host_and_authority`] finds them; none where the URI does not
/// parse or names no host.
pub fn request_host_and_authority(req: &HttpRequest) -> (r: Option<(String, String)>)
    ensures
        match uri_parse(req.uri@) {
            Err(_) => r is None,
            Ok(parts) => match r {
                Some(p) => host_and_authority(parts) == Some((p.0@, p.1@)),
                None => host_and_authority(parts) is None,
            },
        },
{
    match parse_uri(req.uri.as_str()) {
        Ok(parts) => get_host_and_authority(&parts),
        Err(_) => None,
    }
}

} // verus!
