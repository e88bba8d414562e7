//! Cloudflare's DNS record PATCH: only the given values of the record change.
use vstd::prelude::*;
use vstd::string::StringExecFns;

use crate::text::{decimal, owned, u64_to_decimal};
use crate::toolkit::domain_services::Cloudflare;
use crate::toolkit::requests::{HttpRequest, RequestView, ResponseJson, checked, checked_request, request_result_view};
use crate::toolkit::results::duplicate_strings;

verus! {

/// The JSON body of a record update. Optional values that are absent are
/// left out of the body.
#[derive(Clone, Debug)]
pub struct CloudflareRequestBody {
    pub content: String,
    pub name: String,
    pub proxied: Option<bool>,
    pub record_type: String,
    pub comment: Option<String>,
    pub tags: Option<Vec<String>>,
    pub ttl: Option<usize>,
}

/// The part of cloudflare's answer that decides whether an update took.
#[derive(Clone, Debug)]
pub struct CloudflareMinimalResponseBody {
    pub success: bool,
}

/// The JSON string literal, quotes included, that `serde_json` writes for
/// the text `s`.
pub uninterp spec fn json_string(s: Seq<char>) -> Seq<char>;

/// Writes `s` as a JSON string with `serde_json::to_string`. Serialising a
/// `str` into memory cannot fail, so the empty text of the error branch is
/// never returned. The contract claims only that the result is
/// [`json_string`] of the text.
#[verifier::external_body]
fn json_string_literal(s: &str) -> (r: String)
    ensures
        r@ == json_string(s@),
{
    match serde_json::to_string(s) {
        Ok(t) => t,
        Err(_) => String::new(),
    }
}

/// Appends the JSON string literal of `s` to `out`.
fn push_json_string(out: &mut String, s: &str)
    ensures
        final(out)@ == old(out)@ + json_string(s@),
{
    let literal = json_string_literal(s);
    out.append(literal.as_str());
}

pub open spec fn bool_text(b: bool) -> Seq<char> {
    if b {
        "true"@
    } else {
        "false"@
    }
}

/// The JSON string literals of `items`, separated by commas.
pub open spec fn json_items(items: Seq<Seq<char>>) -> Seq<char>
    decreases items.len(),
{
    if items.len() == 0 {
        Seq::empty()
    } else if items.len() == 1 {
        json_string(items[0])
    } else {
        json_items(items.drop_last()) + ","@ + json_string(items.last())
    }
}

/// Each further string of an array follows the ones before after one
/// comma: the items of `s` and then `x` are the items of `s`, a comma and
/// the literal of `x`.
pub proof fn lemma_json_items_push(s: Seq<Seq<char>>, x: Seq<char>)
    requires
        s.len() >= 1,
    ensures
        json_items(s.push(x)) == json_items(s) + ","@ + json_string(x),
{
    assert(s.push(x).drop_last() =~= s);
}

/// An array of no strings is `[]`; an array of one string is that string's
/// literal in brackets; an array of `n` strings, `n >= 1`, is the literals
/// of its strings in order, each after the first preceded by one comma.
pub proof fn lemma_json_string_array_shape(s: Seq<Seq<char>>, x: Seq<char>)
    ensures
        json_string_array(Seq::empty()) == "["@ + Seq::<char>::empty() + "]"@,
        json_string_array(seq![x]) == "["@ + json_string(x) + "]"@,
        s.len() >= 1 ==> json_string_array(s.push(x)) == "["@ + json_items(s) + ","@ + json_string(x) + "]"@,
{
    if s.len() >= 1 {
        lemma_json_items_push(s, x);
    }
}

/// The JSON array of the strings `items`.
pub open spec fn json_string_array(items: Seq<Seq<char>>) -> Seq<char> {
    "["@ + json_items(items) + "]"@
}

pub open spec fn strings_view(v: Vec<String>) -> Seq<Seq<char>> {
    v@.map_values(|s: String| s@)
}

/// The `proxied` member of the body, if any.
pub open spec fn proxied_part(o: Option<bool>) -> Seq<char> {
    match o {
        Some(p) => ",\"proxied\":"@ + bool_text(p),
        None => Seq::empty(),
    }
}

/// The `comment` member of the body, if any.
pub open spec fn comment_part(o: Option<String>) -> Seq<char> {
    match o {
        Some(c) => ",\"comment\":"@ + json_string(c@),
        None => Seq::empty(),
    }
}

/// The `tags` member of the body, if any.
pub open spec fn tags_part(o: Option<Vec<String>>) -> Seq<char> {
    match o {
        Some(t) => ",\"tags\":"@ + json_string_array(strings_view(t)),
        None => Seq::empty(),
    }
}

/// The `ttl` member of the body, if any.
pub open spec fn ttl_part(o: Option<usize>) -> Seq<char> {
    match o {
        Some(n) => ",\"ttl\":"@ + decimal(n as nat),
        None => Seq::empty(),
    }
}

/// The compact JSON object of the body members: content, name, proxied,
/// type, comment, tags and ttl in this order, absent options left out.
pub open spec fn members_json(
    content: Seq<char>,
    name: Seq<char>,
    proxied: Seq<char>,
    record_type: Seq<char>,
    comment: Seq<char>,
    tags: Seq<char>,
    ttl: Seq<char>,
) -> Seq<char> {
    "{\"content\":"@ + json_string(content) + ",\"name\":"@ + json_string(name) + proxied + ",\"type\":"@
        + json_string(record_type) + comment + tags + ttl + "}"@
}

/// The compact JSON object of a request body (the record type under the
/// key `type`).
pub open spec fn body_json(b: CloudflareRequestBody) -> Seq<char> {
    members_json(
        b.content@,
        b.name@,
        proxied_part(b.proxied),
        b.record_type@,
        comment_part(b.comment),
        tags_part(b.tags),
        ttl_part(b.ttl),
    )
}

fn proxied_text(o: Option<bool>) -> (s: String)
    ensures
        s@ == proxied_part(o),
{
    match o {
        Some(p) => {
            let mut s = owned(",\"proxied\":");
            if p {
                s.append("true");
            } else {
                s.append("false");
            }
            s
        },
        None => String::new(),
    }
}

fn comment_text(o: &Option<String>) -> (s: String)
    ensures
        s@ == comment_part(*o),
{
    match o {
        Some(c) => {
            let mut s = owned(",\"comment\":");
            push_json_string(&mut s, c.as_str());
            s
        },
        None => String::new(),
    }
}

fn tags_text(o: &Option<Vec<String>>) -> (s: String)
    ensures
        s@ == tags_part(*o),
{
    match o {
        Some(t) => {
            let mut s = owned(",\"tags\":");
            push_json_string_array(&mut s, t);
            s
        },
        None => String::new(),
    }
}

fn ttl_text(o: Option<usize>) -> (s: String)
    ensures
        s@ == ttl_part(o),
{
    match o {
        Some(n) => {
            let mut s = owned(",\"ttl\":");
            let digits = u64_to_decimal(n as u64);
            s.append(digits.as_str());
            s
        },
        None => String::new(),
    }
}

/// Appends the JSON array of `items` to `out`.
pub fn push_json_string_array(out: &mut String, items: &Vec<String>)
    ensures
        final(out)@ == old(out)@ + json_string_array(strings_view(*items)),
{
    let ghost start = out@;
    let ghost all = strings_view(*items);
    out.append("[");
    let mut i: usize = 0;
    while i < items.len()
        invariant
            i <= items@.len(),
            all == strings_view(*items),
            out@ == start + "["@ + json_items(all.take(i as int)),
        decreases items@.len() - i,
    {
        let ghost before = out@;
        if i > 0 {
            out.append(",");
        }
        push_json_string(out, items[i].as_str());
        proof {
            let t = all.take(i as int + 1);
            assert(t.drop_last() =~= all.take(i as int));
            assert(t.last() == items@[i as int]@);
            if i == 0 {
                assert(t.len() == 1);
                assert(json_items(all.take(0)) =~= Seq::<char>::empty());
                assert(out@ =~= start + "["@ + json_items(t));
            } else {
                assert(out@ =~= start + "["@ + json_items(t));
            }
        }
        i = i + 1;
    }
    assert(all.take(items@.len() as int) =~= all);
    out.append("]");
    assert(out@ =~= start + json_string_array(all));
}

impl CloudflareRequestBody {
    /// The update of `domain`'s record to address `ip_addr`.
    pub fn from_domain(domain: &Cloudflare, ip_addr: &str) -> (b: CloudflareRequestBody)
        ensures
            b.content@ == ip_addr@,
            b.name@ == domain.name@,
            b.proxied == domain.proxied,
            b.record_type@ == domain.record_type@,
            b.comment matches Some(c) ==> (domain.comment matches Some(d) && c@ == d@),
            b.comment is None <==> domain.comment is None,
            b.tags matches Some(t) ==> (domain.tags matches Some(d) && strings_view(t) == strings_view(d)),
            b.tags is None <==> domain.tags is None,
            b.ttl == domain.ttl,
    {
        CloudflareRequestBody {
            content: owned(ip_addr),
            name: domain.name.clone(),
            proxied: domain.proxied,
            record_type: domain.record_type.clone(),
            comment: match &domain.comment {
                Some(c) => Some(c.clone()),
                None => None,
            },
            tags: match &domain.tags {
                Some(t) => Some(duplicate_strings(t)),
                None => None,
            },
            ttl: domain.ttl,
        }
    }

    /// The body as compact JSON.
    pub fn to_json(&self) -> (s: String)
        ensures
            s@ == body_json(*self),
    {
        let mut out = owned("{\"content\":");
        push_json_string(&mut out, self.content.as_str());
        out.append(",\"name\":");
        push_json_string(&mut out, self.name.as_str());
        out.append(proxied_text(self.proxied).as_str());
        out.append(",\"type\":");
        push_json_string(&mut out, self.record_type.as_str());
        out.append(comment_text(&self.comment).as_str());
        out.append(tags_text(&self.tags).as_str());
        out.append(ttl_text(self.ttl).as_str());
        out.append("}");
        out
    }
}

/// The URL of a DNS record in cloudflare's API.
pub open spec fn cloudflare_uri(zone_id: Seq<char>, dns_record_id: Seq<char>) -> Seq<char> {
    "https://api.cloudflare.com/client/v4/zones/"@ + zone_id + "/dns_records/"@ + dns_record_id
}

/// The body of the update of `domain` to `ip_addr`, as JSON.
pub open spec fn update_body(domain: Cloudflare, ip_addr: Seq<char>) -> Seq<char> {
    members_json(
        ip_addr,
        domain.name@,
        proxied_part(domain.proxied),
        domain.record_type@,
        comment_part(domain.comment),
        tags_part(domain.tags),
        ttl_part(domain.ttl),
    )
}

/// The PATCH request that sets `domain`'s record to `ip_addr`.
pub open spec fn cloudflare_request(domain: Cloudflare, ip_addr: Seq<char>) -> RequestView {
    RequestView {
        method: "PATCH"@,
        uri: cloudflare_uri(domain.zone_id@, domain.dns_record_id@),
        headers: seq![
            ("host"@, "api.cloudflare.com"@),
            ("content-type"@, "application/json"@),
            ("x-auth-email"@, domain.email@),
            ("authorization"@, "Bearer "@ + domain.api_token@),
        ],
        body: update_body(domain, ip_addr),
    }
}

/// The PATCH request of cloudflare's API that sets a record to `ip_addr`,
/// authorized by the record's API token.
pub fn build_cloudflare_req(domain: &Cloudflare, ip_addr: &str) -> (r: HttpRequest)
    ensures
        r@ == cloudflare_request(*domain, ip_addr@),
{
    let mut uri = owned("https://api.cloudflare.com/client/v4/zones/");
    uri.append(domain.zone_id.as_str());
    uri.append("/dns_records/");
    uri.append(domain.dns_record_id.as_str());
    let mut auth_value = owned("Bearer ");
    auth_value.append(domain.api_token.as_str());
    let body = CloudflareRequestBody::from_domain(domain, ip_addr);
    let body_str = body.to_json();
    proof {
        assert(body_json(body) =~= update_body(*domain, ip_addr@));
    }
    let mut headers: Vec<(String, String)> = Vec::new();
    headers.push((owned("host"), owned("api.cloudflare.com")));
    headers.push((owned("content-type"), owned("application/json")));
    headers.push((owned("x-auth-email"), domain.email.clone()));
    headers.push((owned("authorization"), auth_value));
    let req = HttpRequest { method: owned("PATCH"), uri, headers, body: body_str };
    assert(req@.headers =~= cloudflare_request(*domain, ip_addr@).headers);
    req
}

/// The update request of a record, as far as the HTTP request builder
/// accepts it (it refuses, say, an identifier that cannot stand in a URL).
pub fn get_cloudflare_req(domain: &Cloudflare, ip_addr: &str) -> (r: Result<HttpRequest, String>)
    ensures
        request_result_view(r) == checked_request(cloudflare_request(*domain, ip_addr@)),
{
    checked(build_cloudflare_req(domain, ip_addr))
}

/// Whether cloudflare accepted an update: status 200 and a body whose
/// `success` is true.
pub open spec fn cloudflare_accepted(status_code: u16, body: Option<CloudflareMinimalResponseBody>) -> bool {
    &&& status_code == 200
    &&& body matches Some(b) && b.success
}

/// An update counts as done on status 200 with `success: true` in the
/// body; `parsed_body` is the body read as a [`CloudflareMinimalResponseBody`],
/// none where it is not one.
pub fn verify_resposne(res: &ResponseJson, parsed_body: &Option<CloudflareMinimalResponseBody>) -> (b: bool)
    ensures
        b == cloudflare_accepted(res.status_code, *parsed_body),
{
    if res.status_code != 200 {
        return false;
    }
    match parsed_body {
        Some(body) => body.success,
        None => false,
    }
}

} // verus!
