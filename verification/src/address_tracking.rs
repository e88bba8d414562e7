//! Results that remember the previous address: the ip service result holds
//! the address of the previous run beside the current one, and a domain is
//! updated again only when the address changed or its last answer calls
//! for a retry.
use vstd::prelude::*;

use crate::text::{starts_with, str_eq};
use crate::toolkit::result_map::ResultMap;
use crate::toolkit::results::{opt_string_view, duplicate_opt_string};

verus! {

/// A recorded response: status, body, headers and the time it came (in
/// milliseconds since the Unix epoch).
#[derive(Debug)]
pub struct ResponseJson {
    pub status_code: u16,
    pub body: String,
    pub headers: ResultMap<String>,
    pub timestamp: u128,
}

/// The ip service result of a run, with the address of the run before.
#[derive(Debug)]
pub struct IpServiceResult {
    pub prev_address: Option<String>,
    pub address: Option<String>,
    pub service: Option<String>,
    pub errors: Vec<String>,
    pub response: Option<ResponseJson>,
}

/// The model of a recorded response.
pub struct ResponseView {
    pub status_code: u16,
    pub body: Seq<char>,
    pub headers: Map<Seq<char>, Seq<char>>,
    pub timestamp: u128,
}

impl View for ResponseJson {
    type V = ResponseView;

    open spec fn view(&self) -> ResponseView {
        ResponseView {
            status_code: self.status_code,
            body: self.body@,
            headers: self.headers@,
            timestamp: self.timestamp,
        }
    }
}

impl IpServiceResult {
    /// A result with no addresses, no service, no errors and no response.
    pub fn new() -> (r: IpServiceResult)
        ensures
            r.prev_address is None,
            r.address is None,
            r.service is None,
            r.errors@.len() == 0,
            r.response is None,
    {
        IpServiceResult {
            prev_address: None,
            address: None,
            service: None,
            errors: Vec::new(),
            response: None,
        }
    }
}

/// What became of one domain: its errors and the service's response.
#[derive(Debug)]
pub struct DomainResult {
    pub hostname: String,
    pub errors: Vec<String>,
    pub response: Option<ResponseJson>,
}

/// The model of a [`DomainResult`].
pub struct DomainView {
    pub hostname: Seq<char>,
    pub errors: Seq<Seq<char>>,
    pub response: Option<ResponseView>,
}

impl View for DomainResult {
    type V = DomainView;

    open spec fn view(&self) -> DomainView {
        DomainView {
            hostname: self.hostname@,
            errors: self.errors@.map_values(|e: String| e@),
            response: match self.response {
                Some(r) => Some(r@),
                None => None,
            },
        }
    }
}

impl DomainResult {
    /// A result for `hostname` with no errors and no response.
    pub fn new(hostname: &String) -> (r: DomainResult)
        ensures
            r@ == (DomainView { hostname: hostname@, errors: Seq::empty(), response: None }),
    {
        let r = DomainResult { hostname: hostname.clone(), errors: Vec::new(), response: None };
        assert(r@.errors =~= Seq::<Seq<char>>::empty());
        r
    }
}

/// The results of a run.
#[derive(Debug)]
pub struct UpdateIpResults {
    pub ip_service_result: IpServiceResult,
    pub domain_service_results: ResultMap<DomainResult>,
}

impl UpdateIpResults {
    /// Empty results: a fresh ip service result and no domain results.
    pub fn new() -> (r: UpdateIpResults)
        ensures
            r.ip_service_result.prev_address is None,
            r.ip_service_result.address is None,
            r.ip_service_result.service is None,
            r.ip_service_result.errors@.len() == 0,
            r.ip_service_result.response is None,
            r.domain_service_results@ == Map::<Seq<char>, DomainView>::empty(),
    {
        UpdateIpResults {
            ip_service_result: IpServiceResult::new(),
            domain_service_results: ResultMap::new(),
        }
    }
}

/// Whether the address changed: a new address differs from the previous
/// one, or there is a new address and no previous one.
pub open spec fn address_changed(prev: Option<Seq<char>>, current: Option<Seq<char>>) -> bool {
    match (prev, current) {
        (Some(p), Some(c)) => p != c,
        (None, Some(_)) => true,
        _ => false,
    }
}

/// Whether the address of the run differs from the previous run's.
pub fn address_has_changed(update_ip_results: &UpdateIpResults) -> (b: bool)
    ensures
        b == address_changed(
            opt_string_view(update_ip_results.ip_service_result.prev_address),
            opt_string_view(update_ip_results.ip_service_result.address),
        ),
{
    match (&update_ip_results.ip_service_result.prev_address, &update_ip_results.ip_service_result.address) {
        (Some(prev_ip), Some(curr_ip)) => !str_eq(prev_ip.as_str(), curr_ip.as_str()),
        (None, Some(_curr_ip)) => true,
        _ => false,
    }
}

/// The address a domain is updated to: the current one, else the previous
/// one; none without either.
pub open spec fn update_address_of(prev: Option<Seq<char>>, current: Option<Seq<char>>) -> Option<Seq<char>> {
    match current {
        Some(c) => Some(c),
        None => prev,
    }
}

/// Whether a dyndns2 service asked to be tried again: its last answer
/// begins with "911".
pub open spec fn dyndns2_retry_due(entry: Option<DomainView>) -> bool {
    match entry {
        Some(d) => match d.response {
            Some(r) => r.body.len() >= 3 && r.body.take(3) == "911"@,
            None => false,
        },
        None => false,
    }
}

/// Whether a cloudflare update should be tried again: the domain has no
/// previous entry (it was just added), or its last answer was a server
/// error (5xx).
pub open spec fn cloudflare_retry_due(entry: Option<DomainView>) -> bool {
    match entry {
        None => true,
        Some(d) => match d.response {
            Some(r) => 500 <= r.status_code < 600,
            None => false,
        },
    }
}

/// The model of a previous entry, if any.
pub open spec fn entry_view(domain_result: Option<&DomainResult>) -> Option<DomainView> {
    match domain_result {
        Some(d) => Some(d@),
        None => None,
    }
}

/// The only retry of dyndns2: the service answered "911" (a failure on its
/// side).
pub fn should_retry_dyndns2(domain_result: Option<&DomainResult>) -> (b: bool)
    ensures
        b == dyndns2_retry_due(entry_view(domain_result)),
{
    if let Some(prev_result) = domain_result {
        if let Some(response) = &prev_result.response {
            proof {
                reveal_strlit("911");
            }
            return starts_with(response.body.as_str(), "911");
        }
    }
    false
}

/// A cloudflare update is retried for a domain that has no previous entry
/// (it was just added) and after a server error (5xx); not after a 2xx or
/// 4xx answer.
pub fn should_retry_cloudflare(domain_result: Option<&DomainResult>) -> (b: bool)
    ensures
        b == cloudflare_retry_due(entry_view(domain_result)),
{
    match domain_result {
        None => true,
        Some(prev_result) => match &prev_result.response {
            Some(response) => 500 <= response.status_code && response.status_code < 600,
            None => false,
        },
    }
}

/// The services whose retry rules apply.
#[derive(Clone, Copy, Debug, PartialEq, Eq, Structural)]
pub enum TrackedService {
    Dyndns2,
    Cloudflare,
}

/// Whether the retry rule of `service` calls for another try.
pub open spec fn retry_due(service: TrackedService, entry: Option<DomainView>) -> bool {
    match service {
        TrackedService::Dyndns2 => dyndns2_retry_due(entry),
        TrackedService::Cloudflare => cloudflare_retry_due(entry),
    }
}

/// The previous entry of `name` in the results, if any.
pub open spec fn prior_entry(results: UpdateIpResults, name: Seq<char>) -> Option<DomainView> {
    if results.domain_service_results@.contains_key(name) {
        Some(results.domain_service_results@[name])
    } else {
        None
    }
}

/// Whether a domain is updated in this run: the address changed, or the
/// retry rule of its service calls for another try.
pub open spec fn update_due(results: UpdateIpResults, service: TrackedService, name: Seq<char>) -> bool {
    address_changed(
        opt_string_view(results.ip_service_result.prev_address),
        opt_string_view(results.ip_service_result.address),
    ) || retry_due(service, prior_entry(results, name))
}

/// For each named domain of `service`, whether it is updated in this run:
/// when the address changed or when its previous entry calls for a retry.
pub fn domains_to_update(results: &UpdateIpResults, service: TrackedService, names: &Vec<String>) -> (r: Vec<
    bool,
>)
    ensures
        r@.len() == names@.len(),
        forall|i: int| 0 <= i < names@.len() ==> r@[i] == update_due(*results, service, #[trigger] names@[i]@),
{
    let changed = address_has_changed(results);
    let mut r: Vec<bool> = Vec::new();
    let mut i: usize = 0;
    while i < names.len()
        invariant
            i <= names@.len(),
            r@.len() == i,
            changed == address_changed(
                opt_string_view(results.ip_service_result.prev_address),
                opt_string_view(results.ip_service_result.address),
            ),
            forall|j: int| 0 <= j < i ==> r@[j] == update_due(*results, service, #[trigger] names@[j]@),
        decreases names@.len() - i,
    {
        let prior = results.domain_service_results.get(names[i].as_str());
        let retry = match service {
            TrackedService::Dyndns2 => should_retry_dyndns2(prior),
            TrackedService::Cloudflare => should_retry_cloudflare(prior),
        };
        assert(entry_view(prior) == prior_entry(*results, names@[i as int]@));
        r.push(changed || retry);
        i = i + 1;
    }
    r
}

/// The address a domain is updated to in this run, if it is updated: only
/// when the address changed or a retry is due, and only where an address is
/// known.
pub open spec fn planned_address(prev: Option<Seq<char>>, current: Option<Seq<char>>, retry: bool) -> Option<
    Seq<char>,
> {
    if !address_changed(prev, current) && !retry {
        None
    } else {
        update_address_of(prev, current)
    }
}

/// Decides whether a domain is updated and to which address, given whether
/// its last answer calls for a retry.
pub fn update_target_address(results: &UpdateIpResults, retry: bool) -> (r: Option<String>)
    ensures
        opt_string_view(r) == planned_address(
            opt_string_view(results.ip_service_result.prev_address),
            opt_string_view(results.ip_service_result.address),
            retry,
        ),
{
    if !address_has_changed(results) && !retry {
        return None;
    }
    match &results.ip_service_result.address {
        Some(addr) => Some(addr.clone()),
        None => duplicate_opt_string(&results.ip_service_result.prev_address),
    }
}


/// What an update attempt records: the service's response, or the error
/// that kept the request from being made or answered.
pub open spec fn attempt_result(hostname: Seq<char>, outcome: Result<ResponseView, Seq<char>>) -> DomainView {
    match outcome {
        Ok(r) => DomainView { hostname, errors: Seq::empty(), response: Some(r) },
        Err(e) => DomainView { hostname, errors: seq![e], response: None },
    }
}

pub open spec fn outcome_view(outcome: Result<ResponseJson, String>) -> Result<ResponseView, Seq<char>> {
    match outcome {
        Ok(r) => Ok(r@),
        Err(e) => Err(e@),
    }
}

/// The result of an update attempt for `hostname`.
pub fn build_domain_result(hostname: &String, outcome: Result<ResponseJson, String>) -> (r: DomainResult)
    ensures
        r@ == attempt_result(hostname@, outcome_view(outcome)),
{
    let mut domain_result = DomainResult::new(hostname);
    match outcome {
        Ok(response) => domain_result.response = Some(response),
        Err(e) => {
            domain_result.errors.push(e);
            assert(domain_result@.errors =~= seq![domain_result.errors@[0]@]);
        },
    }
    domain_result
}

/// An unchanged address calls for no update.
pub proof fn lemma_same_address_unchanged(address: Option<Seq<char>>)
    ensures
        !address_changed(address, address),
{
}

/// dyndns2's retry rule holds exactly for an entry whose recorded answer
/// begins with the characters `9`, `1`, `1`: never without an entry or an
/// answer, and never for another answer (`nohost`, `badauth`, ...).
pub proof fn lemma_dyndns2_retry_rule(entry: Option<DomainView>)
    ensures
        dyndns2_retry_due(entry) <==> (entry matches Some(d) && d.response matches Some(r) && r.body.len()
            >= 3 && r.body[0] == '9' && r.body[1] == '1' && r.body[2] == '1'),
{
    reveal_strlit("911");
    assert("911"@ =~= seq!['9', '1', '1']);
    if let Some(d) = entry {
        if let Some(r) = d.response {
            if r.body.len() >= 3 && r.body[0] == '9' && r.body[1] == '1' && r.body[2] == '1' {
                assert(r.body.take(3) =~= seq!['9', '1', '1']);
            }
            if dyndns2_retry_due(entry) {
                assert(r.body.take(3)[0] == '9' && r.body.take(3)[1] == '1' && r.body.take(3)[2] == '1');
            }
        }
    }
}

/// A dyndns2 domain is due an update exactly when there is a current
/// address different from the previous one, or its recorded answer begins
/// with `911`.
pub proof fn lemma_dyndns2_update_due(results: UpdateIpResults, name: Seq<char>)
    ensures
        update_due(results, TrackedService::Dyndns2, name) <==> ({
            let prev = opt_string_view(results.ip_service_result.prev_address);
            let current = opt_string_view(results.ip_service_result.address);
            ||| (current is Some && prev != current)
            ||| (results.domain_service_results@.contains_key(name) && (results.domain_service_results@[
                name].response matches Some(r) && r.body.len() >= 3 && r.body[0] == '9' && r.body[1] == '1'
                && r.body[2] == '1'))
        }),
{
    lemma_dyndns2_retry_rule(prior_entry(results, name));
}

/// A domain that has just been added (no previous entry) is updated on
/// its first cloudflare run, whether or not the address changed.
pub proof fn lemma_added_cloudflare_domain_updated(results: UpdateIpResults, name: Seq<char>)
    requires
        !results.domain_service_results@.contains_key(name),
    ensures
        update_due(results, TrackedService::Cloudflare, name),
{
}

/// Without a changed address and without a due retry a domain is left
/// alone; with a changed address it is updated to the current address.
pub proof fn lemma_update_only_on_change_or_retry(
    prev: Option<Seq<char>>,
    current: Option<Seq<char>>,
    retry: bool,
)
    ensures
        !address_changed(prev, current) && !retry ==> planned_address(prev, current, retry) is None,
        address_changed(prev, current) ==> planned_address(prev, current, retry) == current,
        address_changed(prev, current) ==> current is Some,
{
}

} // verus!
