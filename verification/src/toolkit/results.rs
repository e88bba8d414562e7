//! The results of one run: the ip service that was asked and what it said,
//! and one result per domain.
use vstd::prelude::*;

use crate::text::owned;
use crate::toolkit::requests::{ResponseJson, ResponseView};
use crate::toolkit::result_map::ResultMap;

verus! {

pub open spec fn opt_string_view(o: Option<String>) -> Option<Seq<char>> {
    match o {
        Some(s) => Some(s@),
        None => None,
    }
}

pub open spec fn opt_response_view(o: Option<ResponseJson>) -> Option<ResponseView> {
    match o {
        Some(r) => Some(r@),
        None => None,
    }
}

/// Copies an optional text.
pub fn duplicate_opt_string(o: &Option<String>) -> (r: Option<String>)
    ensures
        opt_string_view(r) == opt_string_view(*o),
{
    match o {
        Some(s) => Some(s.clone()),
        None => None,
    }
}

/// Copies an optional response.
pub fn duplicate_opt_response(o: &Option<ResponseJson>) -> (r: Option<ResponseJson>)
    ensures
        opt_response_view(r) == opt_response_view(*o),
{
    match o {
        Some(res) => Some(res.duplicate()),
        None => None,
    }
}

/// Copies a list of texts.
pub fn duplicate_strings(v: &Vec<String>) -> (r: Vec<String>)
    ensures
        r@.map_values(|s: String| s@) == v@.map_values(|s: String| s@),
{
    let mut r: Vec<String> = Vec::new();
    let mut i: usize = 0;
    while i < v.len()
        invariant
            i <= v@.len(),
            r@.len() == i,
            forall|j: int| 0 <= j < i ==> r@[j]@ == v@[j]@,
        decreases v@.len() - i,
    {
        r.push(v[i].clone());
        i = i + 1;
    }
    assert(r@.map_values(|s: String| s@) =~= v@.map_values(|s: String| s@));
    r
}

/// Which ip service was asked, the address it reported and its response.
#[derive(Clone, Debug)]
pub struct IpServiceResult {
    pub service: String,
    pub ip_address: Option<String>,
    pub response: Option<ResponseJson>,
}

/// The model of an [`IpServiceResult`].
pub struct IpServiceView {
    pub service: Seq<char>,
    pub ip_address: Option<Seq<char>>,
    pub response: Option<ResponseView>,
}

impl View for IpServiceResult {
    type V = IpServiceView;

    open spec fn view(&self) -> IpServiceView {
        IpServiceView {
            service: self.service@,
            ip_address: opt_string_view(self.ip_address),
            response: opt_response_view(self.response),
        }
    }
}

impl IpServiceResult {
    /// A result for `service` that holds no address and no response yet.
    pub fn new(service: &str) -> (r: IpServiceResult)
        ensures
            r@ == (IpServiceView { service: service@, ip_address: None, response: None }),
    {
        IpServiceResult { service: owned(service), ip_address: None, response: None }
    }

    /// A field-by-field copy.
    pub fn duplicate(&self) -> (r: IpServiceResult)
        ensures
            r@ == self@,
    {
        IpServiceResult {
            service: self.service.clone(),
            ip_address: duplicate_opt_string(&self.ip_address),
            response: duplicate_opt_response(&self.response),
        }
    }
}

/// What became of one domain: the address it was last set to, the response
/// of its service and the errors met on the way.
#[derive(Clone, Debug)]
pub struct DomainResult {
    pub hostname: String,
    pub ip_address: Option<String>,
    pub response: Option<ResponseJson>,
    pub errors: Vec<String>,
}

/// The model of a [`DomainResult`].
pub struct DomainView {
    pub hostname: Seq<char>,
    pub ip_address: Option<Seq<char>>,
    pub response: Option<ResponseView>,
    pub errors: Seq<Seq<char>>,
}

impl View for DomainResult {
    type V = DomainView;

    open spec fn view(&self) -> DomainView {
        DomainView {
            hostname: self.hostname@,
            ip_address: opt_string_view(self.ip_address),
            response: opt_response_view(self.response),
            errors: self.errors@.map_values(|s: String| s@),
        }
    }
}

/// A fresh domain result: no address, no response, no errors.
pub open spec fn fresh_domain(hostname: Seq<char>) -> DomainView {
    DomainView { hostname, ip_address: None, response: None, errors: Seq::empty() }
}

impl DomainResult {
    /// A result for `hostname` with no address, no response and no errors.
    pub fn new(hostname: &str) -> (r: DomainResult)
        ensures
            r@ == fresh_domain(hostname@),
    {
        let r = DomainResult {
            hostname: owned(hostname),
            ip_address: None,
            response: None,
            errors: Vec::new(),
        };
        assert(r@.errors =~= Seq::<Seq<char>>::empty());
        r
    }

    /// A field-by-field copy.
    pub fn duplicate(&self) -> (r: DomainResult)
        ensures
            r@ == self@,
    {
        DomainResult {
            hostname: self.hostname.clone(),
            ip_address: duplicate_opt_string(&self.ip_address),
            response: duplicate_opt_response(&self.response),
            errors: duplicate_strings(&self.errors),
        }
    }
}

/// The results of a run: the ip service result and a result per domain name.
#[derive(Debug)]
pub struct UpdateIpResults {
    pub ip_service_result: IpServiceResult,
    pub domain_service_results: ResultMap<DomainResult>,
}

impl UpdateIpResults {
    /// Puts the two halves of a run's results together; both must have
    /// succeeded, else the error is "couldn't get results".
    pub fn try_from(
        ip_service_result: Result<IpServiceResult, String>,
        domain_service_results: Result<ResultMap<DomainResult>, String>,
    ) -> (r: Result<UpdateIpResults, String>)
        ensures
            r is Ok <==> (ip_service_result is Ok && domain_service_results is Ok),
            r matches Ok(res) ==> ip_service_result == Ok::<IpServiceResult, String>(
                res.ip_service_result,
            ),
            r matches Ok(res) ==> domain_service_results == Ok::<ResultMap<DomainResult>, String>(
                res.domain_service_results,
            ),
            r matches Err(e) ==> e@ == "couldn't get results"@,
    {
        match (ip_service_result, domain_service_results) {
            (Ok(ip_result), Ok(domain_results)) => Ok(
                UpdateIpResults {
                    ip_service_result: ip_result,
                    domain_service_results: domain_results,
                },
            ),
            _ => Err(owned("couldn't get results")),
        }
    }
}

} // verus!
