//! Keeping domains up to date.
//!
//! An update run has two halves around the network: [`plan_domain_updates`]
//! decides, per configured domain, whether its recorded result stands or a
//! request must go out (and builds that request); once the requests have
//! been answered, [`apply_domain_updates`] records the outcomes in order.
use vstd::prelude::*;

use crate::text::owned;
use crate::toolkit::domain_services::{Cloudflare, DomainServices, Dyndns2};
use crate::toolkit::requests::{HttpRequest, RequestView, ResponseJson, ResponseView};
use crate::toolkit::result_map::ResultMap;
use crate::toolkit::results::{
    DomainResult, DomainView, IpServiceResult, UpdateIpResults, fresh_domain, opt_string_view,
};

pub mod cloudflare;
pub mod dyndns2;

use crate::toolkit::requests::{checked_request, request_build_error};
use cloudflare::{CloudflareMinimalResponseBody, cloudflare_accepted, cloudflare_request, get_cloudflare_req};
use dyndns2::{
    dyndns2_accepted, dyndns2_asks_retry, dyndns2_request, get_https_dyndns2_req, lemma_retry_only_on_911,
};

verus! {

/// The address to publish: the one just reported by the ip service, else
/// the one of the previous run.
pub open spec fn chosen_ip_address(
    prev_results: Result<UpdateIpResults, String>,
    ip_service_result: IpServiceResult,
) -> Result<Seq<char>, Seq<char>> {
    match ip_service_result.ip_address {
        Some(a) => Ok(a@),
        None => match prev_results {
            Ok(prev) => match prev.ip_service_result.ip_address {
                Some(a) => Ok(a@),
                None => Err("there are no ip addresses to update"@),
            },
            Err(_) => Err("there are no ip addresses to update"@),
        },
    }
}

pub open spec fn text_result(r: Result<String, String>) -> Result<Seq<char>, Seq<char>> {
    match r {
        Ok(s) => Ok(s@),
        Err(e) => Err(e@),
    }
}

/// The address to publish: the ip service's address, else the previous
/// run's, else the error "there are no ip addresses to update".
pub fn get_ip_address(
    prev_results: &Result<UpdateIpResults, String>,
    ip_service_result: &IpServiceResult,
) -> (r: Result<String, String>)
    ensures
        text_result(r) == chosen_ip_address(*prev_results, *ip_service_result),
{
    if let Some(ip_addr) = &ip_service_result.ip_address {
        return Ok(ip_addr.clone());
    }
    if let Ok(prev_result) = prev_results {
        if let Some(ip_addr) = &prev_result.ip_service_result.ip_address {
            return Ok(ip_addr.clone());
        }
    }
    Err(owned("there are no ip addresses to update"))
}

/// What the previous run recorded for `hostname`, or a fresh result.
pub open spec fn prior_domain(prev_results: Result<UpdateIpResults, String>, hostname: Seq<char>) -> DomainView {
    match prev_results {
        Ok(prev) => if prev.domain_service_results@.contains_key(hostname) {
            prev.domain_service_results@[hostname]
        } else {
            fresh_domain(hostname)
        },
        Err(_) => fresh_domain(hostname),
    }
}

/// The result the previous run recorded for `hostname`, or a fresh one.
pub fn prior_domain_result(prev_results: &Result<UpdateIpResults, String>, hostname: &str) -> (r: DomainResult)
    ensures
        r@ == prior_domain(*prev_results, hostname@),
{
    match prev_results {
        Ok(results) => match results.domain_service_results.get(hostname) {
            Some(domain) => domain.duplicate(),
            None => DomainResult::new(hostname),
        },
        Err(_) => DomainResult::new(hostname),
    }
}

/// Whether a domain's record already holds `ip_address`.
pub open spec fn up_to_date(prior: DomainView, ip_address: Seq<char>) -> bool {
    prior.ip_address == Some(ip_address)
}

/// Which service a request goes to.
#[derive(Clone, Copy, Debug, PartialEq, Eq, Structural)]
pub enum DomainService {
    Dyndns2,
    Cloudflare,
}

/// What happens to one configured domain.
#[derive(Clone, Debug)]
pub enum DomainStep {
    /// The domain already holds the address: its recorded result stands.
    Keep { hostname: String, result: DomainResult },
    /// The update request could not be made.
    Failed { hostname: String, error: String },
    /// The update request must be sent to the service.
    Send { hostname: String, service: DomainService, ip_address: String, request: HttpRequest },
}

/// The model of a [`DomainStep`].
pub enum StepView {
    Keep(Seq<char>, DomainView),
    Failed(Seq<char>, Seq<char>),
    Send(Seq<char>, DomainService, Seq<char>, RequestView),
}

impl View for DomainStep {
    type V = StepView;

    open spec fn view(&self) -> StepView {
        match self {
            DomainStep::Keep { hostname, result } => StepView::Keep(hostname@, result@),
            DomainStep::Failed { hostname, error } => StepView::Failed(hostname@, error@),
            DomainStep::Send { hostname, service, ip_address, request } => StepView::Send(
                hostname@,
                *service,
                ip_address@,
                request@,
            ),
        }
    }
}

/// The address that the previous run published, if any.
pub open spec fn previous_address(prev_results: Result<UpdateIpResults, String>) -> Option<Seq<char>> {
    match prev_results {
        Ok(prev) => opt_string_view(prev.ip_service_result.ip_address),
        Err(_) => None,
    }
}

/// Whether a dyndns2 domain that does not hold the address is sent its
/// update: the address changed since the previous run, or no answer of the
/// service is recorded (it was never asked, or the request failed), or the
/// recorded answer is `911`. Any other answer is not retried while the
/// address stays the same.
pub open spec fn dyndns2_resend_due(
    prev_results: Result<UpdateIpResults, String>,
    prior: DomainView,
    ip_address: Seq<char>,
) -> bool {
    ||| previous_address(prev_results) != Some(ip_address)
    ||| prior.response is None
    ||| (prior.response matches Some(r) && dyndns2_asks_retry(r.body))
}

/// The step of a dyndns2 domain.
pub open spec fn dyndns2_step(prev_results: Result<UpdateIpResults, String>, domain: Dyndns2, ip_address: Seq<char>) -> StepView {
    let prior = prior_domain(prev_results, domain.hostname@);
    if up_to_date(prior, ip_address) || !dyndns2_resend_due(prev_results, prior, ip_address) {
        StepView::Keep(domain.hostname@, prior)
    } else {
        match dyndns2_request(
            domain.service_uri@,
            domain.hostname@,
            domain.username@,
            domain.password@,
            ip_address,
        ) {
            Err(e) => StepView::Failed(domain.hostname@, e),
            Ok(req) => StepView::Send(domain.hostname@, DomainService::Dyndns2, ip_address, req),
        }
    }
}

/// The step of a cloudflare record (named by its `name`).
pub open spec fn cloudflare_step(prev_results: Result<UpdateIpResults, String>, domain: Cloudflare, ip_address: Seq<char>) -> StepView {
    let prior = prior_domain(prev_results, domain.name@);
    if up_to_date(prior, ip_address) {
        StepView::Keep(domain.name@, prior)
    } else {
        match checked_request(cloudflare_request(domain, ip_address)) {
            Err(e) => StepView::Failed(domain.name@, e),
            Ok(req) => StepView::Send(domain.name@, DomainService::Cloudflare, ip_address, req),
        }
    }
}

fn resend_due(prev_results: &Result<UpdateIpResults, String>, prior: &DomainResult, ip_address: &str) -> (b:
    bool)
    ensures
        b == dyndns2_resend_due(*prev_results, prior@, ip_address@),
{
    let changed = match prev_results {
        Ok(prev) => match &prev.ip_service_result.ip_address {
            Some(a) => !crate::text::str_eq(a.as_str(), ip_address),
            None => true,
        },
        Err(_) => true,
    };
    if changed {
        return true;
    }
    match &prior.response {
        None => true,
        Some(r) => dyndns2::answer_asks_retry(r),
    }
}

/// Decides what happens to a dyndns2 domain: its recorded result stands
/// where it already holds `ip_address`, or where the address did not change
/// and its recorded answer does not ask for a retry; otherwise its update
/// request.
pub fn plan_dyndns2_domain(
    prev_results: &Result<UpdateIpResults, String>,
    domain: &Dyndns2,
    ip_address: &str,
) -> (s: DomainStep)
    ensures
        s@ == dyndns2_step(*prev_results, *domain, ip_address@),
{
    let prior = prior_domain_result(prev_results, domain.hostname.as_str());
    if let Some(domain_ip) = &prior.ip_address {
        if crate::text::str_eq(domain_ip.as_str(), ip_address) {
            return DomainStep::Keep { hostname: domain.hostname.clone(), result: prior };
        }
    }
    if !resend_due(prev_results, &prior, ip_address) {
        return DomainStep::Keep { hostname: domain.hostname.clone(), result: prior };
    }
    match get_https_dyndns2_req(domain, ip_address) {
        Err(e) => DomainStep::Failed { hostname: domain.hostname.clone(), error: e },
        Ok(request) => DomainStep::Send {
            hostname: domain.hostname.clone(),
            service: DomainService::Dyndns2,
            ip_address: owned(ip_address),
            request,
        },
    }
}

/// Decides what happens to a cloudflare record: its recorded result stands
/// where it already holds `ip_address`; otherwise its update request.
pub fn plan_cloudflare_domain(
    prev_results: &Result<UpdateIpResults, String>,
    domain: &Cloudflare,
    ip_address: &str,
) -> (s: DomainStep)
    ensures
        s@ == cloudflare_step(*prev_results, *domain, ip_address@),
{
    let prior = prior_domain_result(prev_results, domain.name.as_str());
    if let Some(domain_ip) = &prior.ip_address {
        if crate::text::str_eq(domain_ip.as_str(), ip_address) {
            return DomainStep::Keep { hostname: domain.name.clone(), result: prior };
        }
    }
    match get_cloudflare_req(domain, ip_address) {
        Err(e) => DomainStep::Failed { hostname: domain.name.clone(), error: e },
        Ok(request) => DomainStep::Send {
            hostname: domain.name.clone(),
            service: DomainService::Cloudflare,
            ip_address: owned(ip_address),
            request,
        },
    }
}


pub open spec fn dyndns2_domains_view(o: Option<Vec<Dyndns2>>) -> Seq<Dyndns2> {
    match o {
        Some(v) => v@,
        None => Seq::empty(),
    }
}

pub open spec fn cloudflare_domains_view(o: Option<Vec<Cloudflare>>) -> Seq<Cloudflare> {
    match o {
        Some(v) => v@,
        None => Seq::empty(),
    }
}

/// The steps of a run, in order: the dyndns2 domains, then the cloudflare
/// records, each in configured order.
pub open spec fn planned_steps(
    prev_results: Result<UpdateIpResults, String>,
    domain_services: DomainServices,
    ip_address: Seq<char>,
) -> Seq<StepView> {
    dyndns2_domains_view(domain_services.dyndns2).map_values(
        |d: Dyndns2| dyndns2_step(prev_results, d, ip_address),
    ) + cloudflare_domains_view(domain_services.cloudflare).map_values(
        |d: Cloudflare| cloudflare_step(prev_results, d, ip_address),
    )
}

pub open spec fn steps_view(steps: Seq<DomainStep>) -> Seq<StepView> {
    steps.map_values(|s: DomainStep| s@)
}

/// Decides, for every configured domain in order (dyndns2 domains first,
/// then cloudflare records), whether its recorded result stands or which
/// request updates it to `ip_address`.
pub fn plan_domain_updates(
    prev_results: &Result<UpdateIpResults, String>,
    domain_services: &DomainServices,
    ip_address: &str,
) -> (steps: Vec<DomainStep>)
    ensures
        steps_view(steps@) == planned_steps(*prev_results, *domain_services, ip_address@),
{
    let mut steps: Vec<DomainStep> = Vec::new();
    let ghost first = dyndns2_domains_view(domain_services.dyndns2).map_values(
        |d: Dyndns2| dyndns2_step(*prev_results, d, ip_address@),
    );
    let ghost second = cloudflare_domains_view(domain_services.cloudflare).map_values(
        |d: Cloudflare| cloudflare_step(*prev_results, d, ip_address@),
    );
    if let Some(domains) = &domain_services.dyndns2 {
        let mut i: usize = 0;
        while i < domains.len()
            invariant
                i <= domains@.len(),
                domains@ == dyndns2_domains_view(domain_services.dyndns2),
                first == domains@.map_values(|d: Dyndns2| dyndns2_step(*prev_results, d, ip_address@)),
                steps@.len() == i,
                forall|j: int| 0 <= j < i ==> #[trigger] steps@[j]@ == first[j],
            decreases domains@.len() - i,
        {
            steps.push(plan_dyndns2_domain(prev_results, &domains[i], ip_address));
            assert(first[i as int] == dyndns2_step(*prev_results, domains@[i as int], ip_address@));
            i = i + 1;
        }
    }
    assert(steps_view(steps@) =~= first);
    if let Some(domains) = &domain_services.cloudflare {
        let mut i: usize = 0;
        let base = steps.len();
        while i < domains.len()
            invariant
                i <= domains@.len(),
                domains@ == cloudflare_domains_view(domain_services.cloudflare),
                second == domains@.map_values(
                    |d: Cloudflare| cloudflare_step(*prev_results, d, ip_address@),
                ),
                base == first.len(),
                steps@.len() == base + i,
                forall|j: int| 0 <= j < base ==> #[trigger] steps@[j]@ == first[j],
                forall|j: int| 0 <= j < i ==> #[trigger] steps@[base + j]@ == second[j],
            decreases domains@.len() - i,
        {
            steps.push(plan_cloudflare_domain(prev_results, &domains[i], ip_address));
            assert(second[i as int] == cloudflare_step(*prev_results, domains@[i as int], ip_address@));
            i = i + 1;
        }
        assert forall|j: int| 0 <= j < steps@.len() implies #[trigger] steps_view(steps@)[j] == (first
            + second)[j] by {
            if j >= base {
                assert(steps@[base + (j - base)]@ == second[j - base]);
            }
        }
    }
    assert(steps_view(steps@) =~= first + second);
    steps
}

/// How an update request fared.
#[derive(Clone, Debug)]
pub enum UpdateOutcome {
    /// The request could not be built or sent; the error says why.
    Failed(String),
    /// The service answered. For cloudflare, `body` is the answer's body
    /// read as a [`CloudflareMinimalResponseBody`] (none where it is not
    /// one).
    Responded { response: ResponseJson, body: Option<CloudflareMinimalResponseBody> },
}

/// The model of an [`UpdateOutcome`].
pub enum OutcomeView {
    Failed(Seq<char>),
    Responded(ResponseView, Option<CloudflareMinimalResponseBody>),
}

impl View for UpdateOutcome {
    type V = OutcomeView;

    open spec fn view(&self) -> OutcomeView {
        match self {
            UpdateOutcome::Failed(e) => OutcomeView::Failed(e@),
            UpdateOutcome::Responded { response, body } => OutcomeView::Responded(response@, *body),
        }
    }
}

/// A fresh result for `hostname` that holds one error.
pub open spec fn failed_domain(hostname: Seq<char>, error: Seq<char>) -> DomainView {
    DomainView { hostname, ip_address: None, response: None, errors: seq![error] }
}

/// The name and result that a step and the outcome of its request record.
/// Every answer is kept in the result. A dyndns2 answer sets the address on
/// a 2xx status with a `good` or `nochg` body; a cloudflare answer sets it
/// on status 200 with `success: true`.
pub open spec fn step_result(step: StepView, outcome: OutcomeView) -> (Seq<char>, DomainView) {
    match step {
        StepView::Keep(h, d) => (h, d),
        StepView::Failed(h, e) => (h, failed_domain(h, e)),
        StepView::Send(h, service, ip, _) => match outcome {
            OutcomeView::Failed(e) => (h, failed_domain(h, e)),
            OutcomeView::Responded(r, body) => match service {
                DomainService::Dyndns2 => (
                    h,
                    DomainView {
                        hostname: h,
                        ip_address: if dyndns2_accepted(r.status_code, r.body) {
                            Some(ip)
                        } else {
                            None
                        },
                        response: Some(r),
                        errors: Seq::empty(),
                    },
                ),
                DomainService::Cloudflare => (
                    h,
                    DomainView {
                        hostname: h,
                        ip_address: if cloudflare_accepted(r.status_code, body) {
                            Some(ip)
                        } else {
                            None
                        },
                        response: Some(r),
                        errors: Seq::empty(),
                    },
                ),
            },
        },
    }
}

/// The results after recording the first `n` steps in order; a later
/// result for the same name replaces an earlier one.
pub open spec fn applied_steps(steps: Seq<StepView>, outcomes: Seq<OutcomeView>, n: int) -> Map<
    Seq<char>,
    DomainView,
>
    decreases n,
{
    if n <= 0 {
        Map::empty()
    } else {
        let (h, d) = step_result(steps[n - 1], outcomes[n - 1]);
        applied_steps(steps, outcomes, n - 1).insert(h, d)
    }
}

pub open spec fn outcomes_view(outcomes: Seq<UpdateOutcome>) -> Seq<OutcomeView> {
    outcomes.map_values(|o: UpdateOutcome| o@)
}

fn failed_result(hostname: &String, error: &String) -> (r: DomainResult)
    ensures
        r@ == failed_domain(hostname@, error@),
{
    let mut d = DomainResult::new(hostname.as_str());
    d.errors.push(error.clone());
    assert(d@.errors =~= seq![error@]);
    d
}

/// The name and result that a step and the outcome of its request record
/// (the outcome matters only for a step that sends a request).
pub fn domain_result_for(step: &DomainStep, outcome: &UpdateOutcome) -> (r: (String, DomainResult))
    ensures
        (r.0@, r.1@) == step_result(step@, outcome@),
{
    match step {
        DomainStep::Keep { hostname, result } => (hostname.clone(), result.duplicate()),
        DomainStep::Failed { hostname, error } => (hostname.clone(), failed_result(hostname, error)),
        DomainStep::Send { hostname, service, ip_address, request: _ } => match outcome {
            UpdateOutcome::Failed(e) => (hostname.clone(), failed_result(hostname, e)),
            UpdateOutcome::Responded { response, body } => {
                let mut d = DomainResult::new(hostname.as_str());
                match service {
                    DomainService::Dyndns2 => {
                        if dyndns2::verify_resposne(response) {
                            d.ip_address = Some(ip_address.clone());
                        }
                        d.response = Some(response.duplicate());
                    },
                    DomainService::Cloudflare => {
                        if cloudflare::verify_resposne(response, body) {
                            d.ip_address = Some(ip_address.clone());
                        }
                        d.response = Some(response.duplicate());
                    },
                }
                (hostname.clone(), d)
            },
        },
    }
}

/// Records every step's result in order, the outcome of the `i`-th request
/// at position `i` of `outcomes` (ignored for steps that send nothing).
pub fn apply_domain_updates(steps: &Vec<DomainStep>, outcomes: &Vec<UpdateOutcome>) -> (r: ResultMap<
    DomainResult,
>)
    requires
        steps@.len() == outcomes@.len(),
    ensures
        r@ == applied_steps(steps_view(steps@), outcomes_view(outcomes@), steps@.len() as int),
{
    let mut results: ResultMap<DomainResult> = ResultMap::new();
    let mut i: usize = 0;
    while i < steps.len()
        invariant
            steps@.len() == outcomes@.len(),
            i <= steps@.len(),
            results@ == applied_steps(steps_view(steps@), outcomes_view(outcomes@), i as int),
        decreases steps@.len() - i,
    {
        let (hostname, result) = domain_result_for(&steps[i], &outcomes[i]);
        results.insert(hostname, result);
        proof {
            let sv = steps_view(steps@);
            let ov = outcomes_view(outcomes@);
            assert(sv[i as int] == steps@[i as int]@);
            assert(ov[i as int] == outcomes@[i as int]@);
        }
        i = i + 1;
    }
    results
}


/// A dyndns2 domain whose recorded address already is the address to
/// publish is not sent again: its recorded result stands.
pub proof fn lemma_dyndns2_current_domain_kept(
    prev_results: Result<UpdateIpResults, String>,
    domain: Dyndns2,
    ip_address: Seq<char>,
)
    requires
        prior_domain(prev_results, domain.hostname@).ip_address == Some(ip_address),
    ensures
        dyndns2_step(prev_results, domain, ip_address) == StepView::Keep(
            domain.hostname@,
            prior_domain(prev_results, domain.hostname@),
        ),
{
}

/// A cloudflare record whose recorded address already is the address to
/// publish is not sent again: its recorded result stands.
pub proof fn lemma_cloudflare_current_domain_kept(
    prev_results: Result<UpdateIpResults, String>,
    domain: Cloudflare,
    ip_address: Seq<char>,
)
    requires
        prior_domain(prev_results, domain.name@).ip_address == Some(ip_address),
    ensures
        cloudflare_step(prev_results, domain, ip_address) == StepView::Keep(
            domain.name@,
            prior_domain(prev_results, domain.name@),
        ),
{
}

/// A dyndns2 domain that does not hold the address to publish, and for
/// which a resend is due (the address changed, no answer is recorded, or the
/// recorded answer is `911`), is sent an update, unless its request cannot
/// be made.
pub proof fn lemma_changed_domain_updated(
    prev_results: Result<UpdateIpResults, String>,
    domain: Dyndns2,
    ip_address: Seq<char>,
)
    requires
        prior_domain(prev_results, domain.hostname@).ip_address != Some(ip_address),
        dyndns2_resend_due(prev_results, prior_domain(prev_results, domain.hostname@), ip_address),
    ensures
        dyndns2_step(prev_results, domain, ip_address) matches StepView::Send(h, s, ip, _) ==> (h
            == domain.hostname@ && s == DomainService::Dyndns2 && ip == ip_address),
        dyndns2_step(prev_results, domain, ip_address) is Send || dyndns2_step(
            prev_results,
            domain,
            ip_address,
        ) is Failed,
{
}

/// While the address stays what the previous run published, a dyndns2
/// domain whose recorded answer is not `911` is left alone: only `911` asks
/// for a retry.
pub proof fn lemma_dyndns2_answer_not_retried(
    prev_results: Result<UpdateIpResults, String>,
    domain: Dyndns2,
    ip_address: Seq<char>,
)
    requires
        previous_address(prev_results) == Some(ip_address),
        prior_domain(prev_results, domain.hostname@).response matches Some(r) && !dyndns2_asks_retry(r.body),
    ensures
        dyndns2_step(prev_results, domain, ip_address) == StepView::Keep(
            domain.hostname@,
            prior_domain(prev_results, domain.hostname@),
        ),
{
}

/// A dyndns2 domain whose recorded answer is `911` is sent its update
/// again, unless the request cannot be made.
pub proof fn lemma_dyndns2_911_retried(
    prev_results: Result<UpdateIpResults, String>,
    domain: Dyndns2,
    ip_address: Seq<char>,
)
    requires
        prior_domain(prev_results, domain.hostname@).response matches Some(r) && dyndns2_asks_retry(r.body),
        prior_domain(prev_results, domain.hostname@).ip_address != Some(ip_address),
    ensures
        dyndns2_step(prev_results, domain, ip_address) is Send || dyndns2_step(
            prev_results,
            domain,
            ip_address,
        ) is Failed,
{
}

/// A cloudflare record whose recorded address differs from the address to
/// publish (or that has no record) is sent its update, unless the request
/// cannot be built.
pub proof fn lemma_changed_cloudflare_record_updated(
    prev_results: Result<UpdateIpResults, String>,
    domain: Cloudflare,
    ip_address: Seq<char>,
)
    requires
        prior_domain(prev_results, domain.name@).ip_address != Some(ip_address),
    ensures
        request_build_error(cloudflare_request(domain, ip_address)) is None ==> cloudflare_step(
            prev_results,
            domain,
            ip_address,
        ) == StepView::Send(
            domain.name@,
            DomainService::Cloudflare,
            ip_address,
            cloudflare_request(domain, ip_address),
        ),
        request_build_error(cloudflare_request(domain, ip_address)) is Some ==> cloudflare_step(
            prev_results,
            domain,
            ip_address,
        ) is Failed,
{
}

/// Once a service has accepted an update, the next run that publishes the
/// same address leaves the domain alone (its result stands).
pub proof fn lemma_accepted_update_stands(
    step: StepView,
    outcome: OutcomeView,
    next_prev: Result<UpdateIpResults, String>,
    domain: Dyndns2,
)
    requires
        step matches StepView::Send(h, s, ip, _) && s == DomainService::Dyndns2 && h == domain.hostname@,
        outcome matches OutcomeView::Responded(r, _) && dyndns2_accepted(r.status_code, r.body),
        next_prev matches Ok(res) && res.domain_service_results@.contains_key(domain.hostname@)
            && res.domain_service_results@[domain.hostname@] == step_result(step, outcome).1,
    ensures
        step matches StepView::Send(_, _, ip, _) && dyndns2_step(next_prev, domain, ip) == StepView::Keep(
            domain.hostname@,
            step_result(step, outcome).1,
        ),
{
}

/// The same for cloudflare: an accepted update stands on the next run with
/// the same address.
pub proof fn lemma_accepted_cloudflare_update_stands(
    step: StepView,
    outcome: OutcomeView,
    next_prev: Result<UpdateIpResults, String>,
    domain: Cloudflare,
)
    requires
        step matches StepView::Send(h, s, ip, _) && s == DomainService::Cloudflare && h == domain.name@,
        outcome matches OutcomeView::Responded(r, b) && cloudflare_accepted(r.status_code, b),
        next_prev matches Ok(res) && res.domain_service_results@.contains_key(domain.name@)
            && res.domain_service_results@[domain.name@] == step_result(step, outcome).1,
    ensures
        step matches StepView::Send(_, _, ip, _) && cloudflare_step(next_prev, domain, ip)
            == StepView::Keep(domain.name@, step_result(step, outcome).1),
{
}

/// The name that a step records a result under.
pub open spec fn step_name(step: StepView, outcome: OutcomeView) -> Seq<char> {
    step_result(step, outcome).0
}

/// Recording steps in order holds a result for exactly the names of the
/// steps recorded.
pub proof fn lemma_applied_names(steps: Seq<StepView>, outcomes: Seq<OutcomeView>, n: int)
    requires
        0 <= n <= steps.len(),
        n <= outcomes.len(),
    ensures
        forall|k: Seq<char>|
            #[trigger] applied_steps(steps, outcomes, n).contains_key(k) <==> exists|j: int|
                0 <= j < n && step_name(steps[j], outcomes[j]) == k,
    decreases n,
{
    if n > 0 {
        lemma_applied_names(steps, outcomes, n - 1);
        assert forall|k: Seq<char>|
            #[trigger] applied_steps(steps, outcomes, n).contains_key(k) <==> exists|j: int|
                0 <= j < n && step_name(steps[j], outcomes[j]) == k by {
            if applied_steps(steps, outcomes, n).contains_key(k) {
                if k != step_name(steps[n - 1], outcomes[n - 1]) {
                    assert(applied_steps(steps, outcomes, n - 1).contains_key(k));
                    let j = choose|j: int| 0 <= j < n - 1 && step_name(steps[j], outcomes[j]) == k;
                    assert(0 <= j < n && step_name(steps[j], outcomes[j]) == k);
                } else {
                    assert(step_name(steps[n - 1], outcomes[n - 1]) == k);
                }
            }
            if exists|j: int| 0 <= j < n && step_name(steps[j], outcomes[j]) == k {
                let j = choose|j: int| 0 <= j < n && step_name(steps[j], outcomes[j]) == k;
                if j < n - 1 {
                    assert(applied_steps(steps, outcomes, n - 1).contains_key(k));
                }
            }
        }
    }
}

/// What is recorded for a name is the result of the last step recorded
/// under that name: a later result replaces an earlier one.
pub proof fn lemma_applied_last_result(steps: Seq<StepView>, outcomes: Seq<OutcomeView>, n: int, i: int)
    requires
        0 <= i < n <= steps.len(),
        n <= outcomes.len(),
        forall|j: int|
            i < j < n ==> #[trigger] step_name(steps[j], outcomes[j]) != step_name(steps[i], outcomes[i]),
    ensures
        applied_steps(steps, outcomes, n).contains_key(step_name(steps[i], outcomes[i])),
        applied_steps(steps, outcomes, n)[step_name(steps[i], outcomes[i])] == step_result(
            steps[i],
            outcomes[i],
        ).1,
    decreases n,
{
    if n - 1 > i {
        lemma_applied_last_result(steps, outcomes, n - 1, i);
        assert(step_name(steps[n - 1], outcomes[n - 1]) != step_name(steps[i], outcomes[i]));
    }
}


/// A plan holds exactly one step per configured dyndns2 domain, in order,
/// followed by one step per configured cloudflare record, in order; an
/// absent list contributes no steps and takes none from the other.
pub proof fn lemma_plan_layout(
    prev_results: Result<UpdateIpResults, String>,
    domain_services: DomainServices,
    ip_address: Seq<char>,
)
    ensures
        ({
            let plan = planned_steps(prev_results, domain_services, ip_address);
            let n: int = match domain_services.dyndns2 {
                Some(v) => v@.len() as int,
                None => 0,
            };
            let m: int = match domain_services.cloudflare {
                Some(v) => v@.len() as int,
                None => 0,
            };
            &&& plan.len() == n + m
            &&& domain_services.dyndns2 matches Some(v) ==> forall|i: int|
                0 <= i < n ==> #[trigger] plan[i] == dyndns2_step(prev_results, v@[i], ip_address)
            &&& domain_services.cloudflare matches Some(v) ==> forall|j: int|
                0 <= j < m ==> #[trigger] plan[n + j] == cloudflare_step(prev_results, v@[j], ip_address)
        }),
{
    let plan = planned_steps(prev_results, domain_services, ip_address);
    let first = dyndns2_domains_view(domain_services.dyndns2).map_values(
        |d: Dyndns2| dyndns2_step(prev_results, d, ip_address),
    );
    let second = cloudflare_domains_view(domain_services.cloudflare).map_values(
        |d: Cloudflare| cloudflare_step(prev_results, d, ip_address),
    );
    assert(plan == first + second);
    if let Some(v) = domain_services.cloudflare {
        assert forall|j: int| 0 <= j < v@.len() implies #[trigger] plan[first.len() + j] == cloudflare_step(
            prev_results,
            v@[j],
            ip_address,
        ) by {
            assert(second[j] == cloudflare_step(prev_results, v@[j], ip_address));
        }
    }
}

/// A dyndns2 domain whose recorded result holds no answer of the service
/// (never asked, or the request failed, whatever errors were recorded) and
/// that does not hold the address to publish is sent its update (or fails
/// to build it); it is never left alone.
pub proof fn lemma_unanswered_domain_resent(
    prev_results: Result<UpdateIpResults, String>,
    domain: Dyndns2,
    ip_address: Seq<char>,
)
    requires
        prior_domain(prev_results, domain.hostname@).response is None,
        prior_domain(prev_results, domain.hostname@).ip_address != Some(ip_address),
    ensures
        dyndns2_step(prev_results, domain, ip_address) is Send || dyndns2_step(
            prev_results,
            domain,
            ip_address,
        ) is Failed,
{
}

/// While the address stays what the previous run published, a dyndns2
/// domain whose recorded answer does not begin with `911` is left alone
/// with its recorded result; one whose answer begins with `911` and that
/// does not hold the address is sent again.
pub proof fn lemma_dyndns2_retry_by_answer(
    prev_results: Result<UpdateIpResults, String>,
    domain: Dyndns2,
    ip_address: Seq<char>,
    r: ResponseView,
)
    requires
        previous_address(prev_results) == Some(ip_address),
        prior_domain(prev_results, domain.hostname@).response == Some(r),
    ensures
        !(r.body.len() >= 3 && r.body[0] == '9' && r.body[1] == '1' && r.body[2] == '1')
            ==> dyndns2_step(prev_results, domain, ip_address) == StepView::Keep(
            domain.hostname@,
            prior_domain(prev_results, domain.hostname@),
        ),
        (r.body.len() >= 3 && r.body[0] == '9' && r.body[1] == '1' && r.body[2] == '1'
            && prior_domain(prev_results, domain.hostname@).ip_address != Some(ip_address)) ==> (
        dyndns2_step(prev_results, domain, ip_address) is Send || dyndns2_step(
            prev_results,
            domain,
            ip_address,
        ) is Failed),
{
    lemma_retry_only_on_911(r.body);
}

} // verus!
