//! Choosing an ip service and reading the address it reports.
use rand::Rng;
use vstd::prelude::*;

use crate::text::{owned, str_eq};
use crate::toolkit::requests::{ResponseJson, ResponseView};
use crate::toolkit::results::{IpServiceResult, IpServiceView, UpdateIpResults};

verus! {

/// The service name used when there are no previous results.
pub open spec fn no_previous_service() -> Seq<char> {
    "previous-results-do-not-exist"@
}

/// The ip service that the previous run asked, if there was one.
pub open spec fn previous_service_of(prev_results: Result<UpdateIpResults, String>) -> Seq<char> {
    match prev_results {
        Ok(results) => results.ip_service_result.service@,
        Err(_) => no_previous_service(),
    }
}

/// The name of the ip service that the previous run asked, or
/// "previous-results-do-not-exist" where there are no previous results.
pub fn previous_service(prev_results: &Result<UpdateIpResults, String>) -> (r: String)
    ensures
        r@ == previous_service_of(*prev_results),
{
    match prev_results {
        Ok(results) => results.ip_service_result.service.clone(),
        Err(_) => owned("previous-results-do-not-exist"),
    }
}

/// Whether `i` is the first position whose service URL is `prev`.
pub open spec fn is_first_index(services: Seq<(String, String)>, prev: Seq<char>, i: int) -> bool {
    &&& 0 <= i < services.len()
    &&& services[i].0@ == prev
    &&& forall|j: int| 0 <= j < i ==> services[j].0@ != prev
}

/// The first position whose service URL is `prev`, if any.
pub open spec fn first_index(services: Seq<(String, String)>, prev: Seq<char>) -> Option<int> {
    if exists|i: int| is_first_index(services, prev, i) {
        Some(choose|i: int| is_first_index(services, prev, i))
    } else {
        None
    }
}

/// How many services a random pick chooses among: all of them, less the
/// previous one where it is listed.
pub open spec fn candidate_count(services: Seq<(String, String)>, prev: Seq<char>) -> int {
    match first_index(services, prev) {
        Some(_) => services.len() - 1,
        None => services.len() as int,
    }
}

/// The position that random number `random` picks: none from an empty
/// list, the only one from a list of one, and otherwise the `random`-th
/// service when the previous one is skipped.
pub open spec fn selected_index(services: Seq<(String, String)>, prev: Seq<char>, random: int) -> Option<int> {
    if services.len() == 0 {
        None
    } else if services.len() == 1 {
        Some(0)
    } else {
        match first_index(services, prev) {
            Some(k) => if random >= k {
                Some(random + 1)
            } else {
                Some(random)
            },
            None => Some(random),
        }
    }
}

pub open spec fn pair_view(p: (String, String)) -> (Seq<char>, Seq<char>) {
    (p.0@, p.1@)
}

pub open spec fn selection_matches(
    services: Seq<(String, String)>,
    r: Option<(String, String)>,
    index: Option<int>,
) -> bool {
    match index {
        None => r is None,
        Some(i) => r matches Some(p) && pair_view(p) == pair_view(services[i]),
    }
}

fn find_first(services: &Vec<(String, String)>, prev: &str) -> (r: Option<usize>)
    ensures
        match r {
            Some(i) => is_first_index(services@, prev@, i as int),
            None => first_index(services@, prev@) is None,
        },
        r matches Some(i) ==> first_index(services@, prev@) == Some(i as int),
{
    let n = services.len();
    let mut i: usize = 0;
    while i < n
        invariant
            n == services@.len(),
            i <= n,
            forall|j: int| 0 <= j < i ==> services@[j].0@ != prev@,
        decreases n - i,
    {
        if str_eq(services[i].0.as_str(), prev) {
            proof {
                assert(is_first_index(services@, prev@, i as int));
                let k = choose|k: int| is_first_index(services@, prev@, k);
                if k < i {
                    assert(services@[k].0@ != prev@);
                }
                if k > i {
                    assert(services@[i as int].0@ != prev@);
                }
            }
            return Some(i);
        }
        i = i + 1;
    }
    proof {
        if exists|k: int| is_first_index(services@, prev@, k) {
            let k = choose|k: int| is_first_index(services@, prev@, k);
            assert(services@[k].0@ != prev@);
        }
    }
    None
}

fn copy_pair(p: &(String, String)) -> (r: (String, String))
    ensures
        pair_view(r) == pair_view(*p),
{
    (p.0.clone(), p.1.clone())
}

/// Picks a service from a random number below [`candidate_count`]: a list
/// of one gives its only service; otherwise the previous service (its first
/// listing) is left out and `random` counts the others in order.
pub fn select_ip_service(ip_services: &Vec<(String, String)>, prev_service: &str, random: usize) -> (r:
    Option<(String, String)>)
    requires
        ip_services@.len() >= 2 ==> random < candidate_count(ip_services@, prev_service@),
    ensures
        selection_matches(ip_services@, r, selected_index(ip_services@, prev_service@, random as int)),
{
    if ip_services.len() == 0 {
        return None;
    }
    if ip_services.len() == 1 {
        return Some(copy_pair(&ip_services[0]));
    }
    let prev_index = find_first(ip_services, prev_service);
    let mut index = random;
    if let Some(k) = prev_index {
        if random >= k {
            index = random + 1;
        }
    }
    Some(copy_pair(&ip_services[index]))
}

/// A first listing, where there is one, is a position of the list.
pub proof fn lemma_first_index_in_range(services: Seq<(String, String)>, prev: Seq<char>)
    ensures
        first_index(services, prev) matches Some(k) ==> is_first_index(services, prev, k),
{
}

/// A pick among two or more services lands on a listed service and never
/// on the listing of the service asked last time.
pub proof fn lemma_selection_avoids_previous(services: Seq<(String, String)>, prev: Seq<char>, random: int)
    requires
        services.len() >= 2,
        0 <= random < candidate_count(services, prev),
    ensures
        selected_index(services, prev, random) matches Some(i) && 0 <= i < services.len() && (
        first_index(services, prev) matches Some(k) ==> i != k),
{
    lemma_first_index_in_range(services, prev);
}

/// Every listing other than the previous service's can be picked.
pub proof fn lemma_selection_reaches_every_other(services: Seq<(String, String)>, prev: Seq<char>, i: int)
    requires
        services.len() >= 2,
        0 <= i < services.len(),
        first_index(services, prev) matches Some(k) ==> i != k,
    ensures
        exists|random: int|
            0 <= random < candidate_count(services, prev) && selected_index(services, prev, random) == Some(
                i,
            ),
{
    lemma_first_index_in_range(services, prev);
    match first_index(services, prev) {
        Some(k) => {
            if i < k {
                assert(selected_index(services, prev, i) == Some(i));
            } else {
                assert(selected_index(services, prev, i - 1) == Some(i));
            }
        },
        None => {
            assert(selected_index(services, prev, i) == Some(i));
        },
    }
}

/// A number drawn at random from `0..n` with `rand::thread_rng().gen_range`
/// (which panics on an empty range, hence `n > 0`). Nothing is claimed of
/// which number comes.
#[verifier::external_body]
fn random_below(n: usize) -> (r: usize)
    requires
        n > 0,
    ensures
        r < n,
{
    rand::thread_rng().gen_range(0..n)
}

/// Chooses an ip service at random, avoiding the one asked last time where
/// there is another: none from an empty list, the only one from a list of
/// one.
pub fn get_random_ip_service(ip_services: &Vec<(String, String)>, prev_service: &str) -> (r: Option<
    (String, String),
>)
    ensures
        ip_services@.len() == 0 ==> r is None,
        ip_services@.len() == 1 ==> selection_matches(ip_services@, r, Some(0)),
        ip_services@.len() >= 2 ==> exists|random: int|
            0 <= random < candidate_count(ip_services@, prev_service@) && selection_matches(
                ip_services@,
                r,
                selected_index(ip_services@, prev_service@, random),
            ),
{
    if ip_services.len() < 2 {
        return select_ip_service(ip_services, prev_service, 0);
    }
    let prev_index = find_first(ip_services, prev_service);
    let length = match prev_index {
        Some(_) => ip_services.len() - 1,
        None => ip_services.len(),
    };
    let random = random_below(length);
    let r = select_ip_service(ip_services, prev_service, random);
    assert(0 <= random as int && (random as int) < candidate_count(ip_services@, prev_service@));
    r
}

pub open spec fn ok_pair(r: Result<(String, String), String>) -> Option<(String, String)> {
    match r {
        Ok(p) => Some(p),
        Err(_) => None,
    }
}

/// The ip service of this run: a random one, avoiding the service that the
/// previous results name where there is another; the error "failed to find
/// ip service" where none is configured.
pub fn choose_ip_service(
    ip_services: &Vec<(String, String)>,
    prev_results: &Result<UpdateIpResults, String>,
) -> (r: Result<(String, String), String>)
    ensures
        r is Err <==> ip_services@.len() == 0,
        r matches Err(e) ==> e@ == "failed to find ip service"@,
        ip_services@.len() == 1 ==> selection_matches(ip_services@, ok_pair(r), Some(0)),
        ip_services@.len() >= 2 ==> exists|random: int|
            0 <= random < candidate_count(ip_services@, previous_service_of(*prev_results))
                && selection_matches(
                ip_services@,
                ok_pair(r),
                selected_index(ip_services@, previous_service_of(*prev_results), random),
            ),
{
    let service = previous_service(prev_results);
    match get_random_ip_service(ip_services, service.as_str()) {
        Some(pair) => Ok(pair),
        None => Err(owned("failed to find ip service")),
    }
}

/// The result of reading an address from a response whose body was parsed
/// as an ip address by the caller (`parsed` is the parsed address in its
/// canonical form, none where the body is no address).
pub open spec fn address_from_body(status_code: u16, parsed: Option<Seq<char>>) -> Result<Seq<char>, Seq<char>> {
    if status_code != 200 {
        Err("response_json was not okay"@)
    } else {
        match parsed {
            Some(a) => Ok(a),
            None => Err("ip address could not be parsed from response_json"@),
        }
    }
}

pub open spec fn string_result_view(r: Result<String, String>) -> Result<Seq<char>, Seq<char>> {
    match r {
        Ok(s) => Ok(s@),
        Err(e) => Err(e@),
    }
}

pub open spec fn opt_text(o: Option<String>) -> Option<Seq<char>> {
    match o {
        Some(s) => Some(s@),
        None => None,
    }
}

/// The address an ip service reported: the response must have status 200
/// and its trimmed body must be an ip address; `parsed_address` is that
/// address as the caller's ip parser writes it, none where it is not one.
pub fn get_ip_address_from_body(response_json: &ResponseJson, parsed_address: Option<String>) -> (r:
    Result<String, String>)
    ensures
        string_result_view(r) == address_from_body(response_json.status_code, opt_text(parsed_address)),
{
    if response_json.status_code != 200 {
        return Err(owned("response_json was not okay"));
    }
    match parsed_address {
        Some(addr) => Ok(addr),
        None => Err(owned("ip address could not be parsed from response_json")),
    }
}

/// What an ip service's answer makes of the run's ip service result.
pub open spec fn ip_service_outcome(
    service: Seq<char>,
    response: ResponseView,
    parsed: Option<Seq<char>>,
) -> Result<IpServiceView, Seq<char>> {
    match address_from_body(response.status_code, parsed) {
        Err(e) => Err(e),
        Ok(a) => Ok(IpServiceView { service, ip_address: Some(a), response: Some(response) }),
    }
}

pub open spec fn ip_result_view(r: Result<IpServiceResult, String>) -> Result<IpServiceView, Seq<char>> {
    match r {
        Ok(x) => Ok(x@),
        Err(e) => Err(e@),
    }
}

/// The ip service result for `service` from its response: the response and
/// the address it holds, or why there is none.
pub fn ip_service_result_from_response(
    service: &str,
    response: ResponseJson,
    parsed_address: Option<String>,
) -> (r: Result<IpServiceResult, String>)
    ensures
        ip_result_view(r) == ip_service_outcome(service@, response@, opt_text(parsed_address)),
{
    match get_ip_address_from_body(&response, parsed_address) {
        Ok(addr) => {
            let mut ip_struct = IpServiceResult::new(service);
            ip_struct.response = Some(response);
            ip_struct.ip_address = Some(addr);
            Ok(ip_struct)
        },
        Err(e) => Err(e),
    }
}

} // verus!
