//! The domains that are kept up to date, per DNS service.
use vstd::prelude::*;

verus! {

/// A DNS record at cloudflare, and the values its update sets.
#[derive(Clone, Debug)]
pub struct Cloudflare {
    pub email: String,
    pub zone_id: String,
    pub dns_record_id: String,
    pub api_token: String,
    pub name: String,
    pub record_type: String,
    pub proxied: Option<bool>,
    pub comment: Option<String>,
    pub tags: Option<Vec<String>>,
    pub ttl: Option<usize>,
}

/// A host name at a service that speaks the dyndns2 protocol.
#[derive(Clone, Debug)]
pub struct Dyndns2 {
    pub service_uri: String,
    pub hostname: String,
    pub username: String,
    pub password: String,
}

/// The configured domains of each service.
#[derive(Clone, Debug)]
pub struct DomainServices {
    pub cloudflare: Option<Vec<Cloudflare>>,
    pub dyndns2: Option<Vec<Dyndns2>>,
}

} // verus!
