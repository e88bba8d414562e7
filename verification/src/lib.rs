//! Dynamic DNS updates: choose an ip service, read the public address it
//! reports, and tell each configured DNS service (dyndns2, cloudflare) about
//! a changed address. The decisions, request texts and result bookkeeping
//! live here; the network and file work is done by the program around it.
pub mod address_tracking;
pub mod domain_services;
pub mod errors;
pub mod ip_services;
pub mod text;
pub mod toolkit;
