//! Shared types: requests and responses, results, configuration.
pub mod config;
pub mod domain_services;
pub mod requests;
pub mod result_map;
pub mod results;
