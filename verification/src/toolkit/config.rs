//! The configuration of a run.
use vstd::prelude::*;

use vstd::string::StrSliceExecFns;

use crate::text::{owned, starts_with};
use crate::toolkit::domain_services::DomainServices;
use crate::toolkit::requests::opt_view;

verus! {

/// Ip services as pairs of a URL and the kind of response it gives.
pub type IpServices = Vec<(String, String)>;

/// Where results are kept, which ip services may be asked, and which
/// domains are kept up to date.
#[derive(Clone, Debug)]
pub struct Config {
    pub results_filepath: String,
    pub ip_services: IpServices,
    pub domain_services: DomainServices,
}


/// The environment variable that a configured secret names: a value
/// `ENV:<name>` stands for the value of variable `<name>`.
pub open spec fn env_reference(value: Seq<char>) -> Option<Seq<char>> {
    if value.len() >= 4 && value.take(4) == "ENV:"@ {
        Some(value.skip(4))
    } else {
        None
    }
}

/// The name of the environment variable that a password or API key
/// refers to with the prefix `ENV:`; none for a value given as is.
pub fn env_variable_name(value: &str) -> (r: Option<String>)
    ensures
        match r {
            Some(name) => env_reference(value@) == Some(name@),
            None => env_reference(value@) is None,
        },
{
    proof {
        reveal_strlit("ENV:");
    }
    if starts_with(value, "ENV:") {
        let n = value.unicode_len();
        let name = value.substring_char(4, n);
        assert(value@.subrange(4, n as int) =~= value@.skip(4));
        Some(owned(name))
    } else {
        None
    }
}


/// The parent directory of a path as `std::path::Path::parent` finds it
/// (none for a root or an empty path).
pub uninterp spec fn parent_of(path: Seq<char>) -> Option<Seq<char>>;

/// A path joined onto a directory as `std::path::Path::join` does it (an
/// absolute `path` replaces the directory).
pub uninterp spec fn joined(base: Seq<char>, path: Seq<char>) -> Seq<char>;

/// Calls `std::path::Path::parent` on `path`, turning the parent into text.
/// The contract claims only that the outcome is [`parent_of`] of the path.
#[verifier::external_body]
fn path_parent(path: &str) -> (r: Option<String>)
    ensures
        opt_view(r) == parent_of(path@),
{
    std::path::Path::new(path).parent().map(|p| p.to_string_lossy().into_owned())
}

/// Calls `std::path::Path::join` on `base` and `path`, turning the result
/// into text. The contract claims only that the outcome is [`joined`] of the
/// two.
#[verifier::external_body]
fn path_join(base: &str, path: &str) -> (r: String)
    ensures
        r@ == joined(base@, path@),
{
    std::path::Path::new(base).join(path).to_string_lossy().into_owned()
}

/// Where the results are kept: `results_filepath` taken relative to the
/// directory of the configuration file at `config_path` (an absolute path);
/// none where that path has no parent directory.
pub fn resolve_results_filepath(config_path: &str, results_filepath: &str) -> (r: Option<String>)
    ensures
        r is None <==> parent_of(config_path@) is None,
        r matches Some(p) ==> p@ == joined(parent_of(config_path@)->0, results_filepath@),
{
    match path_parent(config_path) {
        None => None,
        Some(parent_dir) => Some(path_join(parent_dir.as_str(), results_filepath)),
    }
}

} // verus!
