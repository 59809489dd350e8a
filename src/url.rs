//! Construction of the login URL and the device endpoint URLs.

use vstd::prelude::*;
use vstd::string::StringExecFns;

verus! {

/// The path of the login endpoint, relative to the domain.
pub open spec fn login_path() -> Seq<char> {
    "/api-token-auth/"@
}

/// The path that leads from the domain to the device endpoints.
pub open spec fn device_api_path() -> Seq<char> {
    "/external-connection/api/"@
}

/// `{domain}/api-token-auth/`
pub open spec fn login_url_text(domain: Seq<char>) -> Seq<char> {
    domain + login_path()
}

/// `{domain}/external-connection/api/{simulation_id}/{device_id}/`
pub open spec fn url_prefix_text(
    domain: Seq<char>,
    simulation_id: Seq<char>,
    device_id: Seq<char>,
) -> Seq<char> {
    domain + device_api_path() + simulation_id + "/"@ + device_id + "/"@
}

/// `{domain}/external-connection/api/{simulation_id}/{device_id}/{suffix}`
pub open spec fn endpoint_url_text(
    domain: Seq<char>,
    simulation_id: Seq<char>,
    device_id: Seq<char>,
    suffix: Seq<char>,
) -> Seq<char> {
    url_prefix_text(domain, simulation_id, device_id) + suffix
}

/// The URL of the login endpoint of `domain_name`.
pub fn login_url(domain_name: &str) -> (r: String)
    ensures
        r@ == login_url_text(domain_name@),
{
    let mut url = domain_name.to_owned();
    url.append("/api-token-auth/");
    url
}

/// The URL under which every endpoint of one device of one simulation lies.
pub fn url_prefix(domain_name: &str, simulation_id: &str, device_id: &str) -> (r: String)
    ensures
        r@ == url_prefix_text(domain_name@, simulation_id@, device_id@),
{
    let mut url = domain_name.to_owned();
    url.append("/external-connection/api/");
    url.append(simulation_id);
    url.append("/");
    url.append(device_id);
    url.append("/");
    url
}

/// `prefix` followed verbatim by `suffix`.
pub fn join_endpoint(prefix: &str, suffix: &str) -> (r: String)
    ensures
        r@ == prefix@ + suffix@,
{
    let mut url = prefix.to_owned();
    url.append(suffix);
    url
}

} // verus!
