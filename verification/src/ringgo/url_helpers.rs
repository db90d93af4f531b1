//! The addresses of the provider's endpoints.

use vstd::prelude::*;

verus! {

/// Where the provider's API lives. Every endpoint hangs below it.
pub const API_BASE_URL: &'static str = "https://api-blue.myringgo.co.uk";

/// The address made of the API's base and `path`.
pub open spec fn spec_endpoint(path: Seq<char>) -> Seq<char> {
    API_BASE_URL@ + path
}

/// The address at which credentials are exchanged for an access token.
pub open spec fn spec_login_url() -> Seq<char> {
    spec_endpoint("/auth/v1/pword"@)
}

/// The address that lists the account's parking sessions in Great Britain.
pub open spec fn spec_parking_sessions_url() -> Seq<char> {
    spec_endpoint("/user/sessions/receipts/1?CountryCode=GB"@)
}

/// The address at which a resource access token is requested.
pub open spec fn spec_request_download_url() -> Seq<char> {
    spec_endpoint("/resource/accesstoken"@)
}

/// The address from which the receipt behind `resource_access_token` is
/// fetched. The token is appended as it is, without escaping.
pub open spec fn spec_download_url(resource_access_token: Seq<char>) -> Seq<char> {
    spec_endpoint("/user/session/receipt/"@) + resource_access_token
}

fn endpoint(path: &str) -> (url: String)
    ensures
        url@ == spec_endpoint(path@),
{
    String::from_str(API_BASE_URL).concat(path)
}

/// Returns the address at which credentials are exchanged for an access
/// token.
pub fn login_url() -> (url: String)
    ensures
        url@ == spec_login_url(),
{
    endpoint("/auth/v1/pword")
}

/// Returns the address that lists the account's parking sessions.
pub fn parking_sessions_url() -> (url: String)
    ensures
        url@ == spec_parking_sessions_url(),
{
    endpoint("/user/sessions/receipts/1?CountryCode=GB")
}

/// Returns the address at which a resource access token is requested.
pub fn request_download_url() -> (url: String)
    ensures
        url@ == spec_request_download_url(),
{
    endpoint("/resource/accesstoken")
}

/// Returns the address from which the receipt behind
/// `resource_access_token` is fetched.
pub fn download_url(resource_access_token: &str) -> (url: String)
    ensures
        url@ == spec_download_url(resource_access_token@),
{
    endpoint("/user/session/receipt/").concat(resource_access_token)
}

} // verus!
