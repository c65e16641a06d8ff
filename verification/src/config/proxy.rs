//! The proxy of `reqwest`, as the configuration sets it up.

use reqwest::Proxy;
use vstd::prelude::*;

verus! {

/// `Proxy` of `reqwest`: where the traffic is sent through.
#[verifier::external_type_specification]
#[verifier::external_body]
pub struct ExProxy(Proxy);

/// `Error` of `reqwest`.
#[verifier::external_type_specification]
#[verifier::external_body]
pub struct ExReqwestError(reqwest::Error);

/// Whether `reqwest` takes `url` as the address of a proxy.
pub uninterp spec fn proxy_url_accepted(url: Seq<char>) -> bool;

/// `Proxy::all` of `reqwest`: a proxy for all traffic at `url`, or the
/// error on an address that cannot be read. Which of the two depends on
/// the text of `url` alone.
#[verifier::external_body]
pub(crate) fn proxy_all(url: &str) -> (proxy: Result<Proxy, reqwest::Error>)
    ensures
        proxy is Ok == proxy_url_accepted(url@),
{
    Proxy::all(url)
}

/// The message of an error of `reqwest`, by its `Display`.
#[verifier::external_body]
pub(crate) fn reqwest_error_message(error: &reqwest::Error) -> String {
    error.to_string()
}

} // verus!
