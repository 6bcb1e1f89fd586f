//! The trusted boundary around `reqwest`.
//!
//! The transport handle is opaque: the library prepares requests and
//! interprets responses, and the sender performs the round trip.

use vstd::prelude::*;

verus! {

#[verifier::external_type_specification]
#[verifier::external_body]
pub struct ExHttpClient(reqwest::Client);

/// Relies on `reqwest::Client::new`: a fresh transport handle with the
/// default configuration (it can fail only while initializing a TLS
/// backend, and none is configured).  Nothing is promised of the handle.
#[verifier::external_body]
pub(crate) fn new_http_client() -> reqwest::Client {
    reqwest::Client::new()
}

} // verus!
