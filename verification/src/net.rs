//! The HTTP client that the chain clients and the dashboard send requests with.

use vstd::prelude::*;

verus! {

/// `reqwest::Client`, an HTTP client with a connection pool.
#[verifier::external_type_specification]
#[verifier::external_body]
pub struct ExHttpClient(reqwest::Client);

/// `reqwest::Client::new()`. The client is opaque; nothing is stated of it.
/// `Client::new` panics where `ClientBuilder::build` fails, which its
/// documentation ties to a TLS backend or a resolver configuration; this
/// crate builds reqwest without TLS and with the default resolver, where the
/// source of `build` shows no failing path.
#[verifier::external_body]
pub fn new_http_client() -> reqwest::Client {
    reqwest::Client::new()
}

/// `Client::clone`: another handle on the same connection pool. Nothing is
/// stated of it.
pub assume_specification[ <reqwest::Client as std::clone::Clone>::clone ](client: &reqwest::Client) -> reqwest::Client;

} // verus!
