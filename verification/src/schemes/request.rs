//! The shared HTTP plumbing of the `http`, `https`, `git`, and `ipfs`
//! handlers: one client configuration and one blocking GET, both thin
//! trusted calls into ureq. What a request returns depends on the
//! network, so nothing is promised of it beyond its shape.

use vstd::prelude::*;

use crate::RequestConfig;

verus! {

/// ureq's blocking HTTP client, carried opaquely.
#[verifier::external_type_specification]
#[verifier::external_body]
pub struct ExAgent(ureq::Agent);

/// Relies on ureq's `Agent`: a blocking HTTP client with a fixed
/// identifying user-agent string, ureq's default redirect-following
/// policy, ureq's default rustls TLS, and a 30-second global timeout.
#[verifier::external_body]
pub(crate) fn new_agent() -> ureq::Agent {
    ureq::Agent::config_builder()
        .user_agent("gofer/0.1.0")
        .timeout_global(Some(std::time::Duration::from_secs(30)))
        .build()
        .into()
}

/// Relies on ureq's `RequestBuilder::call`: a blocking GET of the URL;
/// on success the response body is handed back, otherwise ureq's error,
/// rendered as text.
#[verifier::external_body]
pub(crate) fn fetch(agent: &ureq::Agent, url: &str) -> Result<ureq::Body, String> {
    match agent.get(url).call() {
        Ok(response) => Ok(response.into_body()),
        Err(e) => Err(format!("{}", e)),
    }
}

/// Relies on ureq's `RequestBuilder::header` and `call`: each configured
/// header pair is added to the GET request in insertion order before it
/// is sent.
#[verifier::external_body]
pub(crate) fn fetch_with_config(agent: &ureq::Agent, url: &str, config: &RequestConfig) -> Result<
    ureq::Body,
    String,
> {
    let mut request = agent.get(url);
    for (key, value) in &config.headers {
        request = request.header(key.as_str(), value.as_str());
    }
    match request.call() {
        Ok(response) => Ok(response.into_body()),
        Err(e) => Err(format!("{}", e)),
    }
}

} // verus!
