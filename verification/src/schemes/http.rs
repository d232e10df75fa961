//! The `http:` and `https:` schemes: one blocking GET of the URL, with
//! the response body handed back as a lazily consumed stream. The
//! request's outcome depends on the network, so the contract promises
//! the shape of every outcome, not success.

use vstd::prelude::*;

use crate::error::Error;
use crate::schemes::request;
use crate::stream::Stream;
use crate::url::Url;
use crate::RequestConfig;

verus! {

/// What an HTTP(S) fetch returns: a stream backed by the live response
/// body on success, and `FailedHttpRequest` carrying the rendered cause
/// where the transport or the server failed.
pub open spec fn http_fetch_post(r: Result<Stream, Error>) -> bool {
    (r matches Ok(st) && st matches Stream::Http(_)) || (r matches Err(e) && e
        matches Error::FailedHttpRequest(_))
}

/// Performs a GET of the URL and returns the response body as a stream.
/// The `secure` flag is informative: the URL's own scheme selects TLS,
/// which the shared client always supports.
pub fn open(url: &Url, _secure: bool) -> (r: Result<Stream, Error>)
    ensures
        http_fetch_post(r),
{
    let agent = request::new_agent();
    match request::fetch(&agent, url.as_str()) {
        Ok(body) => Ok(Stream::Http(body)),
        Err(m) => Err(Error::FailedHttpRequest(m)),
    }
}

/// Performs a GET of the URL with the configured headers added to the
/// request, and returns the response body as a stream.
pub fn open_with_config(url: &Url, _secure: bool, config: RequestConfig) -> (r: Result<
    Stream,
    Error,
>)
    ensures
        http_fetch_post(r),
{
    let agent = request::new_agent();
    match request::fetch_with_config(&agent, url.as_str(), &config) {
        Ok(body) => Ok(Stream::Http(body)),
        Err(m) => Err(Error::FailedHttpRequest(m)),
    }
}

} // verus!
