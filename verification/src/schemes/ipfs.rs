//! The `ipfs:` scheme: content-addressed data is fetched through an
//! HTTPS gateway. The rewriting of `ipfs://<content-id>` to the gateway
//! URL is pure and fully verified; the fetch then delegates to the
//! shared HTTP plumbing.

use vstd::prelude::*;

use crate::error::Error;
use crate::schemes::http::http_fetch_post;
use crate::schemes::request;
use crate::stream::Stream;
use crate::strutil::{spec_starts_with, starts_with};
use crate::url::Url;
use crate::RequestConfig;

verus! {

/// The gateway URL that an IPFS URL maps to: `ipfs://<content-id>`
/// becomes `https://ipfs.io/ipfs/<content-id>`. A string without the
/// `ipfs://` prefix maps to nothing.
pub open spec fn map_ipfs_spec(s: Seq<char>) -> Option<Seq<char>> {
    if spec_starts_with(s, "ipfs://"@) {
        Some("https://ipfs.io/ipfs/"@ + s.subrange(7, s.len() as int))
    } else {
        None
    }
}

/// What the IPFS mapping returns: exactly the gateway URL where one
/// exists, and `InvalidIpfsUrl` carrying the original string where the
/// `ipfs://` prefix is missing.
pub open spec fn map_ipfs_post(s: Seq<char>, r: Result<String, Error>) -> bool {
    match map_ipfs_spec(s) {
        Some(t) => r matches Ok(u) && u@ == t,
        None => r matches Err(e) && e matches Error::InvalidIpfsUrl(x) && x@ == s,
    }
}

/// Maps an IPFS URL to the gateway URL that serves its content.
pub fn map_ipfs_url_to_gateway_url(url_str: &str) -> (r: Result<String, Error>)
    ensures
        map_ipfs_post(url_str@, r),
{
    if !starts_with(url_str, "ipfs://") {
        return Err(Error::InvalidIpfsUrl(url_str.to_owned()));
    }
    let n = url_str.unicode_len();
    proof {
        reveal_strlit("ipfs://");
    }
    let id = url_str.substring_char(7, n);
    let out = String::from_str("https://ipfs.io/ipfs/").concat(id);
    Ok(out)
}

/// What opening an `ipfs:` URL returns: `InvalidIpfsUrl` carrying the
/// URL where the prefix is missing, else whatever fetching the gateway
/// URL gave.
pub open spec fn ipfs_open_post(s: Seq<char>, r: Result<Stream, Error>) -> bool {
    match map_ipfs_spec(s) {
        Some(_) => http_fetch_post(r),
        None => r matches Err(e) && e matches Error::InvalidIpfsUrl(x) && x@ == s,
    }
}

/// Fetches the content the IPFS URL names, through the gateway.
pub fn open(url: &Url) -> (r: Result<Stream, Error>)
    ensures
        ipfs_open_post(url@.raw, r),
{
    let agent = request::new_agent();
    let gateway_url = match map_ipfs_url_to_gateway_url(url.as_str()) {
        Ok(u) => u,
        Err(e) => {
            return Err(e);
        },
    };
    match request::fetch(&agent, gateway_url.as_str()) {
        Ok(body) => Ok(Stream::Http(body)),
        Err(m) => Err(Error::FailedHttpRequest(m)),
    }
}

/// Fetches the content the IPFS URL names, through the gateway, with
/// the configured headers added to the request.
pub fn open_with_config(url: &Url, config: RequestConfig) -> (r: Result<Stream, Error>)
    ensures
        ipfs_open_post(url@.raw, r),
{
    let agent = request::new_agent();
    let gateway_url = match map_ipfs_url_to_gateway_url(url.as_str()) {
        Ok(u) => u,
        Err(e) => {
            return Err(e);
        },
    };
    match request::fetch_with_config(&agent, gateway_url.as_str(), &config) {
        Ok(body) => Ok(Stream::Http(body)),
        Err(m) => Err(Error::FailedHttpRequest(m)),
    }
}

/// The IPFS mapping is pure: for one input string, any two results the
/// mapping contract admits agree — the same gateway URL on success, and
/// the same error kind carrying the same string on failure —
/// independently of any prior call.
pub proof fn lemma_map_ipfs_pure(s: Seq<char>, r1: Result<String, Error>, r2: Result<
    String,
    Error,
>)
    requires
        map_ipfs_post(s, r1),
        map_ipfs_post(s, r2),
    ensures
        r1 is Ok <==> r2 is Ok,
        r1 is Ok && r2 is Ok ==> r1->Ok_0@ == r2->Ok_0@,
        r1 is Err && r2 is Err ==> ((r1->Err_0 matches Error::InvalidIpfsUrl(x1)
            && x1@ == s) && (r2->Err_0 matches Error::InvalidIpfsUrl(x2) && x2@ == s)),
{
}

} // verus!
