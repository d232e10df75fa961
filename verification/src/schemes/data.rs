//! The `data:` scheme: the URL itself carries the payload, which RFC
//! 2397 processing and base64 decoding turn into bytes. Decoding is a
//! black box; its result is named and the handler's contract is exact
//! over that name.

use vstd::prelude::*;

use crate::error::Error;
use crate::stream::Stream;
use crate::url::Url;

verus! {

/// What decoding a `data:` URL yields: the payload bytes, or a failure.
/// `Err(false)` says the URL's header is malformed; `Err(true)` says the
/// header parsed and the base64 payload is malformed. A function of the
/// URL string alone.
pub uninterp spec fn data_decoded(s: Seq<char>) -> Result<Seq<u8>, bool>;

/// Relies on data-url's `DataUrl::process` (RFC 2397 header parsing)
/// and `decode_to_vec` (forgiving base64 decoding of the payload), both
/// functions of the URL string alone.
#[verifier::external_body]
fn decode_data_url(s: &str) -> (r: Result<Vec<u8>, (bool, String)>)
    ensures
        (r is Ok) == (data_decoded(s@) is Ok),
        r matches Ok(v) ==> data_decoded(s@) matches Ok(b) && v@ == b,
        r matches Err(f) ==> data_decoded(s@) matches Err(in_body) && f.0 == in_body,
{
    let parsed = match data_url::DataUrl::process(s) {
        Ok(p) => p,
        Err(e) => return Err((false, format!("{:?}", e))),
    };
    match parsed.decode_to_vec() {
        Ok((bytes, _fragment)) => Ok(bytes),
        Err(e) => Err((true, format!("{}", e))),
    }
}

/// What opening a `data:` URL returns: exactly the decoded payload in
/// memory, `InvalidDataUrl` for a malformed header, and
/// `InvalidDataUrlBody` for a malformed payload.
pub open spec fn data_open_post(s: Seq<char>, r: Result<Stream, Error>) -> bool {
    match data_decoded(s) {
        Ok(b) => r matches Ok(st) && st matches Stream::Memory(v) && v@ == b,
        Err(in_body) => r matches Err(e) && (if in_body {
            e matches Error::InvalidDataUrlBody(_)
        } else {
            e matches Error::InvalidDataUrl(_)
        }),
    }
}

/// Decodes the `data:` URL's payload into an in-memory stream.
pub fn open(url: &Url) -> (r: Result<Stream, Error>)
    ensures
        data_open_post(url@.raw, r),
{
    match decode_data_url(url.as_str()) {
        Ok(bytes) => Ok(Stream::Memory(bytes)),
        Err((in_body, m)) => if in_body {
            Err(Error::InvalidDataUrlBody(m))
        } else {
            Err(Error::InvalidDataUrl(m))
        },
    }
}

} // verus!
