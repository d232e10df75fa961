//! The single entry point: parse the URL, select the handler its scheme
//! names, and hand back the handler's stream or failure unchanged. The
//! set of schemes is a closed, compile-time enumeration; `scp:` is
//! omitted from the enabled set, so it fails as an unknown scheme does.

use vstd::prelude::*;

use crate::error::Error;
use crate::schemes;
use crate::schemes::data::data_open_post;
use crate::schemes::file::file_open_post;
use crate::schemes::ftp::ftp_open_post;
use crate::schemes::git::git_open_post;
use crate::schemes::http::http_fetch_post;
use crate::schemes::ipfs::ipfs_open_post;
use crate::stream::Stream;
use crate::url::{parse_url, scheme_of, scheme_spec, url_parse_of, Scheme};
use crate::RequestConfig;

verus! {

/// What `open` returns for a URL string: `InvalidUrl` where the string
/// does not parse — no handler runs; the selected handler's outcome
/// where the scheme names an enabled handler; and `UnknownScheme`
/// carrying exactly the parsed scheme string where none does, `scp:`
/// included.
pub open spec fn open_post(s: Seq<char>, r: Result<Stream, Error>) -> bool {
    match url_parse_of(s) {
        Option::None => r matches Err(e) && e matches Error::InvalidUrl(_),
        Option::Some(p) => match scheme_spec(p.0) {
            Scheme::Data => data_open_post(s, r),
            Scheme::File => file_open_post(s, p.6, r),
            Scheme::Ftp => ftp_open_post(s, p.3, p.5, r),
            Scheme::Ftps => ftp_open_post(s, p.3, p.5, r),
            Scheme::Git => git_open_post(s, r),
            Scheme::Http => http_fetch_post(r),
            Scheme::Https => http_fetch_post(r),
            Scheme::Ipfs => ipfs_open_post(s, r),
            Scheme::Stdin => r matches Ok(st) && st matches Stream::Stdin(_),
            Scheme::Scp => r matches Err(e) && e matches Error::UnknownScheme(x) && x@ == p.0,
            Scheme::Unrecognized => r matches Err(e) && e matches Error::UnknownScheme(x) && x@
                == p.0,
        },
    }
}

/// Opens the resource a URL names and returns its byte stream, whatever
/// the scheme.
pub fn open(url: &str) -> (r: Result<Stream, Error>)
    ensures
        open_post(url@, r),
{
    let u = match parse_url(url) {
        Ok(u) => u,
        Err(detail) => {
            return Err(Error::InvalidUrl(detail));
        },
    };
    match scheme_of(u.scheme_str()) {
        Scheme::Data => schemes::data::open(&u),
        Scheme::File => schemes::file::open(&u),
        Scheme::Ftp => schemes::ftp::open(&u, false),
        Scheme::Ftps => schemes::ftp::open(&u, true),
        Scheme::Git => schemes::git::open(&u),
        Scheme::Http => schemes::http::open(&u, false),
        Scheme::Https => schemes::http::open(&u, true),
        Scheme::Ipfs => schemes::ipfs::open(&u),
        Scheme::Stdin => schemes::stdin::open(&u),
        Scheme::Scp => schemes::scp::open(&u),
        Scheme::Unrecognized => Err(Error::UnknownScheme(u.scheme_string())),
    }
}

/// The scheme component of a URL string that parses.
pub open spec fn parsed_scheme(s: Seq<char>) -> Seq<char> {
    let p = url_parse_of(s)->0;
    p.0
}

/// For any syntactically invalid URL string, opening fails with
/// `InvalidUrl`: no handler's outcome is among the admitted results.
pub proof fn lemma_invalid_url_rejected(s: Seq<char>, r: Result<Stream, Error>)
    requires
        open_post(s, r),
        url_parse_of(s) is None,
    ensures
        r matches Err(e) && e matches Error::InvalidUrl(_),
{
}

/// For any syntactically valid URL whose scheme is outside the enabled
/// set — unrecognized, or the omitted `scp:` — opening fails with
/// `UnknownScheme` carrying exactly the parsed scheme string.
pub proof fn lemma_unknown_scheme_reported(s: Seq<char>, r: Result<Stream, Error>)
    requires
        open_post(s, r),
        url_parse_of(s) is Some,
        scheme_spec(parsed_scheme(s)) == Scheme::Scp || scheme_spec(parsed_scheme(s))
            == Scheme::Unrecognized,
    ensures
        r matches Err(e) && e matches Error::UnknownScheme(x) && x@ == parsed_scheme(s),
{
}

/// Opening a `stdin:` URL never fails: the result is a stream backed by
/// the process's standard input.
pub proof fn lemma_stdin_never_fails(s: Seq<char>, r: Result<Stream, Error>)
    requires
        open_post(s, r),
        url_parse_of(s) is Some,
        scheme_spec(parsed_scheme(s)) == Scheme::Stdin,
    ensures
        r matches Ok(st) && st matches Stream::Stdin(_),
{
}

/// Opens the resource a URL names, forwarding the configuration to the
/// handlers that issue HTTP requests — `http`, `https`, `ipfs`, and
/// `git`; the other handlers take no configuration and behave as under
/// `open`.
pub fn open_with_config(url: &str, config: RequestConfig) -> (r: Result<Stream, Error>)
    ensures
        open_post(url@, r),
{
    let u = match parse_url(url) {
        Ok(u) => u,
        Err(detail) => {
            return Err(Error::InvalidUrl(detail));
        },
    };
    match scheme_of(u.scheme_str()) {
        Scheme::Data => schemes::data::open(&u),
        Scheme::File => schemes::file::open(&u),
        Scheme::Ftp => schemes::ftp::open(&u, false),
        Scheme::Ftps => schemes::ftp::open(&u, true),
        Scheme::Git => schemes::git::open_with_config(&u, config),
        Scheme::Http => schemes::http::open_with_config(&u, false, config),
        Scheme::Https => schemes::http::open_with_config(&u, true, config),
        Scheme::Ipfs => schemes::ipfs::open_with_config(&u, config),
        Scheme::Stdin => schemes::stdin::open(&u),
        Scheme::Scp => schemes::scp::open(&u),
        Scheme::Unrecognized => Err(Error::UnknownScheme(u.scheme_string())),
    }
}

} // verus!
