//! The `ftp:` and `ftps:` schemes: the URL's authority gives the server
//! and the credentials (user `anonymous` and an empty password when
//! absent), the percent-decoded path splits into a directory and a
//! basename, and one FTP session retrieves the file into memory. The
//! parts handed to the session are computed by a verified function with
//! an exact contract; the session protocol itself is a black box whose
//! outcome depends on the network, so the handler promises the shape of
//! every outcome.

use vstd::prelude::*;

use crate::error::Error;
use crate::stream::Stream;
use crate::strutil::{join_slash, spec_join};
use crate::url::{Url, UrlView};

verus! {

/// What percent-decoding yields: every `%XX` escape becomes its byte,
/// and the bytes are read back as UTF-8 text with lossy replacement. A
/// function of the input string alone.
pub uninterp spec fn percent_decoded_of(s: Seq<char>) -> Seq<char>;

/// Relies on percent-encoding's `percent_decode` and its lossy UTF-8
/// decoding, one pipeline that is a pure function of the input string.
#[verifier::external_body]
fn percent_decode_lossy(s: &str) -> (r: String)
    ensures
        r@ == percent_decoded_of(s@),
{
    percent_encoding::percent_decode(s.as_bytes()).decode_utf8_lossy().to_string()
}

/// Relies on suppaftp's `FtpStream`: one whole retrieval session —
/// `connect` to the address, `login` with the credentials, `cwd` into
/// the directory where one is given, `retr_as_buffer` for the file's
/// bytes, and `quit`. The first failing step ends the session with
/// suppaftp's error, rendered as text.
#[verifier::external_body]
fn ftp_retrieve(host: &str, port: u16, user: &str, password: &str, dir: Option<&str>, file: &str)
    -> Result<Vec<u8>, String> {
    let session = || -> Result<Vec<u8>, suppaftp::FtpError> {
        let mut stream = suppaftp::FtpStream::connect((host, port))?;
        stream.login(user, password)?;
        if let Some(d) = dir {
            stream.cwd(d)?;
        }
        let buffer = stream.retr_as_buffer(file)?;
        stream.quit()?;
        Ok(buffer.into_inner())
    };
    session().map_err(|e| format!("{}", e))
}

/// The parts of one FTP retrieval, as the handler computes them from
/// the URL: the server's host and port, the credentials, and the
/// percent-decoded directory path and basename.
pub struct FtpRequestParts {
    pub host: String,
    pub port: u16,
    pub user: String,
    pub password: String,
    pub dirname: String,
    pub basename: String,
}

/// The user of the session: the URL's, or `anonymous` when absent.
pub open spec fn ftp_user_of(user: Option<Seq<char>>) -> Seq<char> {
    match user {
        Option::Some(u) => u,
        Option::None => "anonymous"@,
    }
}

/// The password of the session: the URL's, percent-decoded, or empty
/// when absent.
pub open spec fn ftp_password_of(password: Option<Seq<char>>) -> Seq<char> {
    match password {
        Option::Some(p) => percent_decoded_of(p),
        Option::None => Seq::empty(),
    }
}

/// The port of the session: the URL's, or the scheme's default when
/// absent — 990 for `ftps:`, 21 for `ftp:`.
pub open spec fn ftp_port_of(port: Option<u16>, secure: bool) -> u16 {
    match port {
        Option::Some(p) => p,
        Option::None => if secure {
            990
        } else {
            21
        },
    }
}

/// The directory of the session: all path segments but the last,
/// percent-decoded and joined with `/`.
pub open spec fn ftp_dirname_of(segs: Seq<Seq<char>>) -> Seq<char> {
    spec_join(
        segs.subrange(0, segs.len() - 1).map_values(|x: Seq<char>| percent_decoded_of(x)),
        "/"@,
    )
}

/// The file of the session: the last path segment, percent-decoded.
pub open spec fn ftp_basename_of(segs: Seq<Seq<char>>) -> Seq<char> {
    percent_decoded_of(segs.last())
}

/// What computing the retrieval parts returns: `InvalidFtpUrl` carrying
/// the URL where the authority or the path is missing or the path is
/// empty; else exactly the host, the defaulted port and credentials,
/// and the percent-decoded directory and basename.
pub open spec fn ftp_parts_post(
    u: UrlView,
    secure: bool,
    r: Result<FtpRequestParts, Error>,
) -> bool {
    match (u.host, u.segments) {
        (Option::Some(h), Option::Some(segs)) => if segs.len() == 0 {
            r matches Err(e) && e matches Error::InvalidFtpUrl(x) && x@ == u.raw
        } else {
            r matches Ok(p) && p.host@ == h && p.port == ftp_port_of(u.port, secure) && p.user@
                == ftp_user_of(u.user) && p.password@ == ftp_password_of(u.password) && p.dirname@
                == ftp_dirname_of(segs) && p.basename@ == ftp_basename_of(segs)
        },
        _ => r matches Err(e) && e matches Error::InvalidFtpUrl(x) && x@ == u.raw,
    }
}

/// Computes the parts of the retrieval the FTP URL asks for.
pub fn request_parts(url: &Url, secure: bool) -> (r: Result<FtpRequestParts, Error>)
    ensures
        ftp_parts_post(url@, secure, r),
{
    let authority = match &url.authority {
        Option::Some(a) => a,
        Option::None => {
            return Err(Error::InvalidFtpUrl(url.as_str().to_owned()));
        },
    };
    let segs = match &url.segments {
        Option::Some(s) => s,
        Option::None => {
            return Err(Error::InvalidFtpUrl(url.as_str().to_owned()));
        },
    };
    if segs.len() == 0 {
        return Err(Error::InvalidFtpUrl(url.as_str().to_owned()));
    }
    let ghost segv = segs@.map_values(|x: String| x@);
    let user = match &authority.user {
        Option::Some(u) => u.clone(),
        Option::None => String::from_str("anonymous"),
    };
    let password = match &authority.password {
        Option::Some(p) => percent_decode_lossy(p.as_str()),
        Option::None => String::new(),
    };
    let port = match authority.port {
        Option::Some(p) => p,
        Option::None => if secure {
            990
        } else {
            21
        },
    };
    let last = segs.len() - 1;
    let basename = percent_decode_lossy(segs[last].as_str());
    let mut decoded: Vec<String> = Vec::new();
    let mut i: usize = 0;
    proof {
        assert(decoded@.map_values(|x: String| x@) =~~= segv.subrange(0, 0).map_values(
            |x: Seq<char>| percent_decoded_of(x),
        ));
    }
    while i < last
        invariant
            last < segs@.len(),
            i <= last,
            segv == segs@.map_values(|x: String| x@),
            decoded@.map_values(|x: String| x@) =~~= segv.subrange(0, i as int).map_values(
                |x: Seq<char>| percent_decoded_of(x),
            ),
        decreases last - i,
    {
        let piece = percent_decode_lossy(segs[i].as_str());
        proof {
            assert((decoded@.push(piece)).map_values(|x: String| x@) =~~= decoded@.map_values(
                |x: String| x@,
            ).push(piece@));
            assert(segv.subrange(0, i + 1).map_values(|x: Seq<char>| percent_decoded_of(x))
                =~~= segv.subrange(0, i as int).map_values(
                |x: Seq<char>| percent_decoded_of(x),
            ).push(percent_decoded_of(segv[i as int])));
        }
        decoded.push(piece);
        i += 1;
    }
    let dirname = join_slash(&decoded, 0, decoded.len());
    proof {
        let dv = decoded@.map_values(|x: String| x@);
        assert(dv.subrange(0, dv.len() as int) =~~= dv);
        assert(dirname@ == ftp_dirname_of(segv));
    }
    Ok(
        FtpRequestParts {
            host: authority.host.clone(),
            port,
            user,
            password,
            dirname,
            basename,
        },
    )
}

/// What opening an `ftp:` or `ftps:` URL returns: `InvalidFtpUrl`
/// carrying the URL where the authority or the path is missing or the
/// path is empty; else the retrieved bytes in memory, or
/// `FailedFtpRequest` where a session step failed.
pub open spec fn ftp_open_post(
    raw: Seq<char>,
    host: Option<Seq<char>>,
    segments: Option<Seq<Seq<char>>>,
    r: Result<Stream, Error>,
) -> bool {
    match (host, segments) {
        (Option::Some(_), Option::Some(segs)) => if segs.len() == 0 {
            r matches Err(e) && e matches Error::InvalidFtpUrl(x) && x@ == raw
        } else {
            (r matches Ok(st) && st matches Stream::Memory(_)) || (r matches Err(e) && e
                matches Error::FailedFtpRequest(_))
        },
        _ => r matches Err(e) && e matches Error::InvalidFtpUrl(x) && x@ == raw,
    }
}

/// Retrieves the file the FTP URL names into an in-memory stream. The
/// session is fed exactly the parts `request_parts` computes from the
/// URL.
pub fn open(url: &Url, secure: bool) -> (r: Result<Stream, Error>)
    ensures
        ftp_open_post(url@.raw, url@.host, url@.segments, r),
{
    let parts = match request_parts(url, secure) {
        Ok(p) => p,
        Err(e) => {
            return Err(e);
        },
    };
    let dir = if parts.dirname.as_str().is_empty() {
        Option::None
    } else {
        Option::Some(parts.dirname.as_str())
    };
    match ftp_retrieve(
        parts.host.as_str(),
        parts.port,
        parts.user.as_str(),
        parts.password.as_str(),
        dir,
        parts.basename.as_str(),
    ) {
        Ok(bytes) => Ok(Stream::Memory(bytes)),
        Err(m) => Err(Error::FailedFtpRequest(m)),
    }
}

} // verus!
