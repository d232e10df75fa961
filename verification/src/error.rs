//! The error taxonomy: one closed tagged union spanning every scheme.
//! Each variant keeps the offending string or a rendering of the
//! underlying cause. A coarse conversion to an I/O-style failure exists
//! for every variant; only the file I/O variant survives that conversion
//! losslessly. Per-variant cause accessors recover the underlying cause
//! for the matching variant and fail with the error unchanged for all
//! others.

use vstd::prelude::*;

verus! {

/// The kind of an I/O-style failure, as coarse as the operating system's
/// own classification.
#[derive(Clone, Copy, Debug, PartialEq, Eq, Structural)]
pub enum IoKind {
    InvalidInput,
    InvalidData,
    NotFound,
    PermissionDenied,
    Other,
}

/// A coarse I/O-style failure: a kind and a rendered message.
pub struct IoFailure {
    pub kind: IoKind,
    pub message: String,
}

/// Everything that can go wrong when opening a URL, across all schemes.
#[derive(Debug)]
pub enum Error {
    /// The URL string did not parse.
    InvalidUrl(String),
    /// The URL parsed but no enabled handler matches its scheme; carries
    /// the scheme string as it was parsed.
    UnknownScheme(String),
    /// The `data:` URL's header is malformed.
    InvalidDataUrl(String),
    /// The `data:` URL's base64 payload is malformed.
    InvalidDataUrlBody(String),
    /// The `file:` URL does not name a local path.
    InvalidFileUrl(String),
    /// Opening the named file failed; keeps the cause's kind and message.
    FailedFileIo(IoKind, String),
    /// The `ftp:` URL lacks an authority or a path.
    InvalidFtpUrl(String),
    /// A step of the FTP session failed.
    FailedFtpRequest(String),
    /// The `git:` URL does not fit a supported provider's shape.
    InvalidGitUrl(String),
    /// The string lacks the `ipfs://` prefix; carries it unchanged.
    InvalidIpfsUrl(String),
    /// The HTTP request could not be completed.
    FailedHttpRequest(String),
}

impl Error {
    /// Renders the error as one line, in the shape `<what went wrong>:
    /// <offending string or cause>`.
    pub fn message(&self) -> (r: String)
        ensures
            r@ == self.message_spec(),
    {
        match self {
            Error::InvalidUrl(d) => String::from_str("invalid URL: ").concat(d.as_str()),
            Error::UnknownScheme(s) => String::from_str("unknown URL scheme: ").concat(s.as_str()),
            Error::InvalidDataUrl(d) => String::from_str("invalid data URL: ").concat(d.as_str()),
            Error::InvalidDataUrlBody(d) => String::from_str("invalid data URL body: ").concat(
                d.as_str(),
            ),
            Error::InvalidFileUrl(u) => String::from_str("invalid file URL: ").concat(u.as_str()),
            Error::FailedFileIo(_, m) => String::from_str("failed file I/O: ").concat(m.as_str()),
            Error::InvalidFtpUrl(u) => String::from_str("invalid FTP URL: ").concat(u.as_str()),
            Error::FailedFtpRequest(m) => String::from_str("failed FTP request: ").concat(
                m.as_str(),
            ),
            Error::InvalidGitUrl(d) => String::from_str("invalid git URL: ").concat(d.as_str()),
            Error::InvalidIpfsUrl(u) => String::from_str("invalid IPFS URL: ").concat(u.as_str()),
            Error::FailedHttpRequest(m) => String::from_str("failed HTTP request: ").concat(
                m.as_str(),
            ),
        }
    }

    /// The rendered message: a fixed prefix naming the variant, then the
    /// string the variant carries.
    pub open spec fn message_spec(&self) -> Seq<char> {
        match self {
            Error::InvalidUrl(d) => "invalid URL: "@ + d@,
            Error::UnknownScheme(s) => "unknown URL scheme: "@ + s@,
            Error::InvalidDataUrl(d) => "invalid data URL: "@ + d@,
            Error::InvalidDataUrlBody(d) => "invalid data URL body: "@ + d@,
            Error::InvalidFileUrl(u) => "invalid file URL: "@ + u@,
            Error::FailedFileIo(_, m) => "failed file I/O: "@ + m@,
            Error::InvalidFtpUrl(u) => "invalid FTP URL: "@ + u@,
            Error::FailedFtpRequest(m) => "failed FTP request: "@ + m@,
            Error::InvalidGitUrl(d) => "invalid git URL: "@ + d@,
            Error::InvalidIpfsUrl(u) => "invalid IPFS URL: "@ + u@,
            Error::FailedHttpRequest(m) => "failed HTTP request: "@ + m@,
        }
    }

    /// The kind of the coarse I/O-style failure each variant collapses
    /// to. Malformed inputs are invalid input, a malformed payload is
    /// invalid data, a file I/O failure keeps its own kind, and the FTP
    /// and HTTP transport failures collapse to `Other`, losing their
    /// distinguishing detail.
    pub open spec fn io_kind_spec(&self) -> IoKind {
        match self {
            Error::InvalidUrl(_) => IoKind::InvalidInput,
            Error::UnknownScheme(_) => IoKind::InvalidInput,
            Error::InvalidDataUrl(_) => IoKind::InvalidInput,
            Error::InvalidDataUrlBody(_) => IoKind::InvalidData,
            Error::InvalidFileUrl(_) => IoKind::InvalidInput,
            Error::FailedFileIo(k, _) => *k,
            Error::InvalidFtpUrl(_) => IoKind::InvalidInput,
            Error::FailedFtpRequest(_) => IoKind::Other,
            Error::InvalidGitUrl(_) => IoKind::InvalidInput,
            Error::InvalidIpfsUrl(_) => IoKind::InvalidInput,
            Error::FailedHttpRequest(_) => IoKind::Other,
        }
    }

    /// The string the variant carries: the offending string or the
    /// rendered cause.
    pub open spec fn carried_spec(&self) -> Seq<char> {
        match self {
            Error::InvalidUrl(d) => d@,
            Error::UnknownScheme(s) => s@,
            Error::InvalidDataUrl(d) => d@,
            Error::InvalidDataUrlBody(d) => d@,
            Error::InvalidFileUrl(u) => u@,
            Error::FailedFileIo(_, m) => m@,
            Error::InvalidFtpUrl(u) => u@,
            Error::FailedFtpRequest(m) => m@,
            Error::InvalidGitUrl(d) => d@,
            Error::InvalidIpfsUrl(u) => u@,
            Error::FailedHttpRequest(m) => m@,
        }
    }

    /// Collapses the error to a coarse I/O-style failure. The file I/O
    /// variant keeps its kind and message and so survives losslessly; the
    /// FTP and HTTP transport failures collapse to the `Other` kind.
    pub fn into_io_failure(self) -> (r: IoFailure)
        ensures
            r.kind == self.io_kind_spec(),
            r.message@ == self.carried_spec(),
    {
        match self {
            Error::InvalidUrl(d) => IoFailure { kind: IoKind::InvalidInput, message: d },
            Error::UnknownScheme(s) => IoFailure { kind: IoKind::InvalidInput, message: s },
            Error::InvalidDataUrl(d) => IoFailure { kind: IoKind::InvalidInput, message: d },
            Error::InvalidDataUrlBody(d) => IoFailure { kind: IoKind::InvalidData, message: d },
            Error::InvalidFileUrl(u) => IoFailure { kind: IoKind::InvalidInput, message: u },
            Error::FailedFileIo(k, m) => IoFailure { kind: k, message: m },
            Error::InvalidFtpUrl(u) => IoFailure { kind: IoKind::InvalidInput, message: u },
            Error::FailedFtpRequest(m) => IoFailure { kind: IoKind::Other, message: m },
            Error::InvalidGitUrl(d) => IoFailure { kind: IoKind::InvalidInput, message: d },
            Error::InvalidIpfsUrl(u) => IoFailure { kind: IoKind::InvalidInput, message: u },
            Error::FailedHttpRequest(m) => IoFailure { kind: IoKind::Other, message: m },
        }
    }

    /// Recovers the `data:` header cause; any other variant comes back
    /// unchanged as the failure.
    pub fn into_data_url_cause(self) -> (r: Result<String, Error>)
        ensures
            self matches Error::InvalidDataUrl(d) ==> r == Ok::<String, Error>(d),
            !(self matches Error::InvalidDataUrl(_)) ==> r == Err::<String, Error>(self),
    {
        match self {
            Error::InvalidDataUrl(d) => Ok(d),
            other => Err(other),
        }
    }

    /// Recovers the `data:` payload cause; any other variant comes back
    /// unchanged as the failure.
    pub fn into_data_url_body_cause(self) -> (r: Result<String, Error>)
        ensures
            self matches Error::InvalidDataUrlBody(d) ==> r == Ok::<String, Error>(d),
            !(self matches Error::InvalidDataUrlBody(_)) ==> r == Err::<String, Error>(self),
    {
        match self {
            Error::InvalidDataUrlBody(d) => Ok(d),
            other => Err(other),
        }
    }

    /// Recovers the FTP failure cause; any other variant comes back
    /// unchanged as the failure.
    pub fn into_ftp_cause(self) -> (r: Result<String, Error>)
        ensures
            self matches Error::FailedFtpRequest(m) ==> r == Ok::<String, Error>(m),
            !(self matches Error::FailedFtpRequest(_)) ==> r == Err::<String, Error>(self),
    {
        match self {
            Error::FailedFtpRequest(m) => Ok(m),
            other => Err(other),
        }
    }

    /// Recovers the HTTP failure cause; any other variant comes back
    /// unchanged as the failure.
    pub fn into_http_cause(self) -> (r: Result<String, Error>)
        ensures
            self matches Error::FailedHttpRequest(m) ==> r == Ok::<String, Error>(m),
            !(self matches Error::FailedHttpRequest(_)) ==> r == Err::<String, Error>(self),
    {
        match self {
            Error::FailedHttpRequest(m) => Ok(m),
            other => Err(other),
        }
    }
}

} // verus!
