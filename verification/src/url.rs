//! The URL model: parsing is a collaborator consumed as a black box, and
//! the parsed value is held as plain values — the raw string, the scheme
//! as it appeared, the authority's parts, the path segments, and the
//! local path a `file:` URL names. The scheme classification on top of
//! it is verified.

use vstd::prelude::*;

use crate::strutil::{spec_lower, str_eq_fold};

verus! {

/// The authority of a parsed URL, as plain values.
pub struct UrlAuthority {
    pub user: Option<String>,
    pub password: Option<String>,
    pub host: String,
    pub port: Option<u16>,
}

/// A parsed URL. Always produced by parsing a string; immutable once
/// parsed.
pub struct Url {
    pub raw: String,
    pub scheme: String,
    pub authority: Option<UrlAuthority>,
    pub segments: Option<Vec<String>>,
    pub local_path: Option<String>,
}

/// The abstract value of a parsed URL: the raw string, the scheme, the
/// authority's parts (the host is present exactly when the URL has an
/// authority), the path segments of an absolute path, and the local
/// filesystem path where the URL names one.
pub ghost struct UrlView {
    pub raw: Seq<char>,
    pub scheme: Seq<char>,
    pub user: Option<Seq<char>>,
    pub password: Option<Seq<char>>,
    pub host: Option<Seq<char>>,
    pub port: Option<u16>,
    pub segments: Option<Seq<Seq<char>>>,
    pub local_path: Option<Seq<char>>,
}

impl View for Url {
    type V = UrlView;

    open spec fn view(&self) -> UrlView {
        UrlView {
            raw: self.raw@,
            scheme: self.scheme@,
            user: match self.authority {
                Option::Some(a) => match a.user {
                    Option::Some(u) => Option::Some(u@),
                    Option::None => Option::None,
                },
                Option::None => Option::None,
            },
            password: match self.authority {
                Option::Some(a) => match a.password {
                    Option::Some(p) => Option::Some(p@),
                    Option::None => Option::None,
                },
                Option::None => Option::None,
            },
            host: match self.authority {
                Option::Some(a) => Option::Some(a.host@),
                Option::None => Option::None,
            },
            port: match self.authority {
                Option::Some(a) => a.port,
                Option::None => Option::None,
            },
            segments: match self.segments {
                Option::Some(v) => Option::Some(v@.map_values(|s: String| s@)),
                Option::None => Option::None,
            },
            local_path: match self.local_path {
                Option::Some(p) => Option::Some(p@),
                Option::None => Option::None,
            },
        }
    }
}

impl Url {
    /// The URL string as it was parsed.
    pub fn as_str(&self) -> (r: &str)
        ensures
            r@ == self@.raw,
    {
        self.raw.as_str()
    }

    /// The scheme, with its original spelling.
    pub fn scheme_str(&self) -> (r: &str)
        ensures
            r@ == self@.scheme,
    {
        self.scheme.as_str()
    }

    /// An owned copy of the scheme, with its original spelling.
    pub fn scheme_string(&self) -> (r: String)
        ensures
            r@ == self@.scheme,
    {
        self.scheme.clone()
    }
}

/// What parsing a URL string yields, where it parses: the scheme, then
/// the authority's user, password, host, and port, then the path
/// segments of an absolute path, then the local path of a `file:` URL.
/// The parse is a function of the string alone.
pub uninterp spec fn url_parse_of(s: Seq<char>) -> Option<
    (
        Seq<char>,
        Option<Seq<char>>,
        Option<Seq<char>>,
        Option<Seq<char>>,
        Option<u16>,
        Option<Seq<Seq<char>>>,
        Option<Seq<char>>,
    ),
>;

/// Relies on dogma's URI parser: `str::parse::<dogma::Uri>` validates
/// the string, and `scheme_str`, `authority` (with `username`,
/// `password`, `host_str`, `port`), `path_segments`, and `to_path` read
/// its parts, all functions of the input string alone.
#[verifier::external_body]
pub(crate) fn parse_url(s: &str) -> (r: Result<Url, String>)
    ensures
        (r is Ok) == (url_parse_of(s@) is Some),
        r matches Ok(u) ==> {
            &&& url_parse_of(s@) matches Some(p)
            &&& u@.raw == s@
            &&& u@.scheme == p.0
            &&& u@.user == p.1
            &&& u@.password == p.2
            &&& u@.host == p.3
            &&& u@.port == p.4
            &&& u@.segments == p.5
            &&& u@.local_path == p.6
        },
{
    let uri = s.parse::<dogma::Uri>().map_err(|e| format!("{}", e))?;
    let authority = uri.authority().map(|a| UrlAuthority {
        user: a.username().map(str::to_string),
        password: a.password().map(str::to_string),
        host: a.host_str().to_string(),
        port: a.port(),
    });
    let segments = uri.path_segments().map(|ss| ss.map(str::to_string).collect());
    let local_path = uri.to_path().and_then(|p| p.to_str().map(str::to_string));
    let (raw, scheme) = (s.to_string(), uri.scheme_str().to_string());
    Ok(Url { raw, scheme, authority, segments, local_path })
}

/// The closed set of schemes the dispatcher knows, plus a catch-all for
/// any other scheme.
#[derive(Clone, Copy, Debug, PartialEq, Eq, Structural)]
pub enum Scheme {
    Data,
    File,
    Ftp,
    Ftps,
    Git,
    Http,
    Https,
    Ipfs,
    Scp,
    Stdin,
    Unrecognized,
}

/// The scheme named by `s`, compared without regard to ASCII case, as
/// URL schemes are.
pub open spec fn scheme_spec(s: Seq<char>) -> Scheme {
    let l = spec_lower(s);
    if l == "data"@ {
        Scheme::Data
    } else if l == "file"@ {
        Scheme::File
    } else if l == "ftp"@ {
        Scheme::Ftp
    } else if l == "ftps"@ {
        Scheme::Ftps
    } else if l == "git"@ {
        Scheme::Git
    } else if l == "http"@ {
        Scheme::Http
    } else if l == "https"@ {
        Scheme::Https
    } else if l == "ipfs"@ {
        Scheme::Ipfs
    } else if l == "scp"@ {
        Scheme::Scp
    } else if l == "stdin"@ {
        Scheme::Stdin
    } else {
        Scheme::Unrecognized
    }
}

/// Classifies a scheme string, without regard to ASCII case.
pub fn scheme_of(s: &str) -> (r: Scheme)
    ensures
        r == scheme_spec(s@),
{
    proof {
        lemma_scheme_literals_folded();
    }
    if str_eq_fold(s, "data") {
        Scheme::Data
    } else if str_eq_fold(s, "file") {
        Scheme::File
    } else if str_eq_fold(s, "ftp") {
        Scheme::Ftp
    } else if str_eq_fold(s, "ftps") {
        Scheme::Ftps
    } else if str_eq_fold(s, "git") {
        Scheme::Git
    } else if str_eq_fold(s, "http") {
        Scheme::Http
    } else if str_eq_fold(s, "https") {
        Scheme::Https
    } else if str_eq_fold(s, "ipfs") {
        Scheme::Ipfs
    } else if str_eq_fold(s, "scp") {
        Scheme::Scp
    } else if str_eq_fold(s, "stdin") {
        Scheme::Stdin
    } else {
        Scheme::Unrecognized
    }
}

/// The scheme literals are already lower case, so folding their case
/// changes nothing.
proof fn lemma_scheme_literals_folded()
    ensures
        spec_lower("data"@) == "data"@,
        spec_lower("file"@) == "file"@,
        spec_lower("ftp"@) == "ftp"@,
        spec_lower("ftps"@) == "ftps"@,
        spec_lower("git"@) == "git"@,
        spec_lower("http"@) == "http"@,
        spec_lower("https"@) == "https"@,
        spec_lower("ipfs"@) == "ipfs"@,
        spec_lower("scp"@) == "scp"@,
        spec_lower("stdin"@) == "stdin"@,
{
    reveal_strlit("data");
    reveal_strlit("file");
    reveal_strlit("ftp");
    reveal_strlit("ftps");
    reveal_strlit("git");
    reveal_strlit("http");
    reveal_strlit("https");
    reveal_strlit("ipfs");
    reveal_strlit("scp");
    reveal_strlit("stdin");
    assert(spec_lower("data"@) =~= "data"@);
    assert(spec_lower("file"@) =~= "file"@);
    assert(spec_lower("ftp"@) =~= "ftp"@);
    assert(spec_lower("ftps"@) =~= "ftps"@);
    assert(spec_lower("git"@) =~= "git"@);
    assert(spec_lower("http"@) =~= "http"@);
    assert(spec_lower("https"@) =~= "https"@);
    assert(spec_lower("ipfs"@) =~= "ipfs"@);
    assert(spec_lower("scp"@) =~= "scp"@);
    assert(spec_lower("stdin"@) =~= "stdin"@);
}

} // verus!
