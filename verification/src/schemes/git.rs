//! The `git:` scheme: a git URL is rewritten to an HTTPS raw-content URL
//! of the hosting provider, and the HTTP handler fetches that. The
//! rewriting is the pure, fully verified heart of this scheme.
//!
//! Supported providers:
//! - GitHub: `git://github.com/<owner>/<repo>/blob/<ref>/<path...>`
//!   becomes `https://raw.githubusercontent.com/<owner>/<repo>/refs/heads/<ref>/<path...>`
//! - GitLab: `git://gitlab.com/<owner>/<repo>/-/blob/<ref>/<path...>`
//!   becomes `https://gitlab.com/<owner>/<repo>/-/raw/<ref>/<path...>`
//!
//! Any other host, a missing literal segment (`blob`, or `-` then
//! `blob`), or too few segments fails with `InvalidGitUrl`; no heuristic
//! fallback is attempted.

use vstd::prelude::*;

use crate::error::Error;
use crate::schemes::http::http_fetch_post;
use crate::schemes::request;
use crate::stream::Stream;
use crate::strutil::{
    join_slash, spec_join, spec_split, spec_starts_with, split_char, starts_with, str_eq,
};
use crate::url::Url;

verus! {

/// The raw-content URL that a git URL maps to, or `None` where the URL
/// does not fit a supported provider's shape. The slash-separated
/// components after `git://` are host, owner, repository, then the
/// provider's literal segments, the ref, and at least one path segment.
pub open spec fn map_git_spec(s: Seq<char>) -> Option<Seq<char>> {
    if !spec_starts_with(s, "git://"@) {
        None
    } else {
        let comps = spec_split(s.subrange(6, s.len() as int), '/');
        if comps[0] == "github.com"@ {
            if comps.len() >= 6 && comps[3] == "blob"@ {
                Some(
                    "https://raw.githubusercontent.com/"@ + comps[1] + "/"@ + comps[2]
                        + "/refs/heads/"@ + comps[4] + "/"@ + spec_join(
                        comps.subrange(5, comps.len() as int),
                        "/"@,
                    ),
                )
            } else {
                None
            }
        } else if comps[0] == "gitlab.com"@ {
            if comps.len() >= 7 && comps[3] == "-"@ && comps[4] == "blob"@ {
                Some(
                    "https://gitlab.com/"@ + comps[1] + "/"@ + comps[2] + "/-/raw/"@ + comps[5]
                        + "/"@ + spec_join(comps.subrange(6, comps.len() as int), "/"@),
                )
            } else {
                None
            }
        } else {
            None
        }
    }
}

/// The detail an `InvalidGitUrl` failure carries, where the URL maps to
/// nothing: which check failed, then the offending URL — or, for an
/// unsupported provider, its host.
pub open spec fn map_git_err_detail(s: Seq<char>) -> Seq<char> {
    if !spec_starts_with(s, "git://"@) {
        "expected a git:// URL: "@ + s
    } else {
        let comps = spec_split(s.subrange(6, s.len() as int), '/');
        if comps[0] == "github.com"@ {
            if comps.len() < 6 {
                "need owner, repository, blob, ref, and a path: "@ + s
            } else {
                "expected a blob segment after the repository: "@ + s
            }
        } else if comps[0] == "gitlab.com"@ {
            if comps.len() < 7 {
                "need owner, repository, -, blob, ref, and a path: "@ + s
            } else {
                "expected -/blob segments after the repository: "@ + s
            }
        } else {
            "unsupported git host: "@ + comps[0]
        }
    }
}

/// What the git mapping returns: exactly the mapped URL where one
/// exists, and an `InvalidGitUrl` failure carrying exactly the detail
/// of the failed check where none does.
pub open spec fn map_git_post(s: Seq<char>, r: Result<String, Error>) -> bool {
    match map_git_spec(s) {
        Some(t) => r matches Ok(u) && u@ == t,
        None => r matches Err(e) && e matches Error::InvalidGitUrl(d) && d@ == map_git_err_detail(
            s,
        ),
    }
}

/// Maps a git URL to the hosting provider's raw-content URL.
pub fn map_git_url_to_raw_url(url_str: &str) -> (r: Result<String, Error>)
    ensures
        map_git_post(url_str@, r),
{
    if !starts_with(url_str, "git://") {
        return Err(
            Error::InvalidGitUrl(String::from_str("expected a git:// URL: ").concat(url_str)),
        );
    }
    let n = url_str.unicode_len();
    proof {
        reveal_strlit("git://");
    }
    let rest = url_str.substring_char(6, n);
    let comps = split_char(rest, '/');
    let ghost cm = comps@.map_values(|p: String| p@);
    proof {
        assert(cm =~~= spec_split(url_str@.subrange(6, n as int), '/'));
    }
    if str_eq(comps[0].as_str(), "github.com") {
        if comps.len() < 6 {
            return Err(
                Error::InvalidGitUrl(
                    String::from_str("need owner, repository, blob, ref, and a path: ").concat(
                        url_str,
                    ),
                ),
            );
        }
        if !str_eq(comps[3].as_str(), "blob") {
            return Err(
                Error::InvalidGitUrl(
                    String::from_str("expected a blob segment after the repository: ").concat(
                        url_str,
                    ),
                ),
            );
        }
        let mut out = String::from_str("https://raw.githubusercontent.com/");
        out.append(comps[1].as_str());
        out.append("/");
        out.append(comps[2].as_str());
        out.append("/refs/heads/");
        out.append(comps[4].as_str());
        out.append("/");
        let tail = join_slash(&comps, 5, comps.len());
        out.append(tail.as_str());
        proof {
            assert(out@ =~= "https://raw.githubusercontent.com/"@ + cm[1] + "/"@ + cm[2]
                + "/refs/heads/"@ + cm[4] + "/"@ + spec_join(
                cm.subrange(5, cm.len() as int),
                "/"@,
            ));
        }
        Ok(out)
    } else if str_eq(comps[0].as_str(), "gitlab.com") {
        if comps.len() < 7 {
            return Err(
                Error::InvalidGitUrl(
                    String::from_str(
                        "need owner, repository, -, blob, ref, and a path: ",
                    ).concat(url_str),
                ),
            );
        }
        if !str_eq(comps[3].as_str(), "-") || !str_eq(comps[4].as_str(), "blob") {
            return Err(
                Error::InvalidGitUrl(
                    String::from_str("expected -/blob segments after the repository: ").concat(
                        url_str,
                    ),
                ),
            );
        }
        let mut out = String::from_str("https://gitlab.com/");
        out.append(comps[1].as_str());
        out.append("/");
        out.append(comps[2].as_str());
        out.append("/-/raw/");
        out.append(comps[5].as_str());
        out.append("/");
        let tail = join_slash(&comps, 6, comps.len());
        out.append(tail.as_str());
        proof {
            assert(out@ =~= "https://gitlab.com/"@ + cm[1] + "/"@ + cm[2] + "/-/raw/"@ + cm[5]
                + "/"@ + spec_join(cm.subrange(6, cm.len() as int), "/"@));
        }
        Ok(out)
    } else {
        Err(
            Error::InvalidGitUrl(
                String::from_str("unsupported git host: ").concat(comps[0].as_str()),
            ),
        )
    }
}

/// What opening a `git:` URL returns: `InvalidGitUrl` where the URL
/// does not fit a supported provider's shape, else whatever fetching
/// the provider's raw-content URL gave.
pub open spec fn git_open_post(s: Seq<char>, r: Result<Stream, Error>) -> bool {
    match map_git_spec(s) {
        Some(_) => http_fetch_post(r),
        None => r matches Err(e) && e matches Error::InvalidGitUrl(_),
    }
}

/// Fetches the file the git URL names, through the provider's
/// raw-content URL.
pub fn open(url: &Url) -> (r: Result<Stream, Error>)
    ensures
        git_open_post(url@.raw, r),
{
    let agent = request::new_agent();
    let raw_url = match map_git_url_to_raw_url(url.as_str()) {
        Ok(u) => u,
        Err(e) => {
            return Err(e);
        },
    };
    match request::fetch(&agent, raw_url.as_str()) {
        Ok(body) => Ok(Stream::Http(body)),
        Err(m) => Err(Error::FailedHttpRequest(m)),
    }
}

/// Fetches the file the git URL names, through the provider's
/// raw-content URL, with the configured headers added to the request.
pub fn open_with_config(url: &Url, config: crate::RequestConfig) -> (r: Result<Stream, Error>)
    ensures
        git_open_post(url@.raw, r),
{
    let agent = request::new_agent();
    let raw_url = match map_git_url_to_raw_url(url.as_str()) {
        Ok(u) => u,
        Err(e) => {
            return Err(e);
        },
    };
    match request::fetch_with_config(&agent, raw_url.as_str(), &config) {
        Ok(body) => Ok(Stream::Http(body)),
        Err(m) => Err(Error::FailedHttpRequest(m)),
    }
}

/// The git mapping is pure: for one input string, any two results the
/// mapping contract admits agree — the same raw URL on success, and the
/// same error kind carrying the same detail on failure — independently
/// of any prior call.
pub proof fn lemma_map_git_pure(s: Seq<char>, r1: Result<String, Error>, r2: Result<
    String,
    Error,
>)
    requires
        map_git_post(s, r1),
        map_git_post(s, r2),
    ensures
        r1 is Ok <==> r2 is Ok,
        r1 is Ok && r2 is Ok ==> r1->Ok_0@ == r2->Ok_0@,
        r1 is Err && r2 is Err ==> ((r1->Err_0 matches Error::InvalidGitUrl(_)) && (
        r2->Err_0 matches Error::InvalidGitUrl(_)) && r1->Err_0.carried_spec()
            == r2->Err_0.carried_spec()),
{
}

} // verus!
