//! A protocol-independent `open`: given a URL string, the library returns a
//! byte stream for the referenced resource, whatever the scheme (embedded
//! data, local file, FTP, HTTP(S), git-hosting raw views, IPFS gateway,
//! standard input).
//!
//! The scheme dispatcher, the git/IPFS URL-to-gateway rewriting, and the
//! error taxonomy are verified; URL grammar parsing, transport protocols,
//! base64 decoding, and filesystem access are consumed as black boxes
//! through thin trusted wrappers.

use vstd::prelude::*;

pub mod error;
pub mod open;
pub mod schemes;
pub mod stream;
pub mod strutil;
pub mod url;

pub use error::Error;
pub use error::IoFailure;
pub use error::IoKind;
pub use open::open;
pub use open::open_with_config;
pub use stream::Stream;
pub use url::Scheme;
pub use url::Url;
pub use url::UrlAuthority;

verus! {

/// Configuration for HTTP requests: a mapping of header name to header
/// value, with no headers by default.
///
/// The abstract value of a configuration is a map from header names to
/// header values. The pairs are kept in insertion order with each name
/// held once: adding a header with an existing name replaces its value
/// and moves the pair to the end.
pub struct RequestConfig {
    pub headers: Vec<(String, String)>,
}

/// The map described by a sequence of header pairs: each pair is inserted
/// in order, so a later pair with the same name replaces an earlier one.
pub open spec fn headers_map(s: Seq<(Seq<char>, Seq<char>)>) -> Map<Seq<char>, Seq<char>>
    decreases s.len(),
{
    if s.len() == 0 {
        Map::empty()
    } else {
        headers_map(s.drop_last()).insert(s.last().0, s.last().1)
    }
}

/// The pairs of `s` whose name is not `k`, in their order.
pub open spec fn drop_key(s: Seq<(Seq<char>, Seq<char>)>, k: Seq<char>) -> Seq<
    (Seq<char>, Seq<char>),
>
    decreases s.len(),
{
    if s.len() == 0 {
        Seq::empty()
    } else {
        let rest = drop_key(s.drop_last(), k);
        if s.last().0 == k {
            rest
        } else {
            rest.push(s.last())
        }
    }
}

/// Dropping a name from the pairs removes exactly that name from the
/// described map.
proof fn lemma_drop_key_map(s: Seq<(Seq<char>, Seq<char>)>, k: Seq<char>)
    ensures
        headers_map(drop_key(s, k)) == headers_map(s).remove(k),
    decreases s.len(),
{
    if s.len() == 0 {
        assert(headers_map(drop_key(s, k)) =~= headers_map(s).remove(k));
    } else {
        let p = s.last();
        let t = s.drop_last();
        lemma_drop_key_map(t, k);
        if p.0 == k {
            assert(headers_map(t).insert(k, p.1).remove(k) =~= headers_map(t).remove(k));
        } else {
            let q = drop_key(t, k);
            assert(q.push(p).drop_last() =~= q);
            assert(headers_map(q.push(p)) == headers_map(q).insert(p.0, p.1));
            assert(headers_map(t).remove(k).insert(p.0, p.1) =~= headers_map(t).insert(
                p.0,
                p.1,
            ).remove(k));
        }
    }
}

impl View for RequestConfig {
    type V = Map<Seq<char>, Seq<char>>;

    open spec fn view(&self) -> Map<Seq<char>, Seq<char>> {
        headers_map(self.headers@.map_values(|p: (String, String)| (p.0@, p.1@)))
    }
}

impl RequestConfig {
    /// Creates a new, empty `RequestConfig`.
    pub fn new() -> (r: Self)
        ensures
            r@ == Map::<Seq<char>, Seq<char>>::empty(),
            r.headers@.len() == 0,
    {
        let r = RequestConfig { headers: Vec::new() };
        proof {
            assert(r.headers@.map_values(|p: (String, String)| (p.0@, p.1@)) =~= Seq::empty());
        }
        r
    }

    /// Adds a header to the configuration and returns the modified
    /// `RequestConfig`, so that calls can be chained. A header already
    /// configured under the same name is replaced.
    pub fn with_header(self, key: &str, value: &str) -> (r: Self)
        ensures
            r@ == self@.insert(key@, value@),
    {
        let ghost before = self.headers@.map_values(|p: (String, String)| (p.0@, p.1@));
        let mut remaining = self.headers;
        let mut kept: Vec<(String, String)> = Vec::new();
        let ghost mut seen: Seq<(Seq<char>, Seq<char>)> = Seq::empty();
        proof {
            assert(kept@.map_values(|p: (String, String)| (p.0@, p.1@)) =~= drop_key(seen, key@));
            assert(seen + remaining@.map_values(|p: (String, String)| (p.0@, p.1@)) =~= before);
        }
        while remaining.len() > 0
            invariant
                kept@.map_values(|p: (String, String)| (p.0@, p.1@)) =~= drop_key(seen, key@),
                seen + remaining@.map_values(|p: (String, String)| (p.0@, p.1@)) =~= before,
            decreases remaining@.len(),
        {
            let pair = remaining.remove(0);
            let ghost seen_before = seen;
            proof {
                seen = seen.push((pair.0@, pair.1@));
                assert(seen.drop_last() =~= seen_before);
            }
            if !crate::strutil::str_eq(pair.0.as_str(), key) {
                let ghost kept_before = kept@.map_values(|p: (String, String)| (p.0@, p.1@));
                kept.push(pair);
                proof {
                    assert(kept@.map_values(|p: (String, String)| (p.0@, p.1@))
                        =~= kept_before.push(seen.last()));
                }
            }
            proof {
                assert(seen + remaining@.map_values(|p: (String, String)| (p.0@, p.1@))
                    =~= before);
            }
        }
        proof {
            assert(seen =~= before);
        }
        let ghost kept_view = kept@.map_values(|p: (String, String)| (p.0@, p.1@));
        kept.push((key.to_owned(), value.to_owned()));
        let r = RequestConfig { headers: kept };
        proof {
            let after = r.headers@.map_values(|p: (String, String)| (p.0@, p.1@));
            assert(after.drop_last() =~= kept_view);
            assert(after.last() == (key@, value@));
            lemma_drop_key_map(before, key@);
            assert(headers_map(before).remove(key@).insert(key@, value@) =~= headers_map(
                before,
            ).insert(key@, value@));
        }
        r
    }
}

} // verus!
