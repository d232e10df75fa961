//! The `scp:` scheme is declared but not enabled: it is omitted from
//! the enabled set at configuration time, so opening fails at once with
//! `UnknownScheme`, exactly as for a scheme the dispatcher has never
//! heard of, and never blocks.

use vstd::prelude::*;

use crate::error::Error;
use crate::stream::Stream;
use crate::url::Url;

verus! {

/// Fails at once: the `scp:` scheme is not in the enabled set.
pub fn open(url: &Url) -> (r: Result<Stream, Error>)
    ensures
        r matches Err(e) && e matches Error::UnknownScheme(s) && s@ == url@.scheme,
{
    Err(Error::UnknownScheme(url.scheme_string()))
}

} // verus!
