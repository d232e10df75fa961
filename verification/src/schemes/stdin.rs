//! The `stdin:` scheme: the stream is the process's standard input,
//! verbatim. Opening it never fails.

use vstd::prelude::*;

use crate::error::Error;
use crate::stream::Stream;
use crate::url::Url;

verus! {

/// Relies on `std::io::stdin`: the handle of the process's standard
/// input.
#[verifier::external_body]
fn stdin_handle() -> std::io::Stdin {
    std::io::stdin()
}

/// Returns the process's standard input as the stream; never fails.
pub fn open(_url: &Url) -> (r: Result<Stream, Error>)
    ensures
        r matches Ok(st) && st matches Stream::Stdin(_),
{
    Ok(Stream::Stdin(stdin_handle()))
}

} // verus!
