//! The stream a successful `open` returns: a read-only, forward-only
//! byte source, backed by an in-memory buffer, a live HTTP response
//! body, an open file, or the process's standard input. The caller owns
//! it and consumes it; the backing handles of the three live variants
//! are opaque here and are read outside the library.

use vstd::prelude::*;

verus! {

/// ureq's response body, carried opaquely in an HTTP-backed stream.
#[verifier::external_type_specification]
#[verifier::external_body]
pub struct ExBody(ureq::Body);

/// fs-err's file handle, carried opaquely in a file-backed stream.
#[verifier::external_type_specification]
#[verifier::external_body]
pub struct ExFile(fs_err::File);

/// The standard-input handle, carried opaquely in a stdin-backed
/// stream.
#[verifier::external_type_specification]
#[verifier::external_body]
pub struct ExStdin(std::io::Stdin);

/// A byte source backed by whatever the URL's scheme yielded.
pub enum Stream {
    /// Bytes already in memory: a decoded `data:` URL's payload or a
    /// file retrieved over FTP.
    Memory(Vec<u8>),
    /// A live HTTP response body, consumed lazily.
    Http(ureq::Body),
    /// An open local file.
    File(fs_err::File),
    /// The process's standard input.
    Stdin(std::io::Stdin),
}

impl Stream {
    /// The bytes of an in-memory stream; a stream backed by a live
    /// handle has none to give without I/O.
    pub fn into_memory_bytes(self) -> (r: Option<Vec<u8>>)
        ensures
            self matches Stream::Memory(b) ==> r == Some(b),
            !(self matches Stream::Memory(_)) ==> r is None,
    {
        match self {
            Stream::Memory(b) => Some(b),
            _ => None,
        }
    }
}

} // verus!
