//! The `file:` scheme: the URL is mapped to a local filesystem path,
//! which is opened for reading. Filesystem access is a black box whose
//! outcome depends on what is on disk, so the contract promises the
//! shape of every outcome, not success. The handle comes from fs-err
//! rather than the standard library directly: its open keeps the
//! operating system's error kind while naming the offending path in
//! the rendered message, which is what `FailedFileIo` carries.

use vstd::prelude::*;

use crate::error::{Error, IoKind};
use crate::stream::Stream;
use crate::url::Url;

verus! {

/// Relies on fs-err's `File::open`: a read-only open of the path; on
/// failure the operating system's error kind is kept and the cause is
/// rendered with the path named.
#[verifier::external_body]
fn open_file_read(path: &str) -> Result<fs_err::File, (IoKind, String)> {
    match fs_err::File::open(path) {
        Ok(f) => Ok(f),
        Err(e) => {
            let kind = match e.kind() {
                std::io::ErrorKind::NotFound => IoKind::NotFound,
                std::io::ErrorKind::PermissionDenied => IoKind::PermissionDenied,
                _ => IoKind::Other,
            };
            Err((kind, format!("{}", e)))
        },
    }
}

/// What opening a `file:` URL returns: where the URL names no local
/// path, `InvalidFileUrl` carrying the URL; where it names one, a
/// file-backed stream or the file I/O failure the filesystem gave.
pub open spec fn file_open_post(
    raw: Seq<char>,
    local_path: Option<Seq<char>>,
    r: Result<Stream, Error>,
) -> bool {
    match local_path {
        Option::None => r matches Err(e) && e matches Error::InvalidFileUrl(x) && x@ == raw,
        Option::Some(_) => (r matches Ok(st) && st matches Stream::File(_)) || (r matches Err(e)
            && e matches Error::FailedFileIo(_, _)),
    }
}

/// Opens the local file a `file:` URL names, for reading.
pub fn open(url: &Url) -> (r: Result<Stream, Error>)
    ensures
        file_open_post(url@.raw, url@.local_path, r),
{
    let path = match &url.local_path {
        Option::Some(p) => p,
        Option::None => {
            return Err(Error::InvalidFileUrl(url.as_str().to_owned()));
        },
    };
    match open_file_read(path.as_str()) {
        Ok(f) => Ok(Stream::File(f)),
        Err((kind, m)) => Err(Error::FailedFileIo(kind, m)),
    }
}

} // verus!
