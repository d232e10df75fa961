//! One protocol handler per scheme. The heart of `data`, `git`, and
//! `ipfs` is local computation; `file`, `ftp`, `http`, and `stdin` end
//! in a thin call into an external transport; `scp` is declared but not
//! enabled. The handlers share one HTTP client in `request`.

pub mod data;
pub mod file;
pub mod ftp;
pub mod git;
pub mod http;
pub mod ipfs;
pub mod request;
pub mod scp;
pub mod stdin;
