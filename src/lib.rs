//! Compression backend for package archives: one entry point turns a byte
//! buffer into a finished gzip or xz stream, tagged with the codec that made it.

pub mod compress;
pub mod util;

pub use compress::{compress_xz, compress_xz_with_threads, xz_or_gz, Compressed, CompressionError};
pub use util::{fname_from_path, MyJoin};
