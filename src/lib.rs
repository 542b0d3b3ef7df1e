//! A read-only virtual filesystem over a content store that hands out whole
//! files by a path-like key.
//!
//! The adapter answers metadata and open requests and rejects every mutating
//! or structural operation; a file handle serves reads and seeks from the
//! bytes fetched when it was opened.
pub mod error;
pub mod file;
pub mod fs;
pub mod metadata;

pub use error::{unsupported, FsError};
pub use file::{IpfsFile, SeekFrom};
pub use fs::IpfsFs;
pub use metadata::{FileType, Metadata, OpenOptionsConfig};
