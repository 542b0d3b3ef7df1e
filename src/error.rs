use vstd::prelude::*;

verus! {

/// The ways in which an operation of the filesystem can fail.
#[derive(Clone, Copy, Debug, PartialEq, Eq, Structural)]
pub enum FsError {
    /// The operation has no meaning for a read-only store without directories.
    Unsupported,
    /// The path cannot be turned into a retrieval key.
    EntryNotFound,
    /// The content store could not deliver the file.
    IOError,
}

/// The one rejection that every unsupported operation returns.
pub fn unsupported<T>() -> (r: Result<T, FsError>)
    ensures
        r == Err::<T, FsError>(FsError::Unsupported),
{
    Err(FsError::Unsupported)
}

} // verus!
