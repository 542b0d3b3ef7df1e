use vstd::prelude::*;

use crate::error::{unsupported, FsError};
use crate::file::IpfsFile;
use crate::metadata::{Metadata, OpenOptionsConfig};

verus! {

/// The filesystem over a content store; `C` is the client that fetches whole
/// files by key.
///
/// Opening a path fetches its content through the client and wraps it in an
/// [`IpfsFile`]; metadata is a zeroed record for every path, and every
/// operation that would list, create, move or remove entries is refused.
pub struct IpfsFs<C> {
    client: C,
}

impl<C> IpfsFs<C> {
    /// The client that the filesystem fetches through.
    pub closed spec fn held_client(self) -> C {
        self.client
    }

    /// A filesystem that fetches through `client`.
    pub fn new(client: C) -> (r: IpfsFs<C>)
        ensures
            r.held_client() == client,
    {
        IpfsFs { client }
    }

    /// The client to fetch the content of an opened path with.
    pub fn client(&self) -> (r: &C)
        ensures
            *r == self.held_client(),
    {
        &self.client
    }

    /// Symbolic links are not supported.
    pub fn readlink(&self, path: &str) -> (r: Result<String, FsError>)
        ensures
            r == Err::<String, FsError>(FsError::Unsupported),
    {
        unsupported()
    }

    /// Directories cannot be listed; the entries would be named by key.
    pub fn read_dir(&self, path: &str) -> (r: Result<Vec<String>, FsError>)
        ensures
            r == Err::<Vec<String>, FsError>(FsError::Unsupported),
    {
        unsupported()
    }

    /// The store is read-only: no directory can be created.
    pub fn create_dir(&self, path: &str) -> (r: Result<(), FsError>)
        ensures
            r == Err::<(), FsError>(FsError::Unsupported),
    {
        unsupported()
    }

    /// The store is read-only: no directory can be removed.
    pub fn remove_dir(&self, path: &str) -> (r: Result<(), FsError>)
        ensures
            r == Err::<(), FsError>(FsError::Unsupported),
    {
        unsupported()
    }

    /// The store is read-only: nothing can be renamed.
    pub fn rename(&self, from: &str, to: &str) -> (r: Result<(), FsError>)
        ensures
            r == Err::<(), FsError>(FsError::Unsupported),
    {
        unsupported()
    }

    /// A zeroed record for every path, whether the store holds it or not:
    /// only opening a path asks the store.
    pub fn metadata(&self, path: &str) -> (r: Result<Metadata, FsError>)
        ensures
            r is Ok,
            r->Ok_0.is_zeroed(),
    {
        Ok(Metadata::default())
    }

    /// Symbolic links are not supported.
    pub fn symlink_metadata(&self, path: &str) -> (r: Result<Metadata, FsError>)
        ensures
            r == Err::<Metadata, FsError>(FsError::Unsupported),
    {
        unsupported()
    }

    /// The store is read-only: no file can be removed.
    pub fn remove_file(&self, path: &str) -> (r: Result<(), FsError>)
        ensures
            r == Err::<(), FsError>(FsError::Unsupported),
    {
        unsupported()
    }

    /// Another filesystem cannot be mounted inside this one.
    pub fn mount<F>(&self, name: String, path: &str, fs: F) -> (r: Result<(), FsError>)
        ensures
            r == Err::<(), FsError>(FsError::Unsupported),
    {
        unsupported()
    }

    /// The modes that files of this filesystem are opened with: read only.
    pub fn new_open_options(&self) -> (r: OpenOptionsConfig)
        ensures
            r.is_read_only(),
    {
        OpenOptionsConfig {
            read: true,
            write: false,
            create_new: false,
            create: false,
            append: false,
            truncate: false,
        }
    }

    /// The key to fetch `path` by: its text, where it has one as a string.
    pub fn retrieval_key<'a>(&self, path: Option<&'a str>) -> (r: Result<&'a str, FsError>)
        ensures
            r == match path {
                Some(key) => Ok::<&'a str, FsError>(key),
                None => Err(FsError::EntryNotFound),
            },
    {
        match path {
            Some(key) => Ok(key),
            None => Err(FsError::EntryNotFound),
        }
    }

    /// Finishes opening `key` once the client has answered: the fetched bytes
    /// become a handle at offset zero; a failed fetch gives no handle.
    pub fn open_fetched<E>(&self, key: String, fetched: Result<Vec<u8>, E>) -> (r: Result<
        IpfsFile,
        FsError,
    >)
        ensures
            match fetched {
                Ok(bytes) => {
                    &&& r is Ok
                    &&& r->Ok_0.path_spec() == key@
                    &&& r->Ok_0.content() == bytes@
                    &&& r->Ok_0.cursor() == 0
                },
                Err(_) => r == Err::<IpfsFile, FsError>(FsError::IOError),
            },
    {
        match fetched {
            Ok(bytes) => Ok(IpfsFile::new(key, bytes)),
            Err(_) => Err(FsError::IOError),
        }
    }
}

} // verus!
