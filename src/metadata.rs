use vstd::prelude::*;

verus! {

/// What kind of entry a path names.
#[derive(Clone, Copy, Debug, PartialEq, Eq, Structural)]
pub struct FileType {
    pub dir: bool,
    pub file: bool,
    pub symlink: bool,
    pub char_device: bool,
    pub block_device: bool,
    pub socket: bool,
    pub fifo: bool,
}

impl FileType {
    /// No kind flag is set.
    pub open spec fn is_empty(self) -> bool {
        !self.dir && !self.file && !self.symlink && !self.char_device && !self.block_device
            && !self.socket && !self.fifo
    }
}

impl Default for FileType {
    fn default() -> (r: FileType)
        ensures
            r.is_empty(),
    {
        FileType {
            dir: false,
            file: false,
            symlink: false,
            char_device: false,
            block_device: false,
            socket: false,
            fifo: false,
        }
    }
}

/// What the filesystem reports of a path: its kind, its times and its length.
#[derive(Clone, Copy, Debug, PartialEq, Eq, Structural)]
pub struct Metadata {
    pub ft: FileType,
    pub accessed: u64,
    pub created: u64,
    pub modified: u64,
    pub len: u64,
}

impl Metadata {
    /// No kind flag set, and every time and the length zero.
    pub open spec fn is_zeroed(self) -> bool {
        &&& self.ft.is_empty()
        &&& self.accessed == 0
        &&& self.created == 0
        &&& self.modified == 0
        &&& self.len == 0
    }
}

impl Default for Metadata {
    fn default() -> (r: Metadata)
        ensures
            r.is_zeroed(),
    {
        Metadata { ft: FileType::default(), accessed: 0, created: 0, modified: 0, len: 0 }
    }
}

/// The access modes that a file is opened with.
#[derive(Clone, Copy, Debug, PartialEq, Eq, Structural)]
pub struct OpenOptionsConfig {
    pub read: bool,
    pub write: bool,
    pub create_new: bool,
    pub create: bool,
    pub append: bool,
    pub truncate: bool,
}

impl OpenOptionsConfig {
    /// Reading allowed; writing, appending, creating and truncating denied.
    pub open spec fn is_read_only(self) -> bool {
        &&& self.read
        &&& !self.write
        &&& !self.create_new
        &&& !self.create
        &&& !self.append
        &&& !self.truncate
    }
}

} // verus!
