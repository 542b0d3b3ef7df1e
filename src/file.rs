use vstd::prelude::*;

use crate::error::{unsupported, FsError};

verus! {

/// Where a seek is measured from, as a seekable stream takes it.
#[derive(Clone, Copy, Debug, PartialEq, Eq, Structural)]
pub enum SeekFrom {
    /// An offset from the first byte.
    Start(u64),
    /// A signed offset from the end of the content.
    End(i64),
    /// A signed offset from the cursor.
    Current(i64),
}

/// The position a seek aims at, before it is brought into the content.
pub open spec fn seek_target(size: nat, cursor: nat, from: SeekFrom) -> int {
    match from {
        SeekFrom::Start(n) => n as int,
        SeekFrom::End(d) => size + d,
        SeekFrom::Current(d) => cursor + d,
    }
}

/// A target position held to `[0, size]`.
pub open spec fn clamp_position(target: int, size: nat) -> nat {
    if target < 0 {
        0
    } else if target > size {
        size
    } else {
        target as nat
    }
}

/// The cursor after seeking from `cursor` over content of length `size`.
pub open spec fn seek_position(size: nat, cursor: nat, from: SeekFrom) -> nat {
    clamp_position(seek_target(size, cursor, from), size)
}

/// The bytes that a read of at most `capacity` bytes at `cursor` yields.
pub open spec fn bytes_read(content: Seq<u8>, cursor: nat, capacity: nat) -> Seq<u8> {
    if cursor >= content.len() {
        Seq::empty()
    } else if cursor + capacity <= content.len() {
        content.subrange(cursor as int, (cursor + capacity) as int)
    } else {
        content.subrange(cursor as int, content.len() as int)
    }
}

/// Reading a freshly opened file with room for all of it yields exactly its
/// content, and any read after that yields nothing.
pub proof fn lemma_read_whole_then_nothing(content: Seq<u8>, capacity: nat)
    ensures
        bytes_read(content, 0, content.len()) == content,
        bytes_read(content, content.len(), capacity) == Seq::<u8>::empty(),
{
    assert(content.subrange(0, content.len() as int) =~= content);
}

/// Seeking to an offset `k` within the content and then reading with room
/// for the rest yields the suffix from `k`; seeking past the end and reading
/// yields nothing, without failing.
pub proof fn lemma_seek_then_read(content: Seq<u8>, cursor: nat, k: u64, capacity: nat)
    ensures
        k <= content.len() ==> seek_position(content.len(), cursor, SeekFrom::Start(k)) == k,
        k <= content.len() && k + capacity >= content.len() ==> bytes_read(
            content,
            seek_position(content.len(), cursor, SeekFrom::Start(k)),
            capacity,
        ) == content.subrange(k as int, content.len() as int),
        k > content.len() ==> bytes_read(
            content,
            seek_position(content.len(), cursor, SeekFrom::Start(k)),
            capacity,
        ) == Seq::<u8>::empty(),
{
}

/// One opened file: the whole content fetched for `path`, and a read cursor.
pub struct IpfsFile {
    path: String,
    size: usize,
    content: Vec<u8>,
    pos: usize,
}

impl IpfsFile {
    #[verifier::type_invariant]
    closed spec fn inv(self) -> bool {
        &&& self.size == self.content@.len()
        &&& self.pos <= self.size
    }

    /// The key the content was fetched by.
    pub closed spec fn path_spec(self) -> Seq<char> {
        self.path@
    }

    /// The bytes of the file.
    pub closed spec fn content(self) -> Seq<u8> {
        self.content@
    }

    /// The offset of the next byte that a read returns.
    pub closed spec fn cursor(self) -> nat {
        self.pos as nat
    }

    /// A handle over `bytes`, with the cursor at the first byte.
    pub fn new(path: String, bytes: Vec<u8>) -> (r: IpfsFile)
        ensures
            r.path_spec() == path@,
            r.content() == bytes@,
            r.cursor() == 0,
    {
        let size = bytes.len();
        IpfsFile { path, size, content: bytes, pos: 0 }
    }

    /// Copies up to `capacity` bytes from the cursor on and moves the cursor
    /// past them; at the end of the content nothing is copied.
    pub fn read(&mut self, capacity: usize) -> (r: Vec<u8>)
        ensures
            r@ == bytes_read(old(self).content(), old(self).cursor(), capacity as nat),
            final(self).cursor() == old(self).cursor() + r@.len(),
            final(self).content() == old(self).content(),
            final(self).path_spec() == old(self).path_spec(),
            final(self).cursor() <= final(self).content().len(),
    {
        proof {
            use_type_invariant(&*self);
        }
        let start = self.pos;
        let end: usize = if capacity <= self.size - start {
            start + capacity
        } else {
            self.size
        };
        let mut out: Vec<u8> = Vec::new();
        let mut i: usize = start;
        while i < end
            invariant
                start <= i <= end,
                end <= self.content@.len(),
                out@ == self.content@.subrange(start as int, i as int),
            decreases end - i,
        {
            out.push(self.content[i]);
            i = i + 1;
            assert(out@ =~= self.content@.subrange(start as int, i as int));
        }
        self.pos = end;
        out
    }

    /// Moves the cursor as `from` says, held to `[0, size]`, and returns the
    /// new cursor.
    pub fn seek(&mut self, from: SeekFrom) -> (r: u64)
        ensures
            final(self).cursor() == seek_position(
                old(self).content().len(),
                old(self).cursor(),
                from,
            ),
            r == final(self).cursor(),
            final(self).content() == old(self).content(),
            final(self).path_spec() == old(self).path_spec(),
            final(self).cursor() <= final(self).content().len(),
    {
        proof {
            use_type_invariant(&*self);
        }
        let size = self.size as i128;
        let target: i128 = match from {
            SeekFrom::Start(n) => n as i128,
            SeekFrom::End(d) => size + d as i128,
            SeekFrom::Current(d) => self.pos as i128 + d as i128,
        };
        let new_pos: usize = if target < 0 {
            0
        } else if target > size {
            self.size
        } else {
            target as usize
        };
        self.pos = new_pos;
        new_pos as u64
    }

    /// Writing is refused: the handle is read-only.
    pub fn write(&mut self, buf: &[u8]) -> (r: Result<usize, FsError>)
        ensures
            r == Err::<usize, FsError>(FsError::Unsupported),
            *final(self) == *old(self),
    {
        unsupported()
    }

    /// Flushing is refused: nothing is ever written.
    pub fn flush(&mut self) -> (r: Result<(), FsError>)
        ensures
            r == Err::<(), FsError>(FsError::Unsupported),
            *final(self) == *old(self),
    {
        unsupported()
    }

    /// Shutting down the write side is refused: there is none.
    pub fn shutdown(&mut self) -> (r: Result<(), FsError>)
        ensures
            r == Err::<(), FsError>(FsError::Unsupported),
            *final(self) == *old(self),
    {
        unsupported()
    }

    /// Setting the access and modification times is refused.
    pub fn set_times(&mut self, atime: Option<u64>, mtime: Option<u64>) -> (r: Result<(), FsError>)
        ensures
            r == Err::<(), FsError>(FsError::Unsupported),
            *final(self) == *old(self),
    {
        unsupported()
    }

    /// Resizing is refused.
    pub fn set_len(&mut self, new_size: u64) -> (r: Result<(), FsError>)
        ensures
            r == Err::<(), FsError>(FsError::Unsupported),
            *final(self) == *old(self),
    {
        unsupported()
    }

    /// Removing the file from the store is refused.
    pub fn unlink(&mut self) -> (r: Result<(), FsError>)
        ensures
            r == Err::<(), FsError>(FsError::Unsupported),
            *final(self) == *old(self),
    {
        unsupported()
    }

    /// Writing from a memory map is refused.
    pub fn write_from_mmap(&mut self, offset: u64, len: u64) -> (r: Result<(), FsError>)
        ensures
            r == Err::<(), FsError>(FsError::Unsupported),
            *final(self) == *old(self),
    {
        unsupported()
    }

    /// The number of bytes of the file, fixed when it was opened.
    pub fn size(&self) -> (r: u64)
        ensures
            r == self.content().len(),
    {
        proof {
            use_type_invariant(self);
        }
        self.size as u64
    }

    /// No access time is kept: always zero.
    pub fn last_accessed(&self) -> (r: u64)
        ensures
            r == 0,
    {
        0
    }

    /// No modification time is kept: always zero.
    pub fn last_modified(&self) -> (r: u64)
        ensures
            r == 0,
    {
        0
    }

    /// No creation time is kept: always zero.
    pub fn created_time(&self) -> (r: u64)
        ensures
            r == 0,
    {
        0
    }

    /// A handle is open for as long as it exists.
    pub fn is_open(&self) -> (r: bool)
        ensures
            r,
    {
        true
    }

    /// A fetched file is never one of the standard streams.
    pub fn get_special_fd(&self) -> (r: Option<u32>)
        ensures
            r is None,
    {
        None
    }

    /// Ready at once, with no byte count announced: the content is in memory.
    pub fn read_ready(&self) -> (r: usize)
        ensures
            r == 0,
    {
        0
    }

    /// Ready at once, with no byte count announced: writes fail at once.
    pub fn write_ready(&self) -> (r: usize)
        ensures
            r == 0,
    {
        0
    }

    /// The key the content was fetched by.
    pub fn path(&self) -> (r: &String)
        ensures
            r@ == self.path_spec(),
    {
        &self.path
    }

    /// The offset of the next byte that a read returns.
    pub fn position(&self) -> (r: u64)
        ensures
            r == self.cursor(),
            r <= self.content().len(),
    {
        proof {
            use_type_invariant(self);
        }
        self.pos as u64
    }
}

} // verus!
