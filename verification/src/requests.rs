//! The five requests: `lookup`, `getattr`, `read`, `readdir` and `open`.
//!
//! Each request is answered by one function. Where an answer depends on the
//! host file system, the caller asks the host first and hands the outcome in:
//! the metadata of a path or `None` where the host had none, the children of a
//! directory or `None` where it could not be listed, the outcome of opening,
//! seeking and reading a file.

use vstd::prelude::*;
use crate::attr::{attr_of, translate, FileAttr, FileStat, Timestamp, FILE_TYPE_MASK};
use crate::directory::{children_view, listing_start, DirChild, DirCursor};
use crate::errors::FsError;
use crate::inode_table::{allocate, inode_of, lemma_inode_at, path_of, PassthroughFS};
use crate::paths::{join_path, joined_path};

verus! {

/// For how many seconds the kernel may keep an entry or an attribute record.
pub const TTL_SECS: u64 = 1;

/// The bits of the flags of `open` that hold the access mode.
pub const ACCESS_MODE_MASK: i32 = 3;

/// The access mode that asks for reading only.
pub const READ_ONLY: i32 = 0;

/// The answer to `lookup`.
#[derive(Clone, Copy, Debug, PartialEq, Eq)]
pub struct EntryReply {
    pub ttl_secs: u64,
    pub attr: FileAttr,
    /// Generations are not kept: always 0.
    pub generation: u64,
}

/// The answer to `getattr`.
#[derive(Clone, Copy, Debug, PartialEq, Eq)]
pub struct AttrReply {
    pub ttl_secs: u64,
    pub attr: FileAttr,
}

/// The answer to `open`. No file handles are kept: both fields are always 0.
#[derive(Clone, Copy, Debug, PartialEq, Eq)]
pub struct OpenReply {
    pub fh: u64,
    pub flags: u32,
}

/// How the host fared when it opened a file, sought the position and read.
#[derive(Debug, PartialEq, Eq)]
pub enum ReadOutcome {
    /// The file could not be opened.
    OpenFailed,
    /// The file was opened, but the position could not be sought.
    SeekFailed,
    /// The position was sought, but reading failed.
    ReadFailed,
    /// The host read `count` bytes into the front of `buffer`.
    Read { buffer: Vec<u8>, count: usize },
}

/// Whether the flags of `open` ask for reading only.
pub open spec fn is_read_only(flags: i32) -> bool {
    flags & ACCESS_MODE_MASK == READ_ONLY
}

/// Where in the file a read at `offset` starts. The host counts positions
/// without a sign: a negative offset stands for a position of 2^63 or more.
pub open spec fn position_of(offset: i64) -> u64 {
    if offset >= 0 {
        offset as u64
    } else {
        (offset + 0x1_0000_0000_0000_0000) as u64
    }
}

/// What a read of `size` bytes hands back of a buffer in which the host left
/// `count` bytes: these bytes, and never more than were asked for or than the
/// buffer holds.
pub open spec fn read_data(buffer: Seq<u8>, count: int, size: int) -> Seq<u8> {
    if count <= size && count <= buffer.len() {
        buffer.take(count)
    } else if size <= buffer.len() {
        buffer.take(size)
    } else {
        buffer
    }
}

/// The answer to a read of `size` bytes, given whether the inode is known
/// and how the host fared.
pub open spec fn read_result(known: bool, size: u32, outcome: ReadOutcome) -> Result<
    Seq<u8>,
    FsError,
> {
    if !known {
        Err(FsError::NotFound)
    } else {
        match outcome {
            ReadOutcome::OpenFailed => Err(FsError::NotFound),
            ReadOutcome::SeekFailed => Err(FsError::IoError),
            ReadOutcome::ReadFailed => Err(FsError::IoError),
            ReadOutcome::Read { buffer, count } => Ok(read_data(buffer@, count as int, size as int)),
        }
    }
}

/// How many bytes a file of `file_size` bytes holds for a read of `size`
/// bytes at `position`.
pub open spec fn bytes_available(file_size: nat, position: nat, size: nat) -> nat {
    if position >= file_size {
        0
    } else if file_size - position < size {
        (file_size - position) as nat
    } else {
        size
    }
}

/// A read at or behind the end of the file is answered with no bytes and no
/// error, where the host hands over what the file holds from the position on.
pub proof fn lemma_read_behind_end(
    file_size: nat,
    position: nat,
    size: u32,
    buffer: Vec<u8>,
    count: usize,
)
    requires
        position >= file_size,
        count == bytes_available(file_size, position, size as nat),
    ensures
        read_result(true, size, ReadOutcome::Read { buffer, count }) == Ok::<Seq<u8>, FsError>(
            Seq::empty(),
        ),
{
    assert(buffer@.take(0) =~= Seq::empty());
}

/// A read that reaches over the end of the file is answered with exactly the
/// bytes between the position and the end, where the host hands over what the
/// file holds from the position on, in a buffer of the size asked for.
pub proof fn lemma_read_over_end(
    file_size: nat,
    position: nat,
    size: u32,
    buffer: Vec<u8>,
    count: usize,
)
    requires
        position <= file_size,
        position + size > file_size,
        buffer@.len() == size,
        count == bytes_available(file_size, position, size as nat),
    ensures
        read_result(true, size, ReadOutcome::Read { buffer, count }) == Ok::<Seq<u8>, FsError>(
            buffer@.take(file_size - position),
        ),
        buffer@.take(file_size - position).len() == file_size - position,
{
}

/// Where in the file a read at `offset` starts.
pub fn seek_position(offset: i64) -> (position: u64)
    ensures
        position == position_of(offset),
{
    assert(offset >= 0 ==> offset as u64 == offset) by (bit_vector);
    assert(offset < 0 ==> offset as u64 == offset + 0x1_0000_0000_0000_0000) by (bit_vector);
    offset as u64
}

/// A buffer of `size` zero bytes for the host to read into.
pub fn read_buffer(size: u32) -> (buffer: Vec<u8>)
    ensures
        buffer@ == Seq::new(size as nat, |i: int| 0u8),
{
    let buffer = vec![0u8; size as usize];
    assert(buffer@ =~= Seq::new(size as nat, |i: int| 0u8));
    buffer
}

impl PassthroughFS {
    /// The path of the child `name` of the directory `parent`, for the host to
    /// stat; `None` if `parent` is no inode of the table.
    pub fn child_path(&self, parent: u64, name: &str) -> (path: Option<String>)
        ensures
            path is Some <==> path_of(self@, parent) is Some,
            path matches Some(p) ==> p@ == joined_path(path_of(self@, parent).unwrap(), name@),
    {
        match self.get_path(parent) {
            Some(base) => Some(join_path(base.as_str(), name)),
            None => None,
        }
    }

    /// The attribute record of `path`, whose metadata the host reported as
    /// `stat`.
    ///
    /// Without metadata the answer is `NotFound`, whatever kept the host from
    /// reporting it, and the table stays as it is. With metadata the path
    /// gets its inode, and the record is made at time `now`.
    pub fn get_file_attr(&mut self, path: &str, stat: Option<&FileStat>, now: Timestamp) -> (result:
        Result<FileAttr, FsError>)
        requires
            old(self).wf(),
        ensures
            final(self).wf(),
            final(self).root() == old(self).root(),
            old(self)@.is_prefix_of(final(self)@),
            stat is None ==> result == Err::<FileAttr, FsError>(FsError::NotFound) && final(self)@
                == old(self)@,
            stat matches Some(st) ==> final(self)@ == allocate(old(self)@, path@) && inode_of(
                final(self)@,
                path@,
            ) is Some && result == Ok::<FileAttr, FsError>(
                attr_of(inode_of(final(self)@, path@).unwrap(), *st, now),
            ),
            result matches Ok(attr) ==> attr.perm as u32 & FILE_TYPE_MASK == 0,
    {
        match stat {
            Some(st) => {
                let ino = self.get_inode(path);
                Ok(translate(ino, st, now))
            },
            None => Err(FsError::NotFound),
        }
    }

    /// Answers `lookup` of the child `name` of the directory `parent`.
    ///
    /// `stat` is what the host reported of `child_path(parent, name)`. The
    /// answer is `NotFound` if `parent` is no inode of the table or the host
    /// reported nothing. Else the child gets its inode and the answer holds
    /// its attribute record.
    pub fn lookup(
        &mut self,
        parent: u64,
        name: &str,
        stat: Option<&FileStat>,
        now: Timestamp,
    ) -> (result: Result<EntryReply, FsError>)
        requires
            old(self).wf(),
        ensures
            final(self).wf(),
            final(self).root() == old(self).root(),
            old(self)@.is_prefix_of(final(self)@),
            result is Ok <==> path_of(old(self)@, parent) is Some && stat is Some,
            result matches Err(e) ==> e == FsError::NotFound && final(self)@ == old(self)@,
            result matches Ok(reply) ==> ({
                let path = joined_path(path_of(old(self)@, parent).unwrap(), name@);
                &&& final(self)@ == allocate(old(self)@, path)
                &&& inode_of(final(self)@, path) is Some
                &&& reply.attr == attr_of(inode_of(final(self)@, path).unwrap(), *stat.unwrap(), now)
                &&& reply.attr.perm as u32 & FILE_TYPE_MASK == 0
                &&& reply.ttl_secs == TTL_SECS
                &&& reply.generation == 0
            }),
    {
        let path = match self.child_path(parent, name) {
            Some(path) => path,
            None => {
                return Err(FsError::NotFound);
            },
        };
        match self.get_file_attr(path.as_str(), stat, now) {
            Ok(attr) => Ok(EntryReply { ttl_secs: TTL_SECS, attr, generation: 0 }),
            Err(e) => Err(e),
        }
    }

    /// Answers `getattr` of the inode `ino`.
    ///
    /// `stat` is what the host reported of `get_path(ino)`. The answer is
    /// `NotFound` if `ino` is no inode of the table or the host reported
    /// nothing. The table stays as it is.
    pub fn getattr(&mut self, ino: u64, stat: Option<&FileStat>, now: Timestamp) -> (result: Result<
        AttrReply,
        FsError,
    >)
        requires
            old(self).wf(),
        ensures
            final(self).wf(),
            final(self).root() == old(self).root(),
            final(self)@ == old(self)@,
            result is Ok <==> path_of(old(self)@, ino) is Some && stat is Some,
            result matches Err(e) ==> e == FsError::NotFound,
            result matches Ok(reply) ==> ({
                &&& reply.attr == attr_of(ino, *stat.unwrap(), now)
                &&& reply.attr.perm as u32 & FILE_TYPE_MASK == 0
                &&& reply.ttl_secs == TTL_SECS
            }),
    {
        let path = match self.get_path(ino) {
            Some(path) => path,
            None => {
                return Err(FsError::NotFound);
            },
        };
        proof {
            self.lemma_wf_table();
            assert(self@[ino - 1] == path@);
            lemma_inode_at(self@, ino - 1);
        }
        match self.get_file_attr(path.as_str(), stat, now) {
            Ok(attr) => Ok(AttrReply { ttl_secs: TTL_SECS, attr }),
            Err(e) => Err(e),
        }
    }

    /// Answers `read` of up to `size` bytes of the inode `ino`.
    ///
    /// `outcome` is how the host fared with `get_path(ino)`: opened afresh,
    /// sought to `seek_position` of the offset, read once into
    /// `read_buffer(size)`. The answer is `NotFound` if `ino` is no inode of
    /// the table or the file could not be opened, `IoError` if seeking or
    /// reading failed, and else exactly the bytes that the host read.
    pub fn read(&self, ino: u64, size: u32, outcome: ReadOutcome) -> (result: Result<
        Vec<u8>,
        FsError,
    >)
        ensures
            (match result {
                Ok(data) => read_result(path_of(self@, ino) is Some, size, outcome) == Ok::<
                    Seq<u8>,
                    FsError,
                >(data@),
                Err(e) => read_result(path_of(self@, ino) is Some, size, outcome) == Err::<
                    Seq<u8>,
                    FsError,
                >(e),
            }),
    {
        if !self.has_inode(ino) {
            return Err(FsError::NotFound);
        }
        match outcome {
            ReadOutcome::OpenFailed => Err(FsError::NotFound),
            ReadOutcome::SeekFailed => Err(FsError::IoError),
            ReadOutcome::ReadFailed => Err(FsError::IoError),
            ReadOutcome::Read { buffer, count } => {
                let mut data = buffer;
                if count <= size as usize {
                    data.truncate(count);
                } else {
                    data.truncate(size as usize);
                }
                Ok(data)
            },
        }
    }

    /// Answers `readdir` of the inode `ino`, resumed at `offset`.
    ///
    /// `listing` holds the children that the host reported of `get_path(ino)`,
    /// in the host's order. The answer is `NotFound` if `ino` is no inode of
    /// the table or the host could not list the path, as it cannot where the
    /// path is no directory. Else it is a cursor that hands out the entries
    /// from `offset` on.
    pub fn readdir(&self, ino: u64, offset: i64, listing: Option<Vec<DirChild>>) -> (result: Result<
        DirCursor,
        FsError,
    >)
        ensures
            result is Ok <==> path_of(self@, ino) is Some && listing is Some,
            result matches Err(e) ==> e == FsError::NotFound,
            result matches Ok(cursor) ==> ({
                let children = children_view(listing.unwrap()@);
                &&& cursor.wf()
                &&& cursor.dir_ino() == ino
                &&& Some(cursor.dir_path()) == path_of(self@, ino)
                &&& cursor.children() == children
                &&& cursor.position() == listing_start(children, offset)
            }),
    {
        let path = match self.get_path(ino) {
            Some(path) => path,
            None => {
                return Err(FsError::NotFound);
            },
        };
        match listing {
            Some(children) => Ok(DirCursor::new(ino, path, offset, children)),
            None => Err(FsError::NotFound),
        }
    }

    /// Answers `open`: a request to read only is granted, whatever the inode,
    /// and every other is refused with `PermissionDenied`. No file handle is
    /// made.
    pub fn open(&self, _ino: u64, flags: i32) -> (result: Result<OpenReply, FsError>)
        ensures
            is_read_only(flags) ==> (result matches Ok(reply) && reply.fh == 0 && reply.flags == 0),
            !is_read_only(flags) ==> result == Err::<OpenReply, FsError>(
                FsError::PermissionDenied,
            ),
    {
        if flags & ACCESS_MODE_MASK == READ_ONLY {
            Ok(OpenReply { fh: 0, flags: 0 })
        } else {
            Err(FsError::PermissionDenied)
        }
    }
}

} // verus!
