//! Attribute records, and how one is made from what the host reports of a file.

use vstd::prelude::*;

verus! {

/// The bits of a mode that hold permissions, with set-id and sticky bits.
pub const PERMISSION_MASK: u32 = 0o7777;

/// The bits of a mode that hold the file type.
pub const FILE_TYPE_MASK: u32 = 0o170000;

/// The kinds of file that an attribute record tells apart.
#[derive(Clone, Copy, Debug, PartialEq, Eq)]
pub enum FileKind {
    Directory,
    RegularFile,
    Symlink,
}

/// A point in time: seconds and nanoseconds since the Unix epoch.
#[derive(Clone, Copy, Debug, PartialEq, Eq)]
pub struct Timestamp {
    pub secs: i64,
    pub nanos: u32,
}

/// What the host reports of a file.
#[derive(Clone, Copy, Debug, PartialEq, Eq)]
pub struct FileStat {
    pub is_dir: bool,
    pub is_file: bool,
    pub is_symlink: bool,
    /// Size in bytes.
    pub len: u64,
    /// Allocated blocks.
    pub blocks: u64,
    /// Time of last access, where the host can tell.
    pub accessed: Option<Timestamp>,
    /// Time of last modification, where the host can tell.
    pub modified: Option<Timestamp>,
    /// The mode as the host holds it: file type and permissions.
    pub mode: u32,
    pub nlink: u64,
    pub uid: u32,
    pub gid: u32,
    pub rdev: u64,
    pub blksize: u64,
}

/// The attribute record of a file.
#[derive(Clone, Copy, Debug, PartialEq, Eq)]
pub struct FileAttr {
    pub ino: u64,
    pub size: u64,
    pub blocks: u64,
    pub atime: Timestamp,
    pub mtime: Timestamp,
    /// Time of the last status change: the time at which the record was made.
    pub ctime: Timestamp,
    pub crtime: Timestamp,
    pub kind: FileKind,
    /// Permission bits only, never file-type bits.
    pub perm: u16,
    pub nlink: u32,
    pub uid: u32,
    pub gid: u32,
    pub rdev: u32,
    pub blksize: u32,
    pub flags: u32,
}

/// The Unix epoch.
pub open spec fn epoch() -> Timestamp {
    Timestamp { secs: 0, nanos: 0 }
}

/// A directory is a directory, a symbolic link a symbolic link, and
/// everything else a regular file.
pub open spec fn kind_of(stat: FileStat) -> FileKind {
    if stat.is_dir {
        FileKind::Directory
    } else if stat.is_file {
        FileKind::RegularFile
    } else if stat.is_symlink {
        FileKind::Symlink
    } else {
        FileKind::RegularFile
    }
}

/// The permission part of a mode.
pub open spec fn permission_of(mode: u32) -> u16 {
    (mode & PERMISSION_MASK) as u16
}

/// The low 32 bits of a value.
pub open spec fn low_32(value: u64) -> u32 {
    (value % 0x1_0000_0000) as u32
}

/// The attribute record of the file with inode `ino` and host metadata
/// `stat`, made at time `now`.
pub open spec fn attr_of(ino: u64, stat: FileStat, now: Timestamp) -> FileAttr {
    FileAttr {
        ino,
        size: stat.len,
        blocks: stat.blocks,
        atime: match stat.accessed {
            Some(t) => t,
            None => epoch(),
        },
        mtime: match stat.modified {
            Some(t) => t,
            None => epoch(),
        },
        ctime: now,
        crtime: epoch(),
        kind: kind_of(stat),
        perm: permission_of(stat.mode),
        nlink: low_32(stat.nlink),
        uid: stat.uid,
        gid: stat.gid,
        rdev: low_32(stat.rdev),
        blksize: low_32(stat.blksize),
        flags: 0,
    }
}

/// No file-type bit survives in a permission field, whatever the mode, and
/// every permission bit does.
pub proof fn lemma_permission_only(mode: u32)
    ensures
        permission_of(mode) as u32 & FILE_TYPE_MASK == 0,
        permission_of(mode) as u32 == mode & PERMISSION_MASK,
        permission_of(mode) <= PERMISSION_MASK,
{
    assert(((mode & 0o7777) as u16) as u32 & 0o170000 == 0) by (bit_vector);
    assert(((mode & 0o7777) as u16) as u32 == mode & 0o7777) by (bit_vector);
    assert(((mode & 0o7777) as u16) <= 0o7777) by (bit_vector);
}

fn truncate_32(value: u64) -> (low: u32)
    ensures
        low == low_32(value),
{
    assert(value & 0xffff_ffff == value % 0x1_0000_0000) by (bit_vector);
    assert(value & 0xffff_ffff <= 0xffff_ffff) by (bit_vector);
    (value & 0xffff_ffff) as u32
}

/// The Unix epoch.
pub fn unix_epoch() -> (t: Timestamp)
    ensures
        t == epoch(),
{
    Timestamp { secs: 0, nanos: 0 }
}

/// The kind of file that `stat` describes.
pub fn file_kind(stat: &FileStat) -> (kind: FileKind)
    ensures
        kind == kind_of(*stat),
{
    if stat.is_dir {
        FileKind::Directory
    } else if stat.is_file {
        FileKind::RegularFile
    } else if stat.is_symlink {
        FileKind::Symlink
    } else {
        FileKind::RegularFile
    }
}

/// The permission bits of `mode`, without its file-type bits.
pub fn permission_bits(mode: u32) -> (perm: u16)
    ensures
        perm == permission_of(mode),
        perm as u32 & FILE_TYPE_MASK == 0,
        perm as u32 == mode & PERMISSION_MASK,
{
    proof {
        lemma_permission_only(mode);
    }
    assert(mode & 0o7777 <= 0xffff) by (bit_vector);
    (mode & PERMISSION_MASK) as u16
}

/// Makes the attribute record of the file with inode `ino` from the host's
/// metadata. Times that the host cannot tell are the epoch, the time of the
/// last status change is `now`, the flags are zero.
pub fn translate(ino: u64, stat: &FileStat, now: Timestamp) -> (attr: FileAttr)
    ensures
        attr == attr_of(ino, *stat, now),
        attr.perm as u32 & FILE_TYPE_MASK == 0,
{
    let atime = match stat.accessed {
        Some(t) => t,
        None => unix_epoch(),
    };
    let mtime = match stat.modified {
        Some(t) => t,
        None => unix_epoch(),
    };
    FileAttr {
        ino,
        size: stat.len,
        blocks: stat.blocks,
        atime,
        mtime,
        ctime: now,
        crtime: unix_epoch(),
        kind: file_kind(stat),
        perm: permission_bits(stat.mode),
        nlink: truncate_32(stat.nlink),
        uid: stat.uid,
        gid: stat.gid,
        rdev: truncate_32(stat.rdev),
        blksize: truncate_32(stat.blksize),
        flags: 0,
    }
}

} // verus!
