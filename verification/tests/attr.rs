use kriptofs::attr::{
    file_kind, permission_bits, translate, unix_epoch, FileAttr, FileKind, FileStat, Timestamp,
    FILE_TYPE_MASK, PERMISSION_MASK,
};

fn plain_file(len: u64) -> FileStat {
    FileStat {
        is_dir: false,
        is_file: true,
        is_symlink: false,
        len,
        blocks: 8,
        accessed: Some(Timestamp { secs: 1_700_000_000, nanos: 5 }),
        modified: Some(Timestamp { secs: 1_600_000_000, nanos: 7 }),
        mode: 0o100644,
        nlink: 1,
        uid: 1000,
        gid: 1001,
        rdev: 0,
        blksize: 4096,
    }
}

#[test]
fn translate_copies_what_the_host_reports() {
    let now = Timestamp { secs: 1_800_000_000, nanos: 11 };
    let attr = translate(42, &plain_file(5), now);
    assert_eq!(
        attr,
        FileAttr {
            ino: 42,
            size: 5,
            blocks: 8,
            atime: Timestamp { secs: 1_700_000_000, nanos: 5 },
            mtime: Timestamp { secs: 1_600_000_000, nanos: 7 },
            ctime: now,
            crtime: Timestamp { secs: 0, nanos: 0 },
            kind: FileKind::RegularFile,
            perm: 0o644,
            nlink: 1,
            uid: 1000,
            gid: 1001,
            rdev: 0,
            blksize: 4096,
            flags: 0,
        }
    );
}

#[test]
fn missing_times_fall_back_to_the_epoch() {
    let mut stat = plain_file(1);
    stat.accessed = None;
    stat.modified = None;
    let attr = translate(2, &stat, Timestamp { secs: 9, nanos: 9 });
    assert_eq!(attr.atime, Timestamp { secs: 0, nanos: 0 });
    assert_eq!(attr.mtime, Timestamp { secs: 0, nanos: 0 });
    assert_eq!(attr.ctime, Timestamp { secs: 9, nanos: 9 });
    assert_eq!(unix_epoch(), Timestamp { secs: 0, nanos: 0 });
}

#[test]
fn permission_field_holds_no_type_bits() {
    assert_eq!(PERMISSION_MASK, 0o7777);
    assert_eq!(FILE_TYPE_MASK, 0o170000);
    assert_eq!(permission_bits(0o100644), 0o644);
    assert_eq!(permission_bits(0o040755), 0o755);
    assert_eq!(permission_bits(0o120777), 0o777);
    assert_eq!(permission_bits(0o104755), 0o4755);
    assert_eq!(permission_bits(0o170000), 0);
    assert_eq!(permission_bits(u32::MAX), 0o7777);
    assert_eq!(permission_bits(0), 0);
    for mode in [0o100644u32, 0o040755, 0o120777, 0o060660, 0o010600, 0o140755, u32::MAX] {
        let mut stat = plain_file(0);
        stat.mode = mode;
        let attr = translate(7, &stat, unix_epoch());
        assert_eq!(attr.perm as u32 & FILE_TYPE_MASK, 0);
        assert_eq!(attr.perm as u32, mode & 0o7777);
    }
}

#[test]
fn kinds_are_directory_file_or_symlink() {
    let mut stat = plain_file(0);
    assert_eq!(file_kind(&stat), FileKind::RegularFile);
    stat.is_file = false;
    stat.is_dir = true;
    assert_eq!(file_kind(&stat), FileKind::Directory);
    stat.is_dir = false;
    stat.is_symlink = true;
    assert_eq!(file_kind(&stat), FileKind::Symlink);
    stat.is_symlink = false;
    assert_eq!(file_kind(&stat), FileKind::RegularFile);
    stat.is_dir = true;
    stat.is_file = true;
    stat.is_symlink = true;
    assert_eq!(file_kind(&stat), FileKind::Directory);
    stat.is_dir = false;
    assert_eq!(file_kind(&stat), FileKind::RegularFile);
}

#[test]
fn wide_counts_keep_their_low_32_bits() {
    let mut stat = plain_file(0);
    stat.nlink = (1u64 << 32) + 5;
    stat.rdev = u64::MAX;
    stat.blksize = 1u64 << 32;
    let attr = translate(3, &stat, unix_epoch());
    assert_eq!(attr.nlink, 5);
    assert_eq!(attr.rdev, u32::MAX);
    assert_eq!(attr.blksize, 0);
    stat.nlink = u32::MAX as u64;
    assert_eq!(translate(3, &stat, unix_epoch()).nlink, u32::MAX);
}
