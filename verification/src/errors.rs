//! The errors a request can end in, and their codes on the wire.

use vstd::prelude::*;

verus! {

/// Why a request failed.
#[derive(Clone, Copy, Debug, PartialEq, Eq)]
pub enum FsError {
    /// The inode is unknown, or the host could not stat, list or open the path.
    NotFound,
    /// The host opened the file but could not seek or read.
    IoError,
    /// The request asked for an access mode that is not granted.
    PermissionDenied,
}

/// The code that stands for `error` in a reply: `ENOENT`, `EIO` or `EACCES`
/// as Linux, macOS and FreeBSD number them.
pub open spec fn errno_of(error: FsError) -> i32 {
    match error {
        FsError::NotFound => 2,
        FsError::IoError => 5,
        FsError::PermissionDenied => 13,
    }
}

/// Reads `libc::ENOENT`.
///
/// Trusted: libc defines the constant as 2 for Linux, Android, macOS and the
/// BSDs, the targets on which a mount can be made. For some others, such as
/// Emscripten, WASI, Hurd and Haiku, it defines another number.
#[verifier::external_body]
fn code_not_found() -> (code: i32)
    ensures
        code == 2,
{
    libc::ENOENT
}

/// Reads `libc::EIO`.
///
/// Trusted: libc defines the constant as 5 for Linux, Android, macOS and the
/// BSDs, the targets on which a mount can be made. For some others, such as
/// Emscripten, WASI, Hurd and Haiku, it defines another number.
#[verifier::external_body]
fn code_io() -> (code: i32)
    ensures
        code == 5,
{
    libc::EIO
}

/// Reads `libc::EACCES`.
///
/// Trusted: libc defines the constant as 13 for Linux, Android, macOS and the
/// BSDs, the targets on which a mount can be made. For some others, such as
/// Emscripten, WASI, Hurd and Haiku, it defines another number.
#[verifier::external_body]
fn code_access() -> (code: i32)
    ensures
        code == 13,
{
    libc::EACCES
}

impl FsError {
    /// The error code to put in the reply.
    pub fn errno(&self) -> (code: i32)
        ensures
            code == errno_of(*self),
    {
        match self {
            FsError::NotFound => code_not_found(),
            FsError::IoError => code_io(),
            FsError::PermissionDenied => code_access(),
        }
    }
}

} // verus!
