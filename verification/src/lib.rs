//! The core of a pass-through file system: the table that ties inode numbers
//! to paths of the source tree, the attribute records made from host metadata,
//! directory listings that can be resumed, and the decisions behind the five
//! requests `lookup`, `getattr`, `read`, `readdir` and `open`.
//!
//! Nothing here touches the host file system. The caller performs each host
//! operation and hands its outcome over as plain values.
//!
//! Paths and names are strings. The library compares them, joins them at
//! `/` and hands them back, and never looks at what else they hold. A caller
//! whose host names are arbitrary bytes loses none of them by writing each
//! byte as the character of the same number.
//!
//! Every function that changes the inode table takes the file system by
//! `&mut`, so each request sees the table whole and no path can get two
//! inodes. Whoever shares a file system between threads puts it behind one
//! lock.

pub mod attr;
pub mod directory;
pub mod errors;
pub mod inode_table;
pub mod paths;
pub mod requests;
