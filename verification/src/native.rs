//! Plain-value forms of the structures the native layer passes across its
//! callbacks, besides file attributes.

use vstd::prelude::*;

verus! {

/// Per-open-file information, field for field what the native layer carries.
#[allow(non_camel_case_types)]
#[derive(Clone, Copy, Debug, PartialEq, Eq, Structural)]
pub struct fuse_file_info {
    /// Open flags.
    pub flags: i32,
    /// Old file handle; unused.
    pub fh_old: u64,
    /// Nonzero when a write comes from the page cache.
    pub writepage: i32,
    /// 1 to bypass the page cache for this file.
    pub direct_io: u32,
    /// 1 to keep cached data across opens.
    pub keep_cache: u32,
    pub flush: u32,
    pub nonseekable: u32,
    pub flock_release: u32,
    /// Padding; unused.
    pub padding: u32,
    /// File handle chosen by the filesystem at open.
    pub fh: u64,
    /// Lock owner id.
    pub lock_owner: u64,
}

impl fuse_file_info {
    /// The structure with every field zero.
    pub open spec fn zeroed() -> fuse_file_info {
        fuse_file_info {
            flags: 0,
            fh_old: 0,
            writepage: 0,
            direct_io: 0,
            keep_cache: 0,
            flush: 0,
            nonseekable: 0,
            flock_release: 0,
            padding: 0,
            fh: 0,
            lock_owner: 0,
        }
    }
}

impl Default for fuse_file_info {
    fn default() -> (fi: fuse_file_info)
        ensures
            fi == fuse_file_info::zeroed(),
    {
        fuse_file_info {
            flags: 0,
            fh_old: 0,
            writepage: 0,
            direct_io: 0,
            keep_cache: 0,
            flush: 0,
            nonseekable: 0,
            flock_release: 0,
            padding: 0,
            fh: 0,
            lock_owner: 0,
        }
    }
}

/// Filesystem statistics, field for field what the native layer carries.
#[derive(Clone, Copy, Debug, PartialEq, Eq, Structural)]
pub struct Statvfs {
    pub f_bsize: u64,
    pub f_frsize: u64,
    pub f_blocks: u64,
    pub f_bfree: u64,
    pub f_bavail: u64,
    pub f_files: u64,
    pub f_ffree: u64,
    pub f_favail: u64,
    pub f_fsid: u64,
    pub f_flag: u64,
    pub f_namemax: u64,
}

/// How long the kernel may cache what a reply carries, in the two parts the
/// kernel protocol keeps.
#[derive(Clone, Copy, Debug, PartialEq, Eq, Structural)]
pub struct Timeout {
    /// Whole seconds.
    pub secs: u64,
    /// Nanoseconds beyond the whole seconds.
    pub nanos: u32,
}

} // verus!
