//! What handlers take and return.

use vstd::prelude::*;
use crate::c_str::CString;
use crate::native::Timeout;
use crate::stat::Stat;

verus! {

/// An inode number. Inode 1 is the root.
#[allow(non_camel_case_types)]
pub type fuse_ino_t = u64;

/// What `open` and `opendir` return.
#[derive(Clone, Copy, Debug, PartialEq, Eq, Structural)]
pub struct OpenReply {
    /// Bypass the page cache for this file.
    pub direct_io: bool,
    /// Keep cached data across opens.
    pub keep_cache: bool,
    /// File handle, handed back on every later call on the open file.
    pub fh: u64,
}

impl Default for OpenReply {
    fn default() -> (r: OpenReply)
        ensures
            r == (OpenReply { direct_io: false, keep_cache: false, fh: 0 }),
    {
        OpenReply { direct_io: false, keep_cache: false, fh: 0 }
    }
}

/// What the verbs that name a directory entry return: the inode behind the
/// name, with its attributes and how long each may be cached.
#[derive(Clone, Copy, Debug, PartialEq, Eq, Structural)]
pub struct EntryReply {
    pub ino: fuse_ino_t,
    /// Distinguishes reuses of one inode number.
    pub generation: u64,
    pub attr: Stat,
    pub attr_timeout: Timeout,
    pub entry_timeout: Timeout,
}

/// What `create` returns: the new entry, opened.
#[derive(Clone, Copy, Debug, PartialEq, Eq, Structural)]
pub struct CreateReply {
    pub open_reply: OpenReply,
    pub entry_param: EntryReply,
}

/// What `getattr` and `setattr` return.
#[derive(Clone, Copy, Debug, PartialEq, Eq, Structural)]
pub struct AttrReply {
    pub attr: Stat,
    pub attr_timeout: Timeout,
}

/// One attribute that `setattr` is asked to change.
#[allow(non_camel_case_types)]
#[derive(Clone, Copy, Debug, PartialEq, Eq, Structural)]
pub enum AttrToSet {
    Mode(u32),
    Uid(u32),
    Gid(u32),
    Size(i64),
    Atime(i64),
    Mtime(i64),
    /// Set the access time to the current time.
    Atime_now,
    /// Set the modification time to the current time.
    Mtime_now,
}

/// What `read`, `getxattr` and `listxattr` return.
#[derive(Clone, Debug, PartialEq, Eq)]
pub enum ReadReply {
    DataBuffer(Vec<u8>),
    EOF,
}

impl View for ReadReply {
    type V = Option<Seq<u8>>;

    /// The bytes of the buffer, or `None` for the end of the file.
    open spec fn view(&self) -> Option<Seq<u8>> {
        match self {
            ReadReply::DataBuffer(data) => Some(data@),
            ReadReply::EOF => None,
        }
    }
}

/// One entry of a directory listing.
#[derive(Clone, Debug, PartialEq, Eq)]
pub struct DirEntry {
    pub ino: fuse_ino_t,
    pub name: CString,
    pub mode: u32,
    /// Where a later listing call resumes to continue after this entry.
    pub next_offset: i64,
}

/// A directory entry as a value: its name is the content of the native
/// string.
pub struct DirEntryView {
    pub ino: fuse_ino_t,
    pub name: Seq<u8>,
    pub mode: u32,
    pub next_offset: i64,
}

impl View for DirEntry {
    type V = DirEntryView;

    open spec fn view(&self) -> DirEntryView {
        DirEntryView {
            ino: self.ino,
            name: self.name@,
            mode: self.mode,
            next_offset: self.next_offset,
        }
    }
}

/// The entries of a listing as values, in their order.
pub open spec fn entries_view(entries: Seq<DirEntry>) -> Seq<DirEntryView> {
    entries.map_values(|e: DirEntry| e@)
}

/// What `readdir` returns.
#[derive(Clone, Debug, PartialEq, Eq)]
pub enum ReaddirReply {
    /// The entries from the requested offset on, in listing order.
    DirEntries(Vec<DirEntry>),
}

impl View for ReaddirReply {
    type V = Seq<DirEntryView>;

    open spec fn view(&self) -> Seq<DirEntryView> {
        match self {
            ReaddirReply::DirEntries(entries) => entries_view(entries@),
        }
    }
}

/// Options for mounting.
#[derive(Clone, Debug, PartialEq, Eq)]
pub struct FuseMountOptions {
    /// Command-line arguments that go to the native layer as they are.
    pub args: Vec<Vec<u8>>,
}

impl Default for FuseMountOptions {
    fn default() -> (r: FuseMountOptions)
        ensures
            r.args@.len() == 0,
    {
        FuseMountOptions { args: Vec::new() }
    }
}

} // verus!
