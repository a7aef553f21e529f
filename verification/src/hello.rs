//! A small read-only filesystem: a root directory with one file in it.

use vstd::prelude::*;
use vstd::string::StringSliceAdditionalSpecFns;
use crate::c_str::{cstr_as_bytes_no_term, CString};
use crate::errno::{ErrnoResult, EACCES, ENOENT, ENOSYS};
use crate::lowlevel::operation::OperationView;
use crate::lowlevel::ops::{FuseLowLevelOps, Verb};
use crate::lowlevel::reply::ReplyView;
use crate::lowlevel::types::{
    fuse_ino_t, AttrReply, DirEntry, DirEntryView, EntryReply, OpenReply, ReadReply,
    ReaddirReply,
};
use crate::native::Timeout;
use crate::stat::{default_stat, Stat, S_IFDIR, S_IFREG};

verus! {

/// The content of the file.
pub const HELLO_STR: &'static str = "Hello rusty world!\n";

/// The name of the file.
pub const HELLO_FILE_NAME: &'static str = "hello_from_rust";

/// The inode of the root directory.
pub const INO_ROOT_DIR: fuse_ino_t = 1;

/// The inode of the file.
pub const INO_HELLO_FILE: fuse_ino_t = 2;

/// The access mode bits for opening read-only.
pub const O_RDONLY: i32 = 0;

/// The mask of the access mode in open flags.
pub const O_ACCMODE: i32 = 3;

/// The bytes of the file.
pub open spec fn hello_content() -> Seq<u8> {
    HELLO_STR.spec_bytes()
}

/// The bytes of the name of the file.
pub open spec fn hello_name() -> Seq<u8> {
    HELLO_FILE_NAME.spec_bytes()
}

/// The file has 19 bytes, and its name 15; neither holds a NUL.
pub proof fn lemma_hello_strings()
    ensures
        hello_content().len() == 19,
        hello_name().len() == 15,
        CString::nul_free(hello_name()),
        ".".spec_bytes() == seq![0x2eu8],
        "..".spec_bytes() == seq![0x2eu8, 0x2eu8],
{
    reveal_strlit("Hello rusty world!\n");
    reveal_strlit("hello_from_rust");
    reveal_strlit(".");
    reveal_strlit("..");
    vstd::string::is_ascii_spec_bytes(HELLO_STR);
    vstd::string::is_ascii_spec_bytes(HELLO_FILE_NAME);
    vstd::string::is_ascii_spec_bytes(".");
    vstd::string::is_ascii_spec_bytes("..");
    assert(vstd::string::is_ascii(HELLO_STR));
    assert(vstd::string::is_ascii(HELLO_FILE_NAME));
    assert(vstd::string::is_ascii("."));
    assert(vstd::string::is_ascii(".."));
}

/// One second.
pub open spec fn one_second() -> Timeout {
    Timeout { secs: 1, nanos: 0 }
}

/// The attributes of the root directory: a directory with mode 0755 and two
/// links.
pub open spec fn root_dir_attr() -> Stat {
    Stat { st_mode: S_IFDIR | 0o755, st_nlink: 2, ..Stat::zeroed() }
}

/// The attributes of the file: a regular file with mode 0444, one link, and
/// the size of the content.
pub open spec fn hello_file_attr() -> Stat {
    Stat {
        st_mode: S_IFREG | 0o444,
        st_nlink: 1,
        st_size: hello_content().len() as i64,
        ..Stat::zeroed()
    }
}

/// The attributes of an inode, where there is such an inode.
pub open spec fn hello_attr(ino: fuse_ino_t) -> Option<Stat> {
    if ino == INO_ROOT_DIR {
        Some(root_dir_attr())
    } else if ino == INO_HELLO_FILE {
        Some(hello_file_attr())
    } else {
        None
    }
}

/// The full listing of the root directory: itself, its parent, and the
/// file, each with the offset at which a listing continues after it.
pub open spec fn hello_entries() -> Seq<DirEntryView> {
    seq![
        DirEntryView {
            ino: INO_ROOT_DIR,
            name: ".".spec_bytes(),
            mode: S_IFDIR | 0o755,
            next_offset: 1,
        },
        DirEntryView {
            ino: INO_ROOT_DIR,
            name: "..".spec_bytes(),
            mode: S_IFDIR | 0o755,
            next_offset: 2,
        },
        DirEntryView {
            ino: INO_HELLO_FILE,
            name: hello_name(),
            mode: S_IFREG | 0o444,
            next_offset: 3,
        },
    ]
}

/// The position in the full listing at which a listing from `off` starts.
/// An offset that is negative or beyond the listing starts at its end.
pub open spec fn listing_start(off: i64) -> int {
    if 0 <= off <= 3 {
        off as int
    } else {
        3
    }
}

/// The part of the content that a read of `size` bytes at `off` returns:
/// from `off` to the end of the content or to position `size`, whichever
/// comes first; nothing where that is before `off`, or `off` is negative.
pub open spec fn hello_read(size: usize, off: i64) -> Seq<u8> {
    let end = if hello_content().len() <= size {
        hello_content().len() as int
    } else {
        size as int
    };
    let begin = if 0 <= off <= end {
        off as int
    } else {
        end
    };
    hello_content().subrange(begin, end)
}

/// The verbs that the filesystem implements.
pub open spec fn hello_implements(verb: Verb) -> bool {
    verb == Verb::Getattr || verb == Verb::Lookup || verb == Verb::Readdir || verb == Verb::Open
        || verb == Verb::Read
}

/// The one answer of the filesystem to an operation. Nothing in it ever
/// changes, so an operation has the same answer every time.
pub open spec fn hello_answer(op: OperationView) -> Result<ReplyView, i32> {
    match op {
        OperationView::Getattr { ino } => match hello_attr(ino) {
            Some(st) => Ok(ReplyView::Attr(AttrReply { attr: st, attr_timeout: one_second() })),
            None => Err(ENOENT),
        },
        OperationView::Lookup { parent, name } => if parent == INO_ROOT_DIR && name
            == hello_name() {
            Ok(
                ReplyView::Entry(
                    EntryReply {
                        ino: INO_HELLO_FILE,
                        generation: 0,
                        attr: hello_file_attr(),
                        attr_timeout: one_second(),
                        entry_timeout: one_second(),
                    },
                ),
            )
        } else {
            Err(ENOENT)
        },
        OperationView::Readdir { ino, size, off, fh } => if ino == INO_ROOT_DIR {
            Ok(ReplyView::Readdir(size, hello_entries().subrange(listing_start(off), 3)))
        } else {
            Err(ENOENT)
        },
        OperationView::Open { ino, flags } => if ino != INO_HELLO_FILE {
            Err(ENOENT)
        } else if flags & O_ACCMODE != O_RDONLY {
            Err(EACCES)
        } else {
            Ok(ReplyView::Open(OpenReply { direct_io: false, keep_cache: false, fh: 0 }))
        },
        OperationView::Read { ino, size, off, fh } => if ino == INO_HELLO_FILE {
            Ok(ReplyView::Read(Some(hello_read(size, off))))
        } else {
            Err(ENOENT)
        },
        _ => Err(ENOSYS),
    }
}

/// The attributes of the root directory.
pub fn root_dir_stat() -> (st: Stat)
    ensures
        st == root_dir_attr(),
{
    Stat { st_mode: S_IFDIR | 0o755, st_nlink: 2, ..default_stat() }
}

/// The attributes of the file.
pub fn hello_file_stat() -> (st: Stat)
    ensures
        st == hello_file_attr(),
{
    proof {
        lemma_hello_strings();
    }
    Stat {
        st_mode: S_IFREG | 0o444,
        st_nlink: 1,
        st_size: HELLO_STR.as_bytes().len() as i64,
        ..default_stat()
    }
}

/// The attributes of an inode, or `None` for an inode that does not exist.
pub fn hello_stat(ino: fuse_ino_t) -> (st: Option<Stat>)
    ensures
        st == hello_attr(ino),
{
    if ino == INO_ROOT_DIR {
        Some(root_dir_stat())
    } else if ino == INO_HELLO_FILE {
        Some(hello_file_stat())
    } else {
        None
    }
}

/// Tells whether two byte strings are equal.
pub fn bytes_eq(a: &[u8], b: &[u8]) -> (eq: bool)
    ensures
        eq == (a@ == b@),
{
    if a.len() != b.len() {
        return false;
    }
    let mut i: usize = 0;
    while i < a.len()
        invariant
            i <= a@.len(),
            a@.len() == b@.len(),
            a@.subrange(0, i as int) == b@.subrange(0, i as int),
        decreases a@.len() - i,
    {
        if a[i] != b[i] {
            return false;
        }
        assert(a@.subrange(0, i + 1) == a@.subrange(0, i as int).push(a@[i as int]));
        assert(b@.subrange(0, i + 1) == b@.subrange(0, i as int).push(b@[i as int]));
        i += 1;
    }
    assert(a@ == a@.subrange(0, i as int));
    assert(b@ == b@.subrange(0, i as int));
    true
}

/// Appends the entry for `name` to a listing. A name that has no native
/// form adds nothing.
fn push_entry(
    entries: &mut Vec<DirEntry>,
    ino: fuse_ino_t,
    name: &'static str,
    mode: u32,
    next_offset: i64,
)
    ensures
        CString::nul_free(name.spec_bytes()) && name.spec_bytes().len() < usize::MAX ==> {
            &&& final(entries)@.len() == old(entries)@.len() + 1
            &&& final(entries)@.drop_last() == old(entries)@
            &&& final(entries)@.last()@ == (DirEntryView {
                ino,
                name: name.spec_bytes(),
                mode,
                next_offset,
            })
        },
{
    if let Some(name) = CString::new(name.as_bytes()) {
        entries.push(DirEntry { ino, name, mode, next_offset });
    }
}

/// The filesystem.
#[derive(Clone, Copy, Debug, PartialEq, Eq, Structural)]
pub struct HelloFs;

impl FuseLowLevelOps for HelloFs {
    open spec fn implements(&self, verb: Verb) -> bool {
        hello_implements(verb)
    }

    fn implemented(&self, verb: Verb) -> (b: bool) {
        match verb {
            Verb::Getattr | Verb::Lookup | Verb::Readdir | Verb::Open | Verb::Read => true,
            _ => false,
        }
    }

    open spec fn handles(&self, verb: Verb) -> bool {
        hello_implements(verb)
    }

    fn handler_present(&self, verb: Verb) -> (b: bool) {
        match verb {
            Verb::Getattr | Verb::Lookup | Verb::Readdir | Verb::Open | Verb::Read => true,
            _ => false,
        }
    }

    open spec fn answers(&self, op: OperationView, result: Result<ReplyView, i32>) -> bool {
        result == hello_answer(op)
    }

    /// The attributes of the root directory and of the file, cacheable for
    /// one second; any other inode does not exist.
    fn getattr(&self, ino: fuse_ino_t) -> (r: ErrnoResult<AttrReply>)
        ensures
            r == match hello_attr(ino) {
                Some(st) => Ok::<AttrReply, i32>(
                    AttrReply { attr: st, attr_timeout: one_second() },
                ),
                None => Err::<AttrReply, i32>(ENOENT),
            },
    {
        match hello_stat(ino) {
            Some(st) => Ok(AttrReply { attr: st, attr_timeout: Timeout { secs: 1, nanos: 0 } }),
            None => Err(ENOENT),
        }
    }

    fn getattr_is_implemented(&self) -> (b: bool)
        ensures
            b,
    {
        true
    }

    /// The file, for its name in the root directory; nothing else exists.
    fn lookup(&self, parent: fuse_ino_t, name: &CString) -> (r: ErrnoResult<EntryReply>)
        ensures
            r == if parent == INO_ROOT_DIR && name@ == hello_name() {
                Ok::<EntryReply, i32>(
                    EntryReply {
                        ino: INO_HELLO_FILE,
                        generation: 0,
                        attr: hello_file_attr(),
                        attr_timeout: one_second(),
                        entry_timeout: one_second(),
                    },
                )
            } else {
                Err::<EntryReply, i32>(ENOENT)
            },
    {
        if parent != INO_ROOT_DIR || !bytes_eq(
            cstr_as_bytes_no_term(name),
            HELLO_FILE_NAME.as_bytes(),
        ) {
            Err(ENOENT)
        } else {
            Ok(
                EntryReply {
                    ino: INO_HELLO_FILE,
                    generation: 0,
                    attr: hello_file_stat(),
                    attr_timeout: Timeout { secs: 1, nanos: 0 },
                    entry_timeout: Timeout { secs: 1, nanos: 0 },
                },
            )
        }
    }

    fn lookup_is_implemented(&self) -> (b: bool)
        ensures
            b,
    {
        true
    }

    /// The listing of the root directory from `off` on; no other inode is a
    /// directory.
    fn readdir(&self, ino: fuse_ino_t, _size: usize, off: i64, _fh: u64) -> (r: ErrnoResult<
        ReaddirReply,
    >)
        ensures
            ino != INO_ROOT_DIR ==> r == Err::<ReaddirReply, i32>(ENOENT),
            ino == INO_ROOT_DIR ==> (r matches Ok(reply) && reply@ == hello_entries().subrange(
                listing_start(off),
                3,
            )),
    {
        if ino != INO_ROOT_DIR {
            Err(ENOENT)
        } else {
            proof {
                lemma_hello_strings();
            }
            let mut entries: Vec<DirEntry> = Vec::new();
            push_entry(&mut entries, INO_ROOT_DIR, ".", root_dir_stat().st_mode, 1);
            push_entry(&mut entries, INO_ROOT_DIR, "..", root_dir_stat().st_mode, 2);
            push_entry(
                &mut entries,
                INO_HELLO_FILE,
                HELLO_FILE_NAME,
                hello_file_stat().st_mode,
                3,
            );
            assert(entries@.len() == 3);
            assert(entries@[0] == entries@.drop_last().drop_last().last());
            assert(entries@[1] == entries@.drop_last().last());
            let num_entries = entries.len();
            let start: usize = if off < 0 || off > 3 {
                num_entries
            } else {
                off as usize
            };
            let rest = entries.split_off(start);
            let reply = ReaddirReply::DirEntries(rest);
            assert(reply@ =~= hello_entries().subrange(listing_start(off), 3));
            Ok(reply)
        }
    }

    fn readdir_is_implemented(&self) -> (b: bool)
        ensures
            b,
    {
        true
    }

    /// The file can be opened for reading, and for nothing else; no other
    /// inode can be opened.
    fn open(&self, ino: fuse_ino_t, flags: i32) -> (r: ErrnoResult<OpenReply>)
        ensures
            r == if ino != INO_HELLO_FILE {
                Err::<OpenReply, i32>(ENOENT)
            } else if flags & O_ACCMODE != O_RDONLY {
                Err::<OpenReply, i32>(EACCES)
            } else {
                Ok::<OpenReply, i32>(OpenReply { direct_io: false, keep_cache: false, fh: 0 })
            },
    {
        if ino != INO_HELLO_FILE {
            Err(ENOENT)
        } else if flags & O_ACCMODE != O_RDONLY {
            Err(EACCES)
        } else {
            Ok(OpenReply { direct_io: false, keep_cache: false, fh: 0 })
        }
    }

    fn open_is_implemented(&self) -> (b: bool)
        ensures
            b,
    {
        true
    }

    /// The part of the content that [`hello_read`] says; no other inode can
    /// be read.
    fn read(&self, ino: fuse_ino_t, size: usize, off: i64, _fh: u64) -> (r: ErrnoResult<ReadReply>)
        ensures
            ino != INO_HELLO_FILE ==> r == Err::<ReadReply, i32>(ENOENT),
            ino == INO_HELLO_FILE ==> (r matches Ok(reply) && reply@ == Some(
                hello_read(size, off),
            )),
    {
        if ino != INO_HELLO_FILE {
            Err(ENOENT)
        } else {
            proof {
                lemma_hello_strings();
            }
            let content = HELLO_STR.as_bytes();
            let end: usize = if content.len() <= size {
                content.len()
            } else {
                size
            };
            let begin: usize = if off < 0 || off > end as i64 {
                end
            } else {
                off as usize
            };
            let slice_to_read = vstd::slice::slice_subrange(content, begin, end);
            Ok(ReadReply::DataBuffer(vstd::slice::slice_to_vec(slice_to_read)))
        }
    }

    fn read_is_implemented(&self) -> (b: bool)
        ensures
            b,
    {
        true
    }
}

} // verus!
