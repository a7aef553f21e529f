//! The path-based interface: four handlers that take a path, and the status
//! code each of their results becomes for the native layer.

use vstd::prelude::*;
use vstd::utf8::encode_utf8;
use crate::c_str::CString;
use crate::errno::EIO;
use crate::native::fuse_file_info;
use crate::stat::Stat;

verus! {

/// An error code as the handlers of this interface report it: a positive
/// POSIX errno value.
#[allow(non_camel_case_types)]
pub type errno = i32;

/// A file handle chosen by the filesystem at open.
#[allow(non_camel_case_types)]
pub type filehandle = u64;

/// One entry of a directory listing.
#[allow(non_camel_case_types)]
#[derive(Clone, Debug, PartialEq, Eq)]
pub struct dir_entry {
    pub name: String,
    /// Attributes, when the filesystem has them at hand.
    pub stat: Option<Stat>,
    /// Offset of the next entry, or zero when the listing is not resumable.
    pub off: i64,
}

/// One entry of a directory listing as it is handed to the native filler:
/// the name in its native form.
#[derive(Clone, Debug, PartialEq, Eq)]
pub struct FillerEntry {
    pub name: CString,
    pub stat: Option<Stat>,
    pub off: i64,
}

/// A [`FillerEntry`] as a value.
pub struct FillerEntryView {
    pub name: Seq<u8>,
    pub stat: Option<Stat>,
    pub off: i64,
}

impl View for FillerEntry {
    type V = FillerEntryView;

    open spec fn view(&self) -> FillerEntryView {
        FillerEntryView { name: self.name@, stat: self.stat, off: self.off }
    }
}

/// The entries for the native filler as values, in their order.
pub open spec fn fillers_view(entries: Seq<FillerEntry>) -> Seq<FillerEntryView> {
    entries.map_values(|e: FillerEntry| e@)
}

/// The bytes of the name of an entry.
pub open spec fn name_bytes(entry: dir_entry) -> Seq<u8> {
    encode_utf8(entry.name@)
}

/// What the native filler is handed for an entry: the bytes of its name,
/// its attributes and its offset.
pub open spec fn filler_entry(entry: dir_entry) -> FillerEntryView {
    FillerEntryView { name: name_bytes(entry), stat: entry.stat, off: entry.off }
}

/// Whether the name of every entry has a native form, which is so when
/// none holds a NUL.
pub open spec fn names_have_native_form(entries: Seq<dir_entry>) -> bool {
    forall|i: int|
        0 <= i < entries.len() ==> CString::has_native_form(#[trigger] name_bytes(entries[i]))
}

/// What a handler returns: an error code or a payload.
#[derive(Clone, Debug, PartialEq, Eq)]
pub enum ErrorOrResult<E, T> {
    Error(E),
    Result(T),
}

/// The filesystem, as four handlers that take a path.
///
/// What a filesystem returns is described by one predicate for each
/// handler, which it may define: the results that the handler may give for
/// its arguments. A filesystem that defines none allows every result.
pub trait FuseOperations {
    /// Whether `result` is a result that `getattr` may give for `path`.
    open spec fn getattr_returns(
        &self,
        path: Seq<char>,
        result: ErrorOrResult<errno, Stat>,
    ) -> bool {
        true
    }

    /// Whether `result` is a result that `readdir` may give for its
    /// arguments.
    open spec fn readdir_returns(
        &self,
        path: Seq<char>,
        offset: i64,
        info: fuse_file_info,
        result: ErrorOrResult<errno, Vec<dir_entry>>,
    ) -> bool {
        true
    }

    /// Whether `result` is a result that `open` may give for its arguments.
    open spec fn open_returns(
        &self,
        path: Seq<char>,
        info: fuse_file_info,
        result: ErrorOrResult<errno, filehandle>,
    ) -> bool {
        true
    }

    /// Whether `result` is a result that `read` may give for its arguments.
    open spec fn read_returns(
        &self,
        path: Seq<char>,
        size: usize,
        offset: i64,
        info: fuse_file_info,
        result: ErrorOrResult<errno, Vec<u8>>,
    ) -> bool {
        true
    }

    /// Gets the attributes of the file at `path`.
    fn getattr(&self, path: &str) -> (result: ErrorOrResult<errno, Stat>)
        ensures
            self.getattr_returns(path@, result),
    ;

    /// Lists the directory at `path` from `offset` on.
    fn readdir(&self, path: &str, offset: i64, info: &fuse_file_info) -> (result: ErrorOrResult<
        errno,
        Vec<dir_entry>,
    >)
        ensures
            self.readdir_returns(path@, offset, *info, result),
    ;

    /// Opens the file at `path`; the payload is its handle.
    fn open(&self, path: &str, info: &fuse_file_info) -> (result: ErrorOrResult<errno, filehandle>)
        ensures
            self.open_returns(path@, *info, result),
    ;

    /// Reads up to `size` bytes at `offset`; the payload holds the bytes read.
    fn read(&self, path: &str, size: usize, offset: i64, info: &fuse_file_info) -> (result:
        ErrorOrResult<errno, Vec<u8>>)
        ensures
            self.read_returns(path@, size, offset, *info, result),
    ;
}

/// The native table of this interface: for each slot, whether the bridge
/// installs a callback there, and the four flag fields.
#[derive(Clone, Copy, Debug, PartialEq, Eq, Structural)]
pub struct OperationSlots {
    pub getattr: bool,
    pub readlink: bool,
    pub getdir: bool,
    pub mknod: bool,
    pub mkdir: bool,
    pub unlink: bool,
    pub rmdir: bool,
    pub symlink: bool,
    pub rename: bool,
    pub link: bool,
    pub chmod: bool,
    pub chown: bool,
    pub truncate: bool,
    pub utime: bool,
    pub open: bool,
    pub read: bool,
    pub write: bool,
    pub statfs: bool,
    pub flush: bool,
    pub release: bool,
    pub fsync: bool,
    pub setxattr: bool,
    pub getxattr: bool,
    pub listxattr: bool,
    pub removexattr: bool,
    pub opendir: bool,
    pub readdir: bool,
    pub releasedir: bool,
    pub fsyncdir: bool,
    pub init: bool,
    pub destroy: bool,
    pub access: bool,
    pub create: bool,
    pub ftruncate: bool,
    pub fgetattr: bool,
    pub lock: bool,
    pub utimens: bool,
    pub bmap: bool,
    pub flag_nullpath_ok: u32,
    pub flag_nopath: u32,
    pub flag_utime_omit_ok: u32,
    pub flag_reserved: u32,
    pub ioctl: bool,
    pub poll: bool,
    pub write_buf: bool,
    pub read_buf: bool,
    pub flock: bool,
}

impl OperationSlots {
    /// The table the bridge hands to the native layer: the four handlers of
    /// [`FuseOperations`] installed, every other slot left to the native
    /// default.
    pub open spec fn bridged() -> OperationSlots {
        OperationSlots {
            getattr: true,
            readdir: true,
            open: true,
            read: true,
            readlink: false,
            getdir: false,
            mknod: false,
            mkdir: false,
            unlink: false,
            rmdir: false,
            symlink: false,
            rename: false,
            link: false,
            chmod: false,
            chown: false,
            truncate: false,
            utime: false,
            write: false,
            statfs: false,
            flush: false,
            release: false,
            fsync: false,
            setxattr: false,
            getxattr: false,
            listxattr: false,
            removexattr: false,
            opendir: false,
            releasedir: false,
            fsyncdir: false,
            init: false,
            destroy: false,
            access: false,
            create: false,
            ftruncate: false,
            fgetattr: false,
            lock: false,
            utimens: false,
            bmap: false,
            flag_nullpath_ok: 0,
            flag_nopath: 0,
            flag_utime_omit_ok: 0,
            flag_reserved: 29,
            ioctl: false,
            poll: false,
            write_buf: false,
            read_buf: false,
            flock: false,
        }
    }
}

/// What the native entry point is called with.
#[derive(Clone, Copy, Debug, PartialEq, Eq, Structural)]
pub struct MainCall {
    /// Number of arguments forwarded.
    pub argc: i32,
    /// The operation table.
    pub operations: OperationSlots,
}

/// The status code for an error: the negated errno. The one value that has
/// no negation stays as it is.
pub open spec fn error_status(e: errno) -> i32 {
    if e == i32::MIN {
        i32::MIN
    } else {
        (-e) as i32
    }
}

/// Computes [`error_status`].
pub fn negate_errno(e: errno) -> (status: i32)
    ensures
        status == error_status(e),
{
    if e == i32::MIN {
        e
    } else {
        -e
    }
}

/// Status code and attribute buffer for the result of a `getattr` handler:
/// the buffer is the handler's attributes and the status zero on success; on
/// an error the buffer is zero and the status the negated errno.
pub open spec fn getattr_outcome(result: ErrorOrResult<errno, Stat>) -> (i32, Stat) {
    match result {
        ErrorOrResult::Error(e) => (error_status(e), Stat::zeroed()),
        ErrorOrResult::Result(st) => (0, st),
    }
}

/// Computes [`getattr_outcome`]: the status is returned, and the buffer
/// filled.
pub fn getattr_status(result: ErrorOrResult<errno, Stat>, stbuf: &mut Stat) -> (status: i32)
    ensures
        status == getattr_outcome(result).0,
        *final(stbuf) == getattr_outcome(result).1,
{
    *stbuf = crate::stat::default_stat();
    match result {
        ErrorOrResult::Error(e) => negate_errno(e),
        ErrorOrResult::Result(st) => {
            *stbuf = st;
            0
        },
    }
}

/// Runs the `getattr` handler on `path` and turns its result into the status
/// code and the attribute buffer: they are the [`getattr_outcome`] of a
/// result that the handler may give for `path`. Whatever the handler
/// returns, a nonzero status leaves the buffer zero.
pub fn c_getattr<T: FuseOperations>(ops: &T, path: &str, stbuf: &mut Stat) -> (status: i32)
    ensures
        exists|result: ErrorOrResult<errno, Stat>| #[trigger]
            ops.getattr_returns(path@, result) && (status, *final(stbuf)) == getattr_outcome(
                result,
            ),
        status != 0 ==> *final(stbuf) == Stat::zeroed(),
{
    let result = ops.getattr(path);
    assert(ops.getattr_returns(path@, result));
    getattr_status(result, stbuf)
}

/// Status code and entries to hand to the native filler for the result of a
/// `readdir` handler: zero and the handler's entries in their order, each
/// with its name in native form, or the negated errno and no entry. A
/// listing with a name that has no native form, which is one with a NUL in
/// it, is an I/O error.
pub open spec fn readdir_outcome(result: ErrorOrResult<errno, Vec<dir_entry>>) -> (
    i32,
    Seq<FillerEntryView>,
) {
    match result {
        ErrorOrResult::Error(e) => (error_status(e), Seq::empty()),
        ErrorOrResult::Result(entries) => if names_have_native_form(entries@) {
            (0, entries@.map_values(|e: dir_entry| filler_entry(e)))
        } else {
            (error_status(EIO), Seq::empty())
        },
    }
}

/// Computes [`readdir_outcome`].
pub fn readdir_status(result: ErrorOrResult<errno, Vec<dir_entry>>) -> (r: (i32, Vec<FillerEntry>))
    ensures
        r.0 == readdir_outcome(result).0,
        fillers_view(r.1@) == readdir_outcome(result).1,
{
    match result {
        ErrorOrResult::Error(e) => {
            let none: Vec<FillerEntry> = Vec::new();
            assert(fillers_view(none@) == Seq::<FillerEntryView>::empty());
            (negate_errno(e), none)
        },
        ErrorOrResult::Result(entries) => {
            let mut fillers: Vec<FillerEntry> = Vec::new();
            let mut i: usize = 0;
            while i < entries.len()
                invariant
                    i <= entries@.len(),
                    result == ErrorOrResult::<errno, Vec<dir_entry>>::Result(entries),
                    names_have_native_form(entries@.take(i as int)),
                    fillers@.len() == i,
                    fillers_view(fillers@) == entries@.take(i as int).map_values(
                        |e: dir_entry| filler_entry(e),
                    ),
                decreases entries@.len() - i,
            {
                let entry = &entries[i];
                let ghost packed = fillers@;
                match CString::new(entry.name.as_str().as_bytes()) {
                    Some(name) => {
                        fillers.push(FillerEntry { name, stat: entry.stat, off: entry.off });
                    },
                    None => {
                        assert(!CString::has_native_form(name_bytes(entries@[i as int])));
                        let none: Vec<FillerEntry> = Vec::new();
                        assert(fillers_view(none@) == Seq::<FillerEntryView>::empty());
                        return (negate_errno(EIO), none);
                    },
                }
                proof {
                    let before = entries@.take(i as int);
                    let now = entries@.take(i + 1);
                    assert(now == before.push(entries@[i as int]));
                    assert forall|k: int| 0 <= k < now.len() implies CString::has_native_form(
                        #[trigger] name_bytes(now[k]),
                    ) by {
                        if k < i {
                            assert(now[k] == before[k]);
                        }
                    }
                    assert(fillers@ == packed.push(fillers@[i as int]));
                    assert(fillers@[i as int]@ == filler_entry(entries@[i as int]));
                    assert forall|k: int| 0 <= k < i implies fillers_view(fillers@)[k]
                        == now.map_values(|e: dir_entry| filler_entry(e))[k] by {
                        assert(fillers_view(packed)[k] == before.map_values(
                            |e: dir_entry| filler_entry(e),
                        )[k]);
                    }
                    assert(fillers_view(fillers@) =~= now.map_values(
                        |e: dir_entry| filler_entry(e),
                    ));
                }
                i += 1;
            }
            assert(entries@.take(i as int) == entries@);
            (0, fillers)
        },
    }
}

/// Runs the `readdir` handler and turns its result into the status code and
/// the entries for the native filler: they are the [`readdir_outcome`] of a
/// result that the handler may give for these arguments. Whatever the
/// handler returns, a nonzero status comes with no entry.
pub fn c_readdir<T: FuseOperations>(
    ops: &T,
    path: &str,
    offset: i64,
    fi: &fuse_file_info,
) -> (r: (i32, Vec<FillerEntry>))
    ensures
        exists|result: ErrorOrResult<errno, Vec<dir_entry>>| #[trigger]
            ops.readdir_returns(path@, offset, *fi, result) && (r.0, fillers_view(r.1@))
                == readdir_outcome(result),
        r.0 != 0 ==> r.1@.len() == 0,
{
    let result = ops.readdir(path, offset, fi);
    assert(ops.readdir_returns(path@, offset, *fi, result));
    let r = readdir_status(result);
    assert(fillers_view(r.1@).len() == r.1@.len());
    r
}

/// Status code and file information for the result of an `open` handler: on
/// success zero, and the handle stored in the information; on an error the
/// negated errno, and the information unchanged.
pub open spec fn open_outcome(result: ErrorOrResult<errno, filehandle>, info: fuse_file_info) -> (
    i32,
    fuse_file_info,
) {
    match result {
        ErrorOrResult::Error(e) => (error_status(e), info),
        ErrorOrResult::Result(fh) => (0, fuse_file_info { fh, ..info }),
    }
}

/// Computes [`open_outcome`]: the status is returned, and the information
/// updated.
pub fn open_status(result: ErrorOrResult<errno, filehandle>, info: &mut fuse_file_info) -> (status:
    i32)
    ensures
        status == open_outcome(result, *old(info)).0,
        *final(info) == open_outcome(result, *old(info)).1,
{
    match result {
        ErrorOrResult::Error(e) => negate_errno(e),
        ErrorOrResult::Result(fh) => {
            info.fh = fh;
            0
        },
    }
}

/// Runs the `open` handler and turns its result into the status code and the
/// file information: they are the [`open_outcome`] of a result that the
/// handler may give for these arguments. Whatever the handler returns, only
/// the handle of the information can change, and only with status zero.
pub fn c_open<T: FuseOperations>(ops: &T, path: &str, info: &mut fuse_file_info) -> (status: i32)
    ensures
        exists|result: ErrorOrResult<errno, filehandle>| #[trigger]
            ops.open_returns(path@, *old(info), result) && (status, *final(info))
                == open_outcome(result, *old(info)),
        *final(info) == (fuse_file_info { fh: final(info).fh, ..*old(info) }),
        status != 0 ==> *final(info) == *old(info),
{
    let result = ops.open(path, &*info);
    assert(ops.open_returns(path@, *old(info), result));
    open_status(result, info)
}

/// The number of bytes of a payload of `len` bytes that a read of `size`
/// bytes may report: no more than was asked for, and no more than a status
/// code can hold.
pub open spec fn read_count(len: int, size: int) -> int {
    let capped = if len <= size {
        len
    } else {
        size
    };
    if capped <= i32::MAX {
        capped
    } else {
        i32::MAX as int
    }
}

/// Status code and bytes to copy into the native buffer for the result of a
/// `read` handler: the count of bytes and that prefix of the payload, or the
/// negated errno and no byte.
pub open spec fn read_outcome(result: ErrorOrResult<errno, Vec<u8>>, size: usize) -> (
    i32,
    Seq<u8>,
) {
    match result {
        ErrorOrResult::Error(e) => (error_status(e), Seq::empty()),
        ErrorOrResult::Result(data) => (
            read_count(data@.len() as int, size as int) as i32,
            data@.subrange(0, read_count(data@.len() as int, size as int)),
        ),
    }
}

/// Computes [`read_outcome`].
pub fn read_status(result: ErrorOrResult<errno, Vec<u8>>, size: usize) -> (r: (i32, Vec<u8>))
    ensures
        r.0 == read_outcome(result, size).0,
        r.1@ == read_outcome(result, size).1,
{
    match result {
        ErrorOrResult::Error(e) => (negate_errno(e), Vec::new()),
        ErrorOrResult::Result(data) => {
            let mut data = data;
            let mut n: usize = if data.len() <= size {
                data.len()
            } else {
                size
            };
            if n > 0x7fff_ffff {
                n = 0x7fff_ffff;
            }
            let ghost whole = data@;
            data.truncate(n);
            assert(data@ == whole.subrange(0, n as int));
            (n as i32, data)
        },
    }
}

/// Runs the `read` handler and turns its result into the status code and the
/// bytes for the native buffer: they are the [`read_outcome`] of a result
/// that the handler may give for these arguments. Whatever the handler
/// returns, at most `size` bytes are handed back, and where any is, the
/// status is their number.
pub fn c_read<T: FuseOperations>(
    ops: &T,
    path: &str,
    size: usize,
    offset: i64,
    fi: &fuse_file_info,
) -> (r: (i32, Vec<u8>))
    ensures
        exists|result: ErrorOrResult<errno, Vec<u8>>| #[trigger]
            ops.read_returns(path@, size, offset, *fi, result) && (r.0, r.1@) == read_outcome(
                result,
                size,
            ),
        r.1@.len() <= size,
        r.1@.len() > 0 ==> r.0 == r.1@.len(),
{
    let result = ops.read(path, size, offset, fi);
    assert(ops.read_returns(path@, size, offset, *fi, result));
    read_status(result, size)
}

/// Prepares the call of the native entry point for `args`: the argument
/// count as the native layer takes it, and the table with exactly
/// the four handlers of [`FuseOperations`] installed.
pub fn fuse_main(args: &Vec<Vec<u8>>) -> (call: MainCall)
    requires
        args@.len() <= i32::MAX,
    ensures
        call.argc == args@.len(),
        call.operations == OperationSlots::bridged(),
{
    let cfo = OperationSlots {
        getattr: true,
        readdir: true,
        open: true,
        read: true,
        readlink: false,
        getdir: false,
        mknod: false,
        mkdir: false,
        unlink: false,
        rmdir: false,
        symlink: false,
        rename: false,
        link: false,
        chmod: false,
        chown: false,
        truncate: false,
        utime: false,
        write: false,
        statfs: false,
        flush: false,
        release: false,
        fsync: false,
        setxattr: false,
        getxattr: false,
        listxattr: false,
        removexattr: false,
        opendir: false,
        releasedir: false,
        fsyncdir: false,
        init: false,
        destroy: false,
        access: false,
        create: false,
        ftruncate: false,
        fgetattr: false,
        lock: false,
        utimens: false,
        bmap: false,
        flag_nullpath_ok: 0,
        flag_nopath: 0,
        flag_utime_omit_ok: 0,
        flag_reserved: 29,
        ioctl: false,
        poll: false,
        write_buf: false,
        read_buf: false,
        flock: false,
    };
    MainCall { argc: args.len() as i32, operations: cfo }
}

} // verus!
