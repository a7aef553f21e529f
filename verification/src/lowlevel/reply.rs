//! The reply codec: from the result of a handler to the one native reply
//! call that answers the request.

use vstd::prelude::*;
use vstd::utf8::encode_utf8;
use crate::c_str::CString;
use crate::errno::{ErrnoResult, EIO, ENOSYS};
use crate::lowlevel::dirbuf::{pack_dir_entries, packed_dirents};
use crate::lowlevel::types::{
    AttrReply, CreateReply, DirEntryView, EntryReply, OpenReply, ReadReply, ReaddirReply,
};
use crate::native::{fuse_file_info, Statvfs, Timeout};
use crate::stat::Stat;

verus! {

/// What a handler hands back on success, one variant for each kind of
/// reply that the native layer knows.
#[derive(Clone, Debug, PartialEq, Eq)]
pub enum Reply {
    /// A directory entry.
    Entry(EntryReply),
    /// Attributes.
    Attr(AttrReply),
    /// Nothing, for `forget`, which the native layer answers without data
    /// and without a status.
    Forgotten,
    /// The target of a symbolic link.
    Readlink(String),
    /// Nothing but success.
    Done,
    /// An opened file or directory.
    Open(OpenReply),
    /// A created and opened file.
    Create(CreateReply),
    /// Bytes read.
    Read(ReadReply),
    /// A directory listing, with the size of the buffer it is to be packed
    /// into.
    Readdir(usize, ReaddirReply),
    /// The number of bytes written.
    Write(usize),
    /// Filesystem statistics.
    Statfs(Statvfs),
    /// The size of an extended attribute value or list.
    Xattr(usize),
}

/// A [`Reply`] as a value.
pub enum ReplyView {
    Entry(EntryReply),
    Attr(AttrReply),
    Forgotten,
    Readlink(Seq<char>),
    Done,
    Open(OpenReply),
    Create(CreateReply),
    Read(Option<Seq<u8>>),
    Readdir(usize, Seq<DirEntryView>),
    Write(usize),
    Statfs(Statvfs),
    Xattr(usize),
}

impl View for Reply {
    type V = ReplyView;

    open spec fn view(&self) -> ReplyView {
        match self {
            Reply::Entry(e) => ReplyView::Entry(*e),
            Reply::Attr(a) => ReplyView::Attr(*a),
            Reply::Forgotten => ReplyView::Forgotten,
            Reply::Readlink(link) => ReplyView::Readlink(link@),
            Reply::Done => ReplyView::Done,
            Reply::Open(o) => ReplyView::Open(*o),
            Reply::Create(c) => ReplyView::Create(*c),
            Reply::Read(r) => ReplyView::Read(r@),
            Reply::Readdir(size, r) => ReplyView::Readdir(*size, r@),
            Reply::Write(count) => ReplyView::Write(*count),
            Reply::Statfs(s) => ReplyView::Statfs(*s),
            Reply::Xattr(size) => ReplyView::Xattr(*size),
        }
    }
}

/// One call of the native reply surface, with its arguments. Every request
/// is answered by exactly one.
#[derive(Clone, Debug, PartialEq, Eq)]
pub enum NativeReply {
    /// The entry reply: inode, generation, attributes and the two timeouts.
    Entry(EntryReply),
    /// The attribute reply: attributes and their timeout.
    Attr(Stat, Timeout),
    /// The reply without data and without a status.
    NoReply,
    /// The link reply: the target in its native form.
    Readlink(CString),
    /// The error reply: an errno value, or zero for success without data.
    Error(i32),
    /// The open reply: file information.
    Open(fuse_file_info),
    /// The create reply: entry and file information.
    Create(EntryReply, fuse_file_info),
    /// The buffer reply: bytes; none at the end of a file or of a listing.
    Buf(Vec<u8>),
    /// The write reply: a count of bytes.
    Write(usize),
    /// The statistics reply.
    Statfs(Statvfs),
    /// The extended-attribute reply: a size.
    Xattr(usize),
}

/// A [`NativeReply`] as a value.
pub enum NativeReplyView {
    Entry(EntryReply),
    Attr(Stat, Timeout),
    NoReply,
    Readlink(Seq<u8>),
    Error(i32),
    Open(fuse_file_info),
    Create(EntryReply, fuse_file_info),
    Buf(Seq<u8>),
    Write(usize),
    Statfs(Statvfs),
    Xattr(usize),
}

impl View for NativeReply {
    type V = NativeReplyView;

    open spec fn view(&self) -> NativeReplyView {
        match self {
            NativeReply::Entry(e) => NativeReplyView::Entry(*e),
            NativeReply::Attr(attr, timeout) => NativeReplyView::Attr(*attr, *timeout),
            NativeReply::NoReply => NativeReplyView::NoReply,
            NativeReply::Readlink(link) => NativeReplyView::Readlink(link@),
            NativeReply::Error(errno) => NativeReplyView::Error(*errno),
            NativeReply::Open(fi) => NativeReplyView::Open(*fi),
            NativeReply::Create(e, fi) => NativeReplyView::Create(*e, *fi),
            NativeReply::Buf(bytes) => NativeReplyView::Buf(bytes@),
            NativeReply::Write(count) => NativeReplyView::Write(*count),
            NativeReply::Statfs(s) => NativeReplyView::Statfs(*s),
            NativeReply::Xattr(size) => NativeReplyView::Xattr(*size),
        }
    }
}

/// The result of a handler that returns a directory entry, as a payload.
pub open spec fn entry_result(result: ErrnoResult<EntryReply>) -> Result<ReplyView, i32> {
    match result {
        Ok(reply) => Ok(ReplyView::Entry(reply)),
        Err(errno) => Err(errno),
    }
}

/// The result of a handler that returns attributes, as a payload.
pub open spec fn attr_result(result: ErrnoResult<AttrReply>) -> Result<ReplyView, i32> {
    match result {
        Ok(reply) => Ok(ReplyView::Attr(reply)),
        Err(errno) => Err(errno),
    }
}

/// The result of `readlink`, as a payload.
pub open spec fn readlink_result(result: ErrnoResult<String>) -> Result<ReplyView, i32> {
    match result {
        Ok(reply) => Ok(ReplyView::Readlink(reply@)),
        Err(errno) => Err(errno),
    }
}

/// The result of a handler that returns nothing but success, as a payload.
pub open spec fn done_result(result: ErrnoResult<()>) -> Result<ReplyView, i32> {
    match result {
        Ok(reply) => Ok(ReplyView::Done),
        Err(errno) => Err(errno),
    }
}

/// The result of `open` or `opendir`, as a payload.
pub open spec fn open_result(result: ErrnoResult<OpenReply>) -> Result<ReplyView, i32> {
    match result {
        Ok(reply) => Ok(ReplyView::Open(reply)),
        Err(errno) => Err(errno),
    }
}

/// The result of `create`, as a payload.
pub open spec fn create_result(result: ErrnoResult<CreateReply>) -> Result<ReplyView, i32> {
    match result {
        Ok(reply) => Ok(ReplyView::Create(reply)),
        Err(errno) => Err(errno),
    }
}

/// The result of a handler that returns bytes, as a payload.
pub open spec fn read_result(result: ErrnoResult<ReadReply>) -> Result<ReplyView, i32> {
    match result {
        Ok(reply) => Ok(ReplyView::Read(reply@)),
        Err(errno) => Err(errno),
    }
}

/// The result of `readdir`, as a payload: the listing with the size of the
/// buffer that the call came with.
pub open spec fn readdir_result(size: usize, result: ErrnoResult<ReaddirReply>) -> Result<
    ReplyView,
    i32,
> {
    match result {
        Ok(reply) => Ok(ReplyView::Readdir(size, reply@)),
        Err(errno) => Err(errno),
    }
}

/// The result of `write`, as a payload.
pub open spec fn write_result(result: ErrnoResult<usize>) -> Result<ReplyView, i32> {
    match result {
        Ok(reply) => Ok(ReplyView::Write(reply)),
        Err(errno) => Err(errno),
    }
}

/// The result of `statfs`, as a payload.
pub open spec fn statfs_result(result: ErrnoResult<Statvfs>) -> Result<ReplyView, i32> {
    match result {
        Ok(reply) => Ok(ReplyView::Statfs(reply)),
        Err(errno) => Err(errno),
    }
}

/// The result of a query for the size of an extended attribute value or
/// list, as a payload.
pub open spec fn xattr_result(result: ErrnoResult<usize>) -> Result<ReplyView, i32> {
    match result {
        Ok(reply) => Ok(ReplyView::Xattr(reply)),
        Err(errno) => Err(errno),
    }
}

/// Whether a result says that the operation is not implemented. A handler
/// may always answer so.
pub open spec fn declined(result: Result<ReplyView, i32>) -> bool {
    result == Err::<ReplyView, i32>(ENOSYS)
}

/// The file information that answers an open: the two caching flags as bits
/// and the handle, every other field zero.
pub open spec fn fileinfo_of(reply: OpenReply) -> fuse_file_info {
    fuse_file_info {
        direct_io: if reply.direct_io {
            1
        } else {
            0
        },
        keep_cache: if reply.keep_cache {
            1
        } else {
            0
        },
        fh: reply.fh,
        ..fuse_file_info::zeroed()
    }
}

/// The native reply for a payload.
pub open spec fn native_reply(reply: ReplyView) -> NativeReplyView {
    match reply {
        ReplyView::Entry(e) => NativeReplyView::Entry(e),
        ReplyView::Attr(a) => NativeReplyView::Attr(a.attr, a.attr_timeout),
        ReplyView::Forgotten => NativeReplyView::NoReply,
        ReplyView::Readlink(link) => if CString::has_native_form(encode_utf8(link)) {
            NativeReplyView::Readlink(encode_utf8(link))
        } else {
            NativeReplyView::Error(EIO)
        },
        ReplyView::Done => NativeReplyView::Error(0),
        ReplyView::Open(o) => NativeReplyView::Open(fileinfo_of(o)),
        ReplyView::Create(c) => NativeReplyView::Create(c.entry_param, fileinfo_of(c.open_reply)),
        ReplyView::Read(r) => NativeReplyView::Buf(
            match r {
                Some(data) => data,
                None => Seq::empty(),
            },
        ),
        ReplyView::Readdir(size, entries) => NativeReplyView::Buf(
            packed_dirents(entries, size as nat),
        ),
        ReplyView::Write(count) => NativeReplyView::Write(count),
        ReplyView::Statfs(s) => NativeReplyView::Statfs(s),
        ReplyView::Xattr(size) => NativeReplyView::Xattr(size),
    }
}

/// The native reply for the result of a handler: for an error the error
/// reply with the same code, for a payload the reply of its kind.
pub open spec fn reply_for(result: Result<ReplyView, i32>) -> NativeReplyView {
    match result {
        Ok(reply) => native_reply(reply),
        Err(errno) => NativeReplyView::Error(errno),
    }
}

/// The result of a handler as a value.
pub open spec fn result_view(result: ErrnoResult<Reply>) -> Result<ReplyView, i32> {
    match result {
        Ok(reply) => Ok(reply@),
        Err(errno) => Err(errno),
    }
}

/// The entry reply for a directory entry.
pub fn reply_entryparam(reply: EntryReply) -> (r: NativeReply)
    ensures
        r@ == native_reply(ReplyView::Entry(reply)),
{
    NativeReply::Entry(reply)
}

/// The attribute reply: the attributes and their timeout.
pub fn reply_attr(reply: AttrReply) -> (r: NativeReply)
    ensures
        r@ == native_reply(ReplyView::Attr(reply)),
{
    NativeReply::Attr(reply.attr, reply.attr_timeout)
}

/// The reply to a `forget`: without data and without a status.
pub fn reply_none() -> (r: NativeReply)
    ensures
        r@ == native_reply(ReplyView::Forgotten),
{
    NativeReply::NoReply
}

/// The reply for the target of a symbolic link: the link reply with the
/// bytes of the target, or an I/O error for a target that has no native
/// form, which is one with a NUL in it.
pub fn reply_readlink(link: String) -> (r: NativeReply)
    ensures
        r@ == native_reply(ReplyView::Readlink(link@)),
{
    match CString::new(link.as_str().as_bytes()) {
        Some(target) => NativeReply::Readlink(target),
        None => NativeReply::Error(EIO),
    }
}

/// The reply for success without data: the error reply with code zero.
pub fn reply_zero_err() -> (r: NativeReply)
    ensures
        r@ == native_reply(ReplyView::Done),
{
    NativeReply::Error(0)
}

/// The reply on behalf of a handler that ended abnormally: an I/O error.
pub fn reply_failure_err() -> (r: NativeReply)
    ensures
        r@ == NativeReplyView::Error(EIO),
{
    NativeReply::Error(EIO)
}

/// The file information that answers an open: the two caching flags as bits
/// and the handle, every other field zero.
pub fn openreply_to_fileinfo(reply: OpenReply) -> (fi: fuse_file_info)
    ensures
        fi == fileinfo_of(reply),
{
    fuse_file_info {
        direct_io: if reply.direct_io {
            1
        } else {
            0
        },
        keep_cache: if reply.keep_cache {
            1
        } else {
            0
        },
        fh: reply.fh,
        ..Default::default()
    }
}

/// The open reply: the file information for what the handler returned.
pub fn reply_open(reply: OpenReply) -> (r: NativeReply)
    ensures
        r@ == native_reply(ReplyView::Open(reply)),
{
    let fi = openreply_to_fileinfo(reply);
    NativeReply::Open(fi)
}

/// The create reply: the entry, and the file information for the opened file.
pub fn reply_create(reply: CreateReply) -> (r: NativeReply)
    ensures
        r@ == native_reply(ReplyView::Create(reply)),
{
    let fi = openreply_to_fileinfo(reply.open_reply);
    NativeReply::Create(reply.entry_param, fi)
}

/// The buffer reply for bytes read: the bytes, or an empty buffer at the end
/// of the file.
pub fn reply_read(reply: ReadReply) -> (r: NativeReply)
    ensures
        r@ == native_reply(ReplyView::Read(reply@)),
{
    match reply {
        ReadReply::DataBuffer(vec) => NativeReply::Buf(vec),
        ReadReply::EOF => NativeReply::Buf(Vec::new()),
    }
}

/// The buffer reply for a listing: the records of the longest prefix of the
/// entries that fits into `size` bytes. That a listing is cut short is no
/// error; the caller asks again from the resumption offset of the last
/// entry it got.
pub fn reply_readdir(tuple: (usize, ReaddirReply)) -> (r: NativeReply)
    ensures
        r@ == native_reply(ReplyView::Readdir(tuple.0, tuple.1@)),
{
    let (size, reply) = tuple;
    match reply {
        ReaddirReply::DirEntries(entries) => {
            let (buf, _count) = pack_dir_entries(size, &entries);
            NativeReply::Buf(buf)
        },
    }
}

/// The write reply for a count of bytes written.
pub fn reply_write(count: usize) -> (r: NativeReply)
    ensures
        r@ == native_reply(ReplyView::Write(count)),
{
    NativeReply::Write(count)
}

/// The statistics reply.
pub fn reply_statfs(statfs: Statvfs) -> (r: NativeReply)
    ensures
        r@ == native_reply(ReplyView::Statfs(statfs)),
{
    NativeReply::Statfs(statfs)
}

/// The extended-attribute reply for a size.
pub fn reply_xattr(size: usize) -> (r: NativeReply)
    ensures
        r@ == native_reply(ReplyView::Xattr(size)),
{
    NativeReply::Xattr(size)
}

/// Turns the result of a handler into the native reply: for an error the
/// error reply with the same code, for a payload the reply of its kind.
pub fn send_fuse_reply(result: ErrnoResult<Reply>) -> (r: NativeReply)
    ensures
        r@ == reply_for(result_view(result)),
{
    match result {
        Ok(reply) => match reply {
            Reply::Entry(e) => reply_entryparam(e),
            Reply::Attr(a) => reply_attr(a),
            Reply::Forgotten => reply_none(),
            Reply::Readlink(link) => reply_readlink(link),
            Reply::Done => reply_zero_err(),
            Reply::Open(o) => reply_open(o),
            Reply::Create(c) => reply_create(c),
            Reply::Read(r) => reply_read(r),
            Reply::Readdir(size, r) => reply_readdir((size, r)),
            Reply::Write(count) => reply_write(count),
            Reply::Statfs(s) => reply_statfs(s),
            Reply::Xattr(size) => reply_xattr(size),
        },
        Err(errno) => NativeReply::Error(errno),
    }
}

/// A handler's error code reaches the native layer unchanged, whatever the
/// code.
pub proof fn lemma_errno_fidelity(errno: i32)
    ensures
        reply_for(Err(errno)) == NativeReplyView::Error(errno),
{
}

} // verus!
