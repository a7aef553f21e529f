//! The worker: one operation run against the handlers, and its result
//! turned into the one reply its request is owed.

use vstd::prelude::*;
use crate::errno::{ErrnoResult, EIO, ENOSYS};
use crate::lowlevel::operation::{Operation, OperationView};
use crate::lowlevel::ops::{FuseLowLevelOps, OperationTable};
use crate::lowlevel::reply::{
    attr_result, create_result, declined, done_result, entry_result, native_reply, open_result,
    read_result, readdir_result, readlink_result, reply_failure_err, reply_for, result_view,
    send_fuse_reply, statfs_result, write_result, xattr_result, NativeReply, NativeReplyView,
    Reply, ReplyView,
};
use crate::lowlevel::types::{
    AttrReply, AttrToSet, CreateReply, EntryReply, OpenReply, ReadReply, ReaddirReply,
};
use crate::native::Statvfs;

verus! {

/// The native token of one pending request. It is made by the native layer
/// for each call, and answered by exactly one reply.
#[derive(Clone, Copy, Debug, PartialEq, Eq, Structural)]
pub struct Request {
    pub token: u64,
}

/// A pending request with its decoded operation: what goes through the
/// dispatch queue to a worker.
#[derive(Clone, Debug, PartialEq, Eq)]
pub struct FSOperation {
    pub operation: Operation,
    pub req: Request,
}

/// How a worker ended.
#[derive(Clone, Debug, PartialEq, Eq)]
pub enum WorkerOutcome {
    /// The handler returned, and this is the reply for its result.
    Finished(NativeReply),
    /// The handler ended abnormally.
    Panicked,
}

/// Whether a payload is of the kind that answers an operation. For a
/// listing, the payload also carries the buffer size that the operation
/// came with.
pub open spec fn payload_answers(op: Operation, reply: ReplyView) -> bool {
    match op {
        Operation::Lookup { .. } => reply is Entry,
        Operation::Forget { .. } => reply is Forgotten,
        Operation::Getattr { .. } => reply is Attr,
        Operation::Setattr { .. } => reply is Attr,
        Operation::Readlink { .. } => reply is Readlink,
        Operation::Mknod { .. } => reply is Entry,
        Operation::Mkdir { .. } => reply is Entry,
        Operation::Unlink { .. } => reply is Done,
        Operation::Rmdir { .. } => reply is Done,
        Operation::Symlink { .. } => reply is Entry,
        Operation::Rename { .. } => reply is Done,
        Operation::Link { .. } => reply is Entry,
        Operation::Open { .. } => reply is Open,
        Operation::Read { .. } => reply is Read,
        Operation::Write { .. } => reply is Write,
        Operation::Flush { .. } => reply is Done,
        Operation::Release { .. } => reply is Done,
        Operation::Fsync { .. } => reply is Done,
        Operation::Opendir { .. } => reply is Open,
        Operation::Readdir { size, .. } => reply matches ReplyView::Readdir(s, _) && s
            == size,
        Operation::Releasedir { .. } => reply is Done,
        Operation::Fsyncdir { .. } => reply is Done,
        Operation::Statfs { .. } => reply is Statfs,
        Operation::Setxattr { .. } => reply is Done,
        Operation::Getxattr { .. } => reply is Read,
        Operation::GetxattrSize { .. } => reply is Xattr,
        Operation::Listxattr { .. } => reply is Read,
        Operation::ListxattrSize { .. } => reply is Xattr,
        Operation::Removexattr { .. } => reply is Done,
        Operation::Access { .. } => reply is Done,
        Operation::Create { .. } => reply is Create,
    }
}

/// Whether a native reply is one that an operation can be answered with:
/// an error reply, or the reply of the kind of the operation. A `forget` is
/// only ever answered without data and without a status.
pub open spec fn reply_answers(op: Operation, reply: NativeReplyView) -> bool {
    match op {
        Operation::Forget { .. } => reply is NoReply,
        _ => reply is Error || exists|payload: ReplyView|
            payload_answers(op, payload) && reply == native_reply(payload),
    }
}

/// The reply for an operation whose verb is not routed to the filesystem:
/// that the function is not implemented.
pub open spec fn unrouted_reply(op: Operation) -> NativeReplyView {
    match op {
        Operation::Forget { .. } => NativeReplyView::NoReply,
        _ => NativeReplyView::Error(ENOSYS),
    }
}

/// The reply that a request gets for the way its worker ended: the worker's
/// own reply, or an I/O error on behalf of a handler that ended abnormally.
pub open spec fn supervised_reply(outcome: WorkerOutcome) -> NativeReplyView {
    match outcome {
        WorkerOutcome::Finished(reply) => reply@,
        WorkerOutcome::Panicked => NativeReplyView::Error(EIO),
    }
}

/// Whether `result` is a result that the handler of `op` may give: that the
/// operation is not implemented, or an answer of the filesystem to `op`. A
/// `forget` has no result but that it is done.
pub open spec fn may_answer<T: FuseLowLevelOps>(
    ops: &T,
    op: OperationView,
    result: Result<ReplyView, i32>,
) -> bool {
    if op is Forget {
        result == Ok::<ReplyView, i32>(ReplyView::Forgotten)
    } else {
        declined(result) || ops.answers(op, result)
    }
}

/// Whether `result` is, as a payload, what the handler of `op` can return
/// when it is called with the arguments of `op`, by the handler's own
/// contract. For a filesystem whose handlers fix their results, this fixes
/// `result`.
pub open spec fn handler_returns<T: FuseLowLevelOps>(
    ops: &T,
    op: Operation,
    result: Result<ReplyView, i32>,
) -> bool {
    match op {
        Operation::Lookup { parent, name } => exists|r0: ErrnoResult<EntryReply>|
            #[trigger] call_ensures(
                T::lookup,
                (ops, parent, &name),
                r0,
            ) && result == entry_result(r0),
        Operation::Forget { ino, nlookup } => call_ensures(
            T::forget,
            (ops, ino, nlookup),
            (),
        ) && result == Ok::<ReplyView, i32>(ReplyView::Forgotten),
        Operation::Getattr { ino } => exists|r0: ErrnoResult<AttrReply>|
            #[trigger] call_ensures(
                T::getattr,
                (ops, ino),
                r0,
            ) && result == attr_result(r0),
        Operation::Setattr { ino, attrs, fh } => exists|
            attrs_slice: &[AttrToSet],
            r0: ErrnoResult<AttrReply>,
        |
            attrs_slice@ == attrs@ && #[trigger] call_ensures(
                T::setattr,
                (ops, ino, attrs_slice, fh),
                r0,
            ) && result == attr_result(r0),
        Operation::Readlink { ino } => exists|r0: ErrnoResult<String>|
            #[trigger] call_ensures(
                T::readlink,
                (ops, ino),
                r0,
            ) && result == readlink_result(r0),
        Operation::Mknod { parent, name, mode, rdev } => exists|r0: ErrnoResult<EntryReply>|
            #[trigger] call_ensures(
                T::mknod,
                (ops, parent, &name, mode, rdev),
                r0,
            ) && result == entry_result(r0),
        Operation::Mkdir { parent, name, mode } => exists|r0: ErrnoResult<EntryReply>|
            #[trigger] call_ensures(
                T::mkdir,
                (ops, parent, &name, mode),
                r0,
            ) && result == entry_result(r0),
        Operation::Unlink { parent, name } => exists|r0: ErrnoResult<()>|
            #[trigger] call_ensures(
                T::unlink,
                (ops, parent, &name),
                r0,
            ) && result == done_result(r0),
        Operation::Rmdir { parent, name } => exists|r0: ErrnoResult<()>|
            #[trigger] call_ensures(
                T::rmdir,
                (ops, parent, &name),
                r0,
            ) && result == done_result(r0),
        Operation::Symlink { link, parent, name } => exists|r0: ErrnoResult<EntryReply>|
            #[trigger] call_ensures(
                T::symlink,
                (ops, &link, parent, &name),
                r0,
            ) && result == entry_result(r0),
        Operation::Rename { parent, name, newparent, newname } => exists|r0: ErrnoResult<()>|
            #[trigger] call_ensures(
                T::rename,
                (ops, parent, &name, newparent, &newname),
                r0,
            ) && result == done_result(r0),
        Operation::Link { ino, newparent, newname } => exists|r0: ErrnoResult<EntryReply>|
            #[trigger] call_ensures(
                T::link,
                (ops, ino, newparent, &newname),
                r0,
            ) && result == entry_result(r0),
        Operation::Open { ino, flags } => exists|r0: ErrnoResult<OpenReply>|
            #[trigger] call_ensures(
                T::open,
                (ops, ino, flags),
                r0,
            ) && result == open_result(r0),
        Operation::Read { ino, size, off, fh } => exists|r0: ErrnoResult<ReadReply>|
            #[trigger] call_ensures(
                T::read,
                (ops, ino, size, off, fh),
                r0,
            ) && result == read_result(r0),
        Operation::Write { ino, buf, off, fh, writepage } => exists|
            buf_slice: &[u8],
            r0: ErrnoResult<usize>,
        |
            buf_slice@ == buf@ && #[trigger] call_ensures(
                T::write,
                (ops, ino, buf_slice, off, fh, writepage),
                r0,
            ) && result == write_result(r0),
        Operation::Flush { ino, lock_owner, fh } => exists|r0: ErrnoResult<()>|
            #[trigger] call_ensures(
                T::flush,
                (ops, ino, lock_owner, fh),
                r0,
            ) && result == done_result(r0),
        Operation::Release { ino, flags, fh } => exists|r0: ErrnoResult<()>|
            #[trigger] call_ensures(
                T::release,
                (ops, ino, flags, fh),
                r0,
            ) && result == done_result(r0),
        Operation::Fsync { ino, datasync, fh } => exists|r0: ErrnoResult<()>|
            #[trigger] call_ensures(
                T::fsync,
                (ops, ino, datasync, fh),
                r0,
            ) && result == done_result(r0),
        Operation::Opendir { ino } => exists|r0: ErrnoResult<OpenReply>|
            #[trigger] call_ensures(
                T::opendir,
                (ops, ino),
                r0,
            ) && result == open_result(r0),
        Operation::Readdir { ino, size, off, fh } => exists|r0: ErrnoResult<ReaddirReply>|
            #[trigger] call_ensures(
                T::readdir,
                (ops, ino, size, off, fh),
                r0,
            ) && result == readdir_result(size, r0),
        Operation::Releasedir { ino, fh } => exists|r0: ErrnoResult<()>|
            #[trigger] call_ensures(
                T::releasedir,
                (ops, ino, fh),
                r0,
            ) && result == done_result(r0),
        Operation::Fsyncdir { ino, datasync, fh } => exists|r0: ErrnoResult<()>|
            #[trigger] call_ensures(
                T::fsyncdir,
                (ops, ino, datasync, fh),
                r0,
            ) && result == done_result(r0),
        Operation::Statfs { ino } => exists|r0: ErrnoResult<Statvfs>|
            #[trigger] call_ensures(
                T::statfs,
                (ops, ino),
                r0,
            ) && result == statfs_result(r0),
        Operation::Setxattr { ino, name, value, flags } => exists|
            value_slice: &[u8],
            r0: ErrnoResult<()>,
        |
            value_slice@ == value@ && #[trigger] call_ensures(
                T::setxattr,
                (ops, ino, &name, value_slice, flags),
                r0,
            ) && result == done_result(r0),
        Operation::Getxattr { ino, name, size } => exists|r0: ErrnoResult<ReadReply>|
            #[trigger] call_ensures(
                T::getxattr,
                (ops, ino, &name, size),
                r0,
            ) && result == read_result(r0),
        Operation::GetxattrSize { ino, name } => exists|r0: ErrnoResult<usize>|
            #[trigger] call_ensures(
                T::getxattr_size,
                (ops, ino, &name),
                r0,
            ) && result == xattr_result(r0),
        Operation::Listxattr { ino, size } => exists|r0: ErrnoResult<ReadReply>|
            #[trigger] call_ensures(
                T::listxattr,
                (ops, ino, size),
                r0,
            ) && result == read_result(r0),
        Operation::ListxattrSize { ino } => exists|r0: ErrnoResult<usize>|
            #[trigger] call_ensures(
                T::listxattr_size,
                (ops, ino),
                r0,
            ) && result == xattr_result(r0),
        Operation::Removexattr { ino, name } => exists|r0: ErrnoResult<()>|
            #[trigger] call_ensures(
                T::removexattr,
                (ops, ino, &name),
                r0,
            ) && result == done_result(r0),
        Operation::Access { ino, mask } => exists|r0: ErrnoResult<()>|
            #[trigger] call_ensures(
                T::access,
                (ops, ino, mask),
                r0,
            ) && result == done_result(r0),
        Operation::Create { parent, name, mode, flags } => exists|r0: ErrnoResult<CreateReply>|
            #[trigger] call_ensures(
                T::create,
                (ops, parent, &name, mode, flags),
                r0,
            ) && result == create_result(r0),
    }
}

/// Calls the handler of `op` with the arguments of `op`, and wraps what it
/// returns into the payload of its kind: the result is what the handler
/// returned for exactly these arguments. Whatever the handler returns, a
/// payload is of the kind that answers `op`, and a `forget` succeeds.
pub fn invoke<T: FuseLowLevelOps>(ops: &T, op: &Operation) -> (r: ErrnoResult<Reply>)
    ensures
        handler_returns(ops, *op, result_view(r)),
        may_answer(ops, op@, result_view(r)),
        r matches Ok(reply) ==> payload_answers(*op, reply@),
        op is Forget ==> r is Ok,
{
    match op {
        Operation::Lookup { parent, name } => match ops.lookup(*parent, name) {
            Ok(reply) => Ok(Reply::Entry(reply)),
            Err(errno) => Err(errno),
        },
        Operation::Forget { ino, nlookup } => {
            ops.forget(*ino, *nlookup);
            Ok(Reply::Forgotten)
        },
        Operation::Getattr { ino } => match ops.getattr(*ino) {
            Ok(reply) => Ok(Reply::Attr(reply)),
            Err(errno) => Err(errno),
        },
        Operation::Setattr { ino, attrs, fh } => match ops.setattr(*ino, attrs.as_slice(), *fh) {
            Ok(reply) => Ok(Reply::Attr(reply)),
            Err(errno) => Err(errno),
        },
        Operation::Readlink { ino } => match ops.readlink(*ino) {
            Ok(reply) => Ok(Reply::Readlink(reply)),
            Err(errno) => Err(errno),
        },
        Operation::Mknod { parent, name, mode, rdev } => match ops.mknod(
            *parent,
            name,
            *mode,
            *rdev,
        ) {
            Ok(reply) => Ok(Reply::Entry(reply)),
            Err(errno) => Err(errno),
        },
        Operation::Mkdir { parent, name, mode } => match ops.mkdir(*parent, name, *mode) {
            Ok(reply) => Ok(Reply::Entry(reply)),
            Err(errno) => Err(errno),
        },
        Operation::Unlink { parent, name } => match ops.unlink(*parent, name) {
            Ok(()) => Ok(Reply::Done),
            Err(errno) => Err(errno),
        },
        Operation::Rmdir { parent, name } => match ops.rmdir(*parent, name) {
            Ok(()) => Ok(Reply::Done),
            Err(errno) => Err(errno),
        },
        Operation::Symlink { link, parent, name } => match ops.symlink(link, *parent, name) {
            Ok(reply) => Ok(Reply::Entry(reply)),
            Err(errno) => Err(errno),
        },
        Operation::Rename { parent, name, newparent, newname } => match ops.rename(
            *parent,
            name,
            *newparent,
            newname,
        ) {
            Ok(()) => Ok(Reply::Done),
            Err(errno) => Err(errno),
        },
        Operation::Link { ino, newparent, newname } => match ops.link(*ino, *newparent, newname) {
            Ok(reply) => Ok(Reply::Entry(reply)),
            Err(errno) => Err(errno),
        },
        Operation::Open { ino, flags } => match ops.open(*ino, *flags) {
            Ok(reply) => Ok(Reply::Open(reply)),
            Err(errno) => Err(errno),
        },
        Operation::Read { ino, size, off, fh } => match ops.read(*ino, *size, *off, *fh) {
            Ok(reply) => Ok(Reply::Read(reply)),
            Err(errno) => Err(errno),
        },
        Operation::Write { ino, buf, off, fh, writepage } => match ops.write(
            *ino,
            buf.as_slice(),
            *off,
            *fh,
            *writepage,
        ) {
            Ok(reply) => Ok(Reply::Write(reply)),
            Err(errno) => Err(errno),
        },
        Operation::Flush { ino, lock_owner, fh } => match ops.flush(*ino, *lock_owner, *fh) {
            Ok(()) => Ok(Reply::Done),
            Err(errno) => Err(errno),
        },
        Operation::Release { ino, flags, fh } => match ops.release(*ino, *flags, *fh) {
            Ok(()) => Ok(Reply::Done),
            Err(errno) => Err(errno),
        },
        Operation::Fsync { ino, datasync, fh } => match ops.fsync(*ino, *datasync, *fh) {
            Ok(()) => Ok(Reply::Done),
            Err(errno) => Err(errno),
        },
        Operation::Opendir { ino } => match ops.opendir(*ino) {
            Ok(reply) => Ok(Reply::Open(reply)),
            Err(errno) => Err(errno),
        },
        Operation::Readdir { ino, size, off, fh } => match ops.readdir(*ino, *size, *off, *fh) {
            Ok(reply) => Ok(Reply::Readdir(*size, reply)),
            Err(errno) => Err(errno),
        },
        Operation::Releasedir { ino, fh } => match ops.releasedir(*ino, *fh) {
            Ok(()) => Ok(Reply::Done),
            Err(errno) => Err(errno),
        },
        Operation::Fsyncdir { ino, datasync, fh } => match ops.fsyncdir(*ino, *datasync, *fh) {
            Ok(()) => Ok(Reply::Done),
            Err(errno) => Err(errno),
        },
        Operation::Statfs { ino } => match ops.statfs(*ino) {
            Ok(reply) => Ok(Reply::Statfs(reply)),
            Err(errno) => Err(errno),
        },
        Operation::Setxattr { ino, name, value, flags } => match ops.setxattr(
            *ino,
            name,
            value.as_slice(),
            *flags,
        ) {
            Ok(()) => Ok(Reply::Done),
            Err(errno) => Err(errno),
        },
        Operation::Getxattr { ino, name, size } => match ops.getxattr(*ino, name, *size) {
            Ok(reply) => Ok(Reply::Read(reply)),
            Err(errno) => Err(errno),
        },
        Operation::GetxattrSize { ino, name } => match ops.getxattr_size(*ino, name) {
            Ok(reply) => Ok(Reply::Xattr(reply)),
            Err(errno) => Err(errno),
        },
        Operation::Listxattr { ino, size } => match ops.listxattr(*ino, *size) {
            Ok(reply) => Ok(Reply::Read(reply)),
            Err(errno) => Err(errno),
        },
        Operation::ListxattrSize { ino } => match ops.listxattr_size(*ino) {
            Ok(reply) => Ok(Reply::Xattr(reply)),
            Err(errno) => Err(errno),
        },
        Operation::Removexattr { ino, name } => match ops.removexattr(*ino, name) {
            Ok(()) => Ok(Reply::Done),
            Err(errno) => Err(errno),
        },
        Operation::Access { ino, mask } => match ops.access(*ino, *mask) {
            Ok(()) => Ok(Reply::Done),
            Err(errno) => Err(errno),
        },
        Operation::Create { parent, name, mode, flags } => match ops.create(
            *parent,
            name,
            *mode,
            *flags,
        ) {
            Ok(reply) => Ok(Reply::Create(reply)),
            Err(errno) => Err(errno),
        },
    }
}

/// Runs one operation for its reply: where the verb is routed, the handler
/// is called and its result turned into the native reply; where it is not,
/// the reply says so and no handler runs.
///
/// The reply for a routed verb is the native reply for what the handler
/// returned for the arguments of this operation. Whatever the handler
/// returns, the reply is one that answers the operation.
pub fn run_for_reply<T: FuseLowLevelOps>(ops: &T, table: &OperationTable, op: &Operation) -> (r:
    NativeReply)
    ensures
        reply_answers(*op, r@),
        !table.routes(op.verb_of()) ==> r@ == unrouted_reply(*op),
        table.routes(op.verb_of()) ==> exists|result: Result<ReplyView, i32>| #[trigger]
            may_answer(ops, op@, result) && handler_returns(ops, *op, result) && r@
                == reply_for(result),
{
    if table.has(op.verb()) {
        let result = invoke(ops, op);
        let ghost returned = result;
        let r = send_fuse_reply(result);
        proof {
            if let Ok(reply) = returned {
                assert(payload_answers(*op, reply@) && r@ == native_reply(reply@));
            }
            assert(may_answer(ops, op@, result_view(returned)) && handler_returns(
                ops,
                *op,
                result_view(returned),
            ));
        }
        r
    } else {
        match op {
            Operation::Forget { .. } => NativeReply::NoReply,
            _ => NativeReply::Error(ENOSYS),
        }
    }
}

/// The reply that a request gets for the way its worker ended, as
/// [`supervised_reply`] says: there is one for every outcome.
pub fn supervise(outcome: WorkerOutcome) -> (r: NativeReply)
    ensures
        r@ == supervised_reply(outcome),
{
    match outcome {
        WorkerOutcome::Finished(reply) => reply,
        WorkerOutcome::Panicked => reply_failure_err(),
    }
}

/// A handler's error code reaches the native layer unchanged, through the
/// codec and through the supervisor, whatever the code.
pub proof fn lemma_errno_reaches_native_layer(errno: i32, reply: NativeReply)
    requires
        reply@ == reply_for(result_view(Err(errno))),
    ensures
        supervised_reply(WorkerOutcome::Finished(reply)) == NativeReplyView::Error(errno),
{
}

} // verus!
