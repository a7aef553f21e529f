//! The operation table: which verbs a filesystem handles, and the handlers
//! themselves.

use vstd::prelude::*;
use crate::c_str::CString;
use crate::errno::{ErrnoResult, ENOSYS};
use crate::lowlevel::operation::OperationView;
use crate::lowlevel::reply::{
    attr_result, create_result, declined, done_result, entry_result, open_result, read_result,
    readdir_result, readlink_result, statfs_result, write_result, xattr_result, ReplyView,
};
use crate::lowlevel::types::{
    fuse_ino_t, AttrReply, AttrToSet, CreateReply, EntryReply, OpenReply, ReadReply,
    ReaddirReply,
};
use crate::native::Statvfs;

verus! {

/// One category of filesystem operation: a slot of the native operation
/// table.
#[derive(Clone, Copy, Debug, PartialEq, Eq, Structural)]
pub enum Verb {
    /// The session is ready.
    Init,
    /// The session is over.
    Destroy,
    /// Look a name up in a directory.
    Lookup,
    /// Drop references to an inode.
    Forget,
    /// Get attributes.
    Getattr,
    /// Set attributes.
    Setattr,
    /// Read a symbolic link.
    Readlink,
    /// Create a file node.
    Mknod,
    /// Create a directory.
    Mkdir,
    /// Remove a file.
    Unlink,
    /// Remove a directory.
    Rmdir,
    /// Create a symbolic link.
    Symlink,
    /// Rename an entry.
    Rename,
    /// Create a hard link.
    Link,
    /// Open a file.
    Open,
    /// Read from an open file.
    Read,
    /// Write to an open file.
    Write,
    /// Flush on close of a descriptor.
    Flush,
    /// Release an open file.
    Release,
    /// Synchronise file contents.
    Fsync,
    /// Open a directory.
    Opendir,
    /// List a directory.
    Readdir,
    /// Release an open directory.
    Releasedir,
    /// Synchronise directory contents.
    Fsyncdir,
    /// Get filesystem statistics.
    Statfs,
    /// Set an extended attribute.
    Setxattr,
    /// Get an extended attribute, or its size.
    Getxattr,
    /// List extended attribute names, or their size.
    Listxattr,
    /// Remove an extended attribute.
    Removexattr,
    /// Check access permissions.
    Access,
    /// Create and open a file.
    Create,
    /// Test for a lock.
    Getlk,
    /// Acquire or release a lock.
    Setlk,
    /// Map a block index.
    Bmap,
    /// Device control.
    Ioctl,
    /// Poll for readiness.
    Poll,
    /// Write from a buffer list.
    WriteBuf,
    /// Answer to a retrieve notification.
    RetrieveReply,
    /// Drop references to several inodes.
    ForgetMulti,
    /// Acquire or release a whole-file lock.
    Flock,
}

impl Verb {
    /// Whether the bridge has a handler to register for this verb. A verb
    /// without one can only be left to the native default.
    pub open spec fn has_handler(self) -> bool {
        match self {
            Verb::Getlk
            | Verb::Setlk
            | Verb::Bmap
            | Verb::Ioctl
            | Verb::Poll
            | Verb::WriteBuf
            | Verb::RetrieveReply
            | Verb::ForgetMulti
            | Verb::Flock => false,
            _ => true,
        }
    }

    /// Whether this verb is a session notification, which carries no request
    /// and is owed no reply.
    pub open spec fn is_notification(self) -> bool {
        self == Verb::Init || self == Verb::Destroy
    }

    /// Whether calls of this verb are routed to a filesystem, given whether
    /// the filesystem implements the verb: the two session notifications
    /// always are; any other verb is if it is implemented and has a handler.
    pub open spec fn routed_if(self, implemented: bool) -> bool {
        self.is_notification() || (self.has_handler() && implemented)
    }

    /// Computes [`Verb::has_handler`].
    pub fn handled(self) -> (b: bool)
        ensures
            b == self.has_handler(),
    {
        match self {
            Verb::Getlk
            | Verb::Setlk
            | Verb::Bmap
            | Verb::Ioctl
            | Verb::Poll
            | Verb::WriteBuf
            | Verb::RetrieveReply
            | Verb::ForgetMulti
            | Verb::Flock => false,
            _ => true,
        }
    }
}

/// What a filesystem declares of itself: for each verb, whether calls of it
/// are to be routed to the filesystem.
#[derive(Clone, Copy, Debug, PartialEq, Eq, Structural)]
pub struct Capabilities {
    pub init: bool,
    pub destroy: bool,
    pub lookup: bool,
    pub forget: bool,
    pub getattr: bool,
    pub setattr: bool,
    pub readlink: bool,
    pub mknod: bool,
    pub mkdir: bool,
    pub unlink: bool,
    pub rmdir: bool,
    pub symlink: bool,
    pub rename: bool,
    pub link: bool,
    pub open: bool,
    pub read: bool,
    pub write: bool,
    pub flush: bool,
    pub release: bool,
    pub fsync: bool,
    pub opendir: bool,
    pub readdir: bool,
    pub releasedir: bool,
    pub fsyncdir: bool,
    pub statfs: bool,
    pub setxattr: bool,
    pub getxattr: bool,
    pub listxattr: bool,
    pub removexattr: bool,
    pub access: bool,
    pub create: bool,
    pub getlk: bool,
    pub setlk: bool,
    pub bmap: bool,
    pub ioctl: bool,
    pub poll: bool,
    pub write_buf: bool,
    pub retrieve_reply: bool,
    pub forget_multi: bool,
    pub flock: bool,
}

impl Capabilities {
    /// Whether `verb` is declared as implemented.
    #[verifier::opaque]
    pub open spec fn declares(self, verb: Verb) -> bool {
        match verb {
            Verb::Init => self.init,
            Verb::Destroy => self.destroy,
            Verb::Lookup => self.lookup,
            Verb::Forget => self.forget,
            Verb::Getattr => self.getattr,
            Verb::Setattr => self.setattr,
            Verb::Readlink => self.readlink,
            Verb::Mknod => self.mknod,
            Verb::Mkdir => self.mkdir,
            Verb::Unlink => self.unlink,
            Verb::Rmdir => self.rmdir,
            Verb::Symlink => self.symlink,
            Verb::Rename => self.rename,
            Verb::Link => self.link,
            Verb::Open => self.open,
            Verb::Read => self.read,
            Verb::Write => self.write,
            Verb::Flush => self.flush,
            Verb::Release => self.release,
            Verb::Fsync => self.fsync,
            Verb::Opendir => self.opendir,
            Verb::Readdir => self.readdir,
            Verb::Releasedir => self.releasedir,
            Verb::Fsyncdir => self.fsyncdir,
            Verb::Statfs => self.statfs,
            Verb::Setxattr => self.setxattr,
            Verb::Getxattr => self.getxattr,
            Verb::Listxattr => self.listxattr,
            Verb::Removexattr => self.removexattr,
            Verb::Access => self.access,
            Verb::Create => self.create,
            Verb::Getlk => self.getlk,
            Verb::Setlk => self.setlk,
            Verb::Bmap => self.bmap,
            Verb::Ioctl => self.ioctl,
            Verb::Poll => self.poll,
            Verb::WriteBuf => self.write_buf,
            Verb::RetrieveReply => self.retrieve_reply,
            Verb::ForgetMulti => self.forget_multi,
            Verb::Flock => self.flock,
        }
    }

    /// Whether `verb` is declared as implemented though nothing handles it:
    /// the bridge has no handler for the verb, or the filesystem has none,
    /// where `handlers` says for which verbs the filesystem has one.
    pub open spec fn mismatch(self, handlers: Capabilities, verb: Verb) -> bool {
        self.declares(verb) && !(verb.has_handler() && handlers.declares(verb))
    }

    /// Whether every verb declared as implemented is handled, by the bridge
    /// and by the filesystem.
    pub open spec fn consistent_with(self, handlers: Capabilities) -> bool {
        forall|verb: Verb| !#[trigger] self.mismatch(handlers, verb)
    }

    /// Computes [`Capabilities::declares`].
    pub fn is_declared(&self, verb: Verb) -> (b: bool)
        ensures
            b == self.declares(verb),
    {
        proof {
            reveal(Capabilities::declares);
        }
        match verb {
            Verb::Init => self.init,
            Verb::Destroy => self.destroy,
            Verb::Lookup => self.lookup,
            Verb::Forget => self.forget,
            Verb::Getattr => self.getattr,
            Verb::Setattr => self.setattr,
            Verb::Readlink => self.readlink,
            Verb::Mknod => self.mknod,
            Verb::Mkdir => self.mkdir,
            Verb::Unlink => self.unlink,
            Verb::Rmdir => self.rmdir,
            Verb::Symlink => self.symlink,
            Verb::Rename => self.rename,
            Verb::Link => self.link,
            Verb::Open => self.open,
            Verb::Read => self.read,
            Verb::Write => self.write,
            Verb::Flush => self.flush,
            Verb::Release => self.release,
            Verb::Fsync => self.fsync,
            Verb::Opendir => self.opendir,
            Verb::Readdir => self.readdir,
            Verb::Releasedir => self.releasedir,
            Verb::Fsyncdir => self.fsyncdir,
            Verb::Statfs => self.statfs,
            Verb::Setxattr => self.setxattr,
            Verb::Getxattr => self.getxattr,
            Verb::Listxattr => self.listxattr,
            Verb::Removexattr => self.removexattr,
            Verb::Access => self.access,
            Verb::Create => self.create,
            Verb::Getlk => self.getlk,
            Verb::Setlk => self.setlk,
            Verb::Bmap => self.bmap,
            Verb::Ioctl => self.ioctl,
            Verb::Poll => self.poll,
            Verb::WriteBuf => self.write_buf,
            Verb::RetrieveReply => self.retrieve_reply,
            Verb::ForgetMulti => self.forget_multi,
            Verb::Flock => self.flock,
        }
    }
}

/// The number of slots of the operation table.
pub const SLOTS: usize = 40;

/// A verb that is declared as implemented though nothing handles it.
#[derive(Clone, Copy, Debug, PartialEq, Eq, Structural)]
pub struct CapabilityMismatch {
    pub verb: Verb,
}

/// The capability table of a mounted filesystem: for each verb, whether the
/// native layer routes calls of it to the filesystem. Every verb it routes
/// has a handler. It is made once, before the session starts, and read from
/// then on.
#[derive(Clone, Copy, Debug, PartialEq, Eq)]
pub struct OperationTable {
    slots: Capabilities,
}

impl OperationTable {
    /// Whether calls of `verb` are routed to the filesystem.
    pub closed spec fn routes(&self, verb: Verb) -> bool {
        verb.routed_if(self.slots.declares(verb))
    }

    /// Makes the table for what a filesystem declares, where `handlers`
    /// says for which verbs the filesystem has a handler. This fails,
    /// naming the first such verb in table order, exactly when a verb is
    /// declared as implemented that is not handled, by the bridge or by the
    /// filesystem; otherwise the table routes the two session notifications
    /// and the verbs declared, and no other.
    pub fn new(declared: Capabilities, handlers: Capabilities) -> (r: Result<
        OperationTable,
        CapabilityMismatch,
    >)
        ensures
            r is Ok <==> declared.consistent_with(handlers),
            r matches Ok(table) ==> forall|verb: Verb| #[trigger]
                table.routes(verb) == verb.routed_if(declared.declares(verb)),
            r matches Err(e) ==> declared.mismatch(handlers, e.verb),
            r matches Err(e) ==> forall|verb: Verb| #[trigger]
                declared.mismatch(handlers, verb) ==> Self::slot_index(e.verb)
                    <= Self::slot_index(verb),
    {
        let mut i: usize = 0;
        while i < SLOTS
            invariant
                i <= SLOTS,
                forall|verb: Verb|
                    Self::slot_index(verb) < i ==> !#[trigger] declared.mismatch(handlers, verb),
            decreases SLOTS - i,
        {
            let verb = Self::slot(i);
            proof {
                Self::lemma_verb_at(i as nat);
            }
            if declared.is_declared(verb) && !(verb.handled() && handlers.is_declared(verb)) {
                assert(declared.mismatch(handlers, verb));
                return Err(CapabilityMismatch { verb });
            }
            proof {
                assert forall|other: Verb| Self::slot_index(other) < i + 1 implies !#[trigger]
                declared.mismatch(handlers, other) by {
                    Self::lemma_slot_index(other);
                }
            }
            i += 1;
        }
        proof {
            assert forall|verb: Verb| !#[trigger] declared.mismatch(handlers, verb) by {
                Self::lemma_slot_index(verb);
            }
        }
        Ok(Self::for_answers(declared))
    }

    /// Makes the table for the answers of a filesystem to the question,
    /// verb by verb, whether it implements the verb. Whatever the answers,
    /// the table routes the two session notifications, and no verb without
    /// a handler; any other verb it routes exactly when the answer for it
    /// is yes.
    pub fn for_answers(answers: Capabilities) -> (table: OperationTable)
        ensures
            forall|verb: Verb| #[trigger]
                table.routes(verb) == verb.routed_if(answers.declares(verb)),
    {
        OperationTable { slots: answers }
    }

    /// The position of a verb's slot in the table.
    #[verifier::opaque]
    pub open spec fn slot_index(verb: Verb) -> nat {
        match verb {
            Verb::Init => 0,
            Verb::Destroy => 1,
            Verb::Lookup => 2,
            Verb::Forget => 3,
            Verb::Getattr => 4,
            Verb::Setattr => 5,
            Verb::Readlink => 6,
            Verb::Mknod => 7,
            Verb::Mkdir => 8,
            Verb::Unlink => 9,
            Verb::Rmdir => 10,
            Verb::Symlink => 11,
            Verb::Rename => 12,
            Verb::Link => 13,
            Verb::Open => 14,
            Verb::Read => 15,
            Verb::Write => 16,
            Verb::Flush => 17,
            Verb::Release => 18,
            Verb::Fsync => 19,
            Verb::Opendir => 20,
            Verb::Readdir => 21,
            Verb::Releasedir => 22,
            Verb::Fsyncdir => 23,
            Verb::Statfs => 24,
            Verb::Setxattr => 25,
            Verb::Getxattr => 26,
            Verb::Listxattr => 27,
            Verb::Removexattr => 28,
            Verb::Access => 29,
            Verb::Create => 30,
            Verb::Getlk => 31,
            Verb::Setlk => 32,
            Verb::Bmap => 33,
            Verb::Ioctl => 34,
            Verb::Poll => 35,
            Verb::WriteBuf => 36,
            Verb::RetrieveReply => 37,
            Verb::ForgetMulti => 38,
            Verb::Flock => 39,
        }
    }

    /// The verb whose slot is at a position of the table.
    #[verifier::opaque]
    pub open spec fn verb_at(index: nat) -> Verb {
        if index == 0 {
            Verb::Init
        } else if index == 1 {
            Verb::Destroy
        } else if index == 2 {
            Verb::Lookup
        } else if index == 3 {
            Verb::Forget
        } else if index == 4 {
            Verb::Getattr
        } else if index == 5 {
            Verb::Setattr
        } else if index == 6 {
            Verb::Readlink
        } else if index == 7 {
            Verb::Mknod
        } else if index == 8 {
            Verb::Mkdir
        } else if index == 9 {
            Verb::Unlink
        } else if index == 10 {
            Verb::Rmdir
        } else if index == 11 {
            Verb::Symlink
        } else if index == 12 {
            Verb::Rename
        } else if index == 13 {
            Verb::Link
        } else if index == 14 {
            Verb::Open
        } else if index == 15 {
            Verb::Read
        } else if index == 16 {
            Verb::Write
        } else if index == 17 {
            Verb::Flush
        } else if index == 18 {
            Verb::Release
        } else if index == 19 {
            Verb::Fsync
        } else if index == 20 {
            Verb::Opendir
        } else if index == 21 {
            Verb::Readdir
        } else if index == 22 {
            Verb::Releasedir
        } else if index == 23 {
            Verb::Fsyncdir
        } else if index == 24 {
            Verb::Statfs
        } else if index == 25 {
            Verb::Setxattr
        } else if index == 26 {
            Verb::Getxattr
        } else if index == 27 {
            Verb::Listxattr
        } else if index == 28 {
            Verb::Removexattr
        } else if index == 29 {
            Verb::Access
        } else if index == 30 {
            Verb::Create
        } else if index == 31 {
            Verb::Getlk
        } else if index == 32 {
            Verb::Setlk
        } else if index == 33 {
            Verb::Bmap
        } else if index == 34 {
            Verb::Ioctl
        } else if index == 35 {
            Verb::Poll
        } else if index == 36 {
            Verb::WriteBuf
        } else if index == 37 {
            Verb::RetrieveReply
        } else if index == 38 {
            Verb::ForgetMulti
        } else {
            Verb::Flock
        }
    }

    /// Every verb has its slot among the slots of the table, and is the
    /// verb at the position of its slot.
    pub proof fn lemma_slot_index(verb: Verb)
        ensures
            Self::slot_index(verb) < SLOTS,
            Self::verb_at(Self::slot_index(verb)) == verb,
    {
        reveal(OperationTable::slot_index);
        reveal(OperationTable::verb_at);
    }

    /// The verb at a position of the table has its slot at that position.
    pub proof fn lemma_verb_at(index: nat)
        requires
            index < SLOTS,
        ensures
            Self::slot_index(Self::verb_at(index)) == index,
    {
        reveal(OperationTable::slot_index);
        reveal(OperationTable::verb_at);
    }

    /// Computes [`OperationTable::verb_at`].
    pub fn slot(index: usize) -> (verb: Verb)
        requires
            index < SLOTS,
        ensures
            verb == Self::verb_at(index as nat),
    {
        proof {
            reveal(OperationTable::verb_at);
        }
        if index == 0 {
            Verb::Init
        } else if index == 1 {
            Verb::Destroy
        } else if index == 2 {
            Verb::Lookup
        } else if index == 3 {
            Verb::Forget
        } else if index == 4 {
            Verb::Getattr
        } else if index == 5 {
            Verb::Setattr
        } else if index == 6 {
            Verb::Readlink
        } else if index == 7 {
            Verb::Mknod
        } else if index == 8 {
            Verb::Mkdir
        } else if index == 9 {
            Verb::Unlink
        } else if index == 10 {
            Verb::Rmdir
        } else if index == 11 {
            Verb::Symlink
        } else if index == 12 {
            Verb::Rename
        } else if index == 13 {
            Verb::Link
        } else if index == 14 {
            Verb::Open
        } else if index == 15 {
            Verb::Read
        } else if index == 16 {
            Verb::Write
        } else if index == 17 {
            Verb::Flush
        } else if index == 18 {
            Verb::Release
        } else if index == 19 {
            Verb::Fsync
        } else if index == 20 {
            Verb::Opendir
        } else if index == 21 {
            Verb::Readdir
        } else if index == 22 {
            Verb::Releasedir
        } else if index == 23 {
            Verb::Fsyncdir
        } else if index == 24 {
            Verb::Statfs
        } else if index == 25 {
            Verb::Setxattr
        } else if index == 26 {
            Verb::Getxattr
        } else if index == 27 {
            Verb::Listxattr
        } else if index == 28 {
            Verb::Removexattr
        } else if index == 29 {
            Verb::Access
        } else if index == 30 {
            Verb::Create
        } else if index == 31 {
            Verb::Getlk
        } else if index == 32 {
            Verb::Setlk
        } else if index == 33 {
            Verb::Bmap
        } else if index == 34 {
            Verb::Ioctl
        } else if index == 35 {
            Verb::Poll
        } else if index == 36 {
            Verb::WriteBuf
        } else if index == 37 {
            Verb::RetrieveReply
        } else if index == 38 {
            Verb::ForgetMulti
        } else {
            Verb::Flock
        }
    }

    /// Tells whether calls of `verb` are routed to the filesystem.
    pub fn has(&self, verb: Verb) -> (b: bool)
        ensures
            b == self.routes(verb),
            b ==> verb.has_handler(),
    {
        match verb {
            Verb::Init | Verb::Destroy => true,
            _ => verb.handled() && self.slots.is_declared(verb),
        }
    }

    /// Every verb that a table routes has a handler.
    pub proof fn lemma_routed_verbs_have_handlers(&self, verb: Verb)
        requires
            self.routes(verb),
        ensures
            verb.has_handler(),
    {
    }
}

/// The filesystem. Override a method to implement the operation; each
/// request runs in a worker of its own, so the methods take `&self` and may
/// run at the same time on one value.
///
/// For each operation implemented, also have [`FuseLowLevelOps::implemented`]
/// and [`FuseLowLevelOps::handler_present`] return `true` for its verb. The
/// `_is_implemented` methods, one for each verb, ask the first; they are
/// asked once, before mounting: a verb whose answer is `false` is never
/// routed here, and the native default takes its place. A verb that is
/// implemented without a handler fails the mount. A handler that is not
/// overridden reports that the operation is not implemented.
///
/// Which verbs a filesystem implements is a fixed property of it,
/// [`FuseLowLevelOps::implements`]: [`FuseLowLevelOps::implemented`] and
/// every `_is_implemented` method answer by it, the same each time. What
/// a filesystem returns is described by a predicate that it may define,
/// [`FuseLowLevelOps::answers`], the results it may give for an operation.
/// A handler either reports that the operation is not implemented, or
/// returns a result that is an answer to the operation it was called for.
/// A filesystem that does not define the predicate allows every answer.
/// For which verbs a filesystem has a handler of its own is a fixed
/// property of it too, [`FuseLowLevelOps::handles`]: for a verb without
/// one, the answer is always that the operation is not implemented.
#[allow(unused_variables)]
pub trait FuseLowLevelOps {
    /// Whether the filesystem implements `verb`. For a filesystem that does
    /// not define it, this is some fixed property of the filesystem and the
    /// verb, of which nothing more is known.
    open spec fn implements(&self, verb: Verb) -> bool {
        arbitrary::<spec_fn(&Self, Verb) -> bool>()(self, verb)
    }

    /// Tells whether the filesystem implements `verb`. The `_is_implemented`
    /// methods ask here.
    fn implemented(&self, verb: Verb) -> (b: bool)
        ensures
            b == self.implements(verb),
    ;

    /// Whether the filesystem has a handler of its own for `verb`: it
    /// overrides the method of the verb. For a filesystem that does not
    /// define it, this is some fixed property of the filesystem and the
    /// verb, of which nothing more is known.
    open spec fn handles(&self, verb: Verb) -> bool {
        arbitrary::<spec_fn(&Self, Verb) -> bool>()(self, verb)
    }

    /// Tells whether the filesystem has a handler of its own for `verb`. A
    /// filesystem that implements a verb without a handler for it cannot be
    /// mounted.
    fn handler_present(&self, verb: Verb) -> (b: bool)
        ensures
            b == self.handles(verb),
    ;

    /// Whether `result` is an answer that the filesystem may give to the
    /// operation `op`. A filesystem whose answers depend on more than the
    /// operation allows every answer that it can give.
    open spec fn answers(&self, op: OperationView, result: Result<ReplyView, i32>) -> bool {
        true
    }

    /// Called when the filesystem is mounted and ready.
    fn init(&self) {
    }

    /// Called when the filesystem has been unmounted.
    fn destroy(&self) {
    }

    /// Look a name up in a directory.
    fn lookup(&self, parent: fuse_ino_t, name: &CString) -> (r: ErrnoResult<EntryReply>)
        ensures
            declined(entry_result(r)) || self.answers(
                OperationView::Lookup { parent, name: name@ },
                entry_result(r),
            ),
            !self.handles(Verb::Lookup) ==> declined(entry_result(r)),
    {
        Err(ENOSYS)
    }

    /// Whether `lookup` is implemented.
    fn lookup_is_implemented(&self) -> (b: bool)
        ensures
            b == self.implements(Verb::Lookup),
    {
        self.implemented(Verb::Lookup)
    }

    /// Drop references to an inode. This cannot fail.
    fn forget(&self, ino: fuse_ino_t, nlookup: u64) {
    }

    /// Whether `forget` is implemented.
    fn forget_is_implemented(&self) -> (b: bool)
        ensures
            b == self.implements(Verb::Forget),
    {
        self.implemented(Verb::Forget)
    }

    /// Get attributes.
    fn getattr(&self, ino: fuse_ino_t) -> (r: ErrnoResult<AttrReply>)
        ensures
            declined(attr_result(r)) || self.answers(
                OperationView::Getattr { ino },
                attr_result(r),
            ),
            !self.handles(Verb::Getattr) ==> declined(attr_result(r)),
    {
        Err(ENOSYS)
    }

    /// Whether `getattr` is implemented.
    fn getattr_is_implemented(&self) -> (b: bool)
        ensures
            b == self.implements(Verb::Getattr),
    {
        self.implemented(Verb::Getattr)
    }

    /// Set the attributes listed, through the open file `fh` if there
    /// is one.
    fn setattr(
        &self,
        ino: fuse_ino_t,
        attrs_to_set: &[AttrToSet],
        fh: Option<u64>,
    ) -> (r: ErrnoResult<AttrReply>)
        ensures
            declined(attr_result(r)) || self.answers(
                OperationView::Setattr { ino, attrs: attrs_to_set@, fh },
                attr_result(r),
            ),
            !self.handles(Verb::Setattr) ==> declined(attr_result(r)),
    {
        Err(ENOSYS)
    }

    /// Whether `setattr` is implemented.
    fn setattr_is_implemented(&self) -> (b: bool)
        ensures
            b == self.implements(Verb::Setattr),
    {
        self.implemented(Verb::Setattr)
    }

    /// Read a symbolic link.
    fn readlink(&self, ino: fuse_ino_t) -> (r: ErrnoResult<String>)
        ensures
            declined(readlink_result(r)) || self.answers(
                OperationView::Readlink { ino },
                readlink_result(r),
            ),
            !self.handles(Verb::Readlink) ==> declined(readlink_result(r)),
    {
        Err(ENOSYS)
    }

    /// Whether `readlink` is implemented.
    fn readlink_is_implemented(&self) -> (b: bool)
        ensures
            b == self.implements(Verb::Readlink),
    {
        self.implemented(Verb::Readlink)
    }

    /// Create a file node.
    fn mknod(
        &self,
        parent: fuse_ino_t,
        name: &CString,
        mode: u32,
        rdev: u64,
    ) -> (r: ErrnoResult<EntryReply>)
        ensures
            declined(entry_result(r)) || self.answers(
                OperationView::Mknod { parent, name: name@, mode, rdev },
                entry_result(r),
            ),
            !self.handles(Verb::Mknod) ==> declined(entry_result(r)),
    {
        Err(ENOSYS)
    }

    /// Whether `mknod` is implemented.
    fn mknod_is_implemented(&self) -> (b: bool)
        ensures
            b == self.implements(Verb::Mknod),
    {
        self.implemented(Verb::Mknod)
    }

    /// Create a directory.
    fn mkdir(&self, parent: fuse_ino_t, name: &CString, mode: u32) -> (r: ErrnoResult<EntryReply>)
        ensures
            declined(entry_result(r)) || self.answers(
                OperationView::Mkdir { parent, name: name@, mode },
                entry_result(r),
            ),
            !self.handles(Verb::Mkdir) ==> declined(entry_result(r)),
    {
        Err(ENOSYS)
    }

    /// Whether `mkdir` is implemented.
    fn mkdir_is_implemented(&self) -> (b: bool)
        ensures
            b == self.implements(Verb::Mkdir),
    {
        self.implemented(Verb::Mkdir)
    }

    /// Remove a file.
    fn unlink(&self, parent: fuse_ino_t, name: &CString) -> (r: ErrnoResult<()>)
        ensures
            declined(done_result(r)) || self.answers(
                OperationView::Unlink { parent, name: name@ },
                done_result(r),
            ),
            !self.handles(Verb::Unlink) ==> declined(done_result(r)),
    {
        Err(ENOSYS)
    }

    /// Whether `unlink` is implemented.
    fn unlink_is_implemented(&self) -> (b: bool)
        ensures
            b == self.implements(Verb::Unlink),
    {
        self.implemented(Verb::Unlink)
    }

    /// Remove a directory.
    fn rmdir(&self, parent: fuse_ino_t, name: &CString) -> (r: ErrnoResult<()>)
        ensures
            declined(done_result(r)) || self.answers(
                OperationView::Rmdir { parent, name: name@ },
                done_result(r),
            ),
            !self.handles(Verb::Rmdir) ==> declined(done_result(r)),
    {
        Err(ENOSYS)
    }

    /// Whether `rmdir` is implemented.
    fn rmdir_is_implemented(&self) -> (b: bool)
        ensures
            b == self.implements(Verb::Rmdir),
    {
        self.implemented(Verb::Rmdir)
    }

    /// Create a symbolic link.
    fn symlink(
        &self,
        link: &CString,
        parent: fuse_ino_t,
        name: &CString,
    ) -> (r: ErrnoResult<EntryReply>)
        ensures
            declined(entry_result(r)) || self.answers(
                OperationView::Symlink { link: link@, parent, name: name@ },
                entry_result(r),
            ),
            !self.handles(Verb::Symlink) ==> declined(entry_result(r)),
    {
        Err(ENOSYS)
    }

    /// Whether `symlink` is implemented.
    fn symlink_is_implemented(&self) -> (b: bool)
        ensures
            b == self.implements(Verb::Symlink),
    {
        self.implemented(Verb::Symlink)
    }

    /// Rename an entry.
    fn rename(
        &self,
        parent: fuse_ino_t,
        name: &CString,
        newparent: fuse_ino_t,
        newname: &CString,
    ) -> (r: ErrnoResult<()>)
        ensures
            declined(done_result(r)) || self.answers(
                OperationView::Rename { parent, name: name@, newparent, newname: newname@ },
                done_result(r),
            ),
            !self.handles(Verb::Rename) ==> declined(done_result(r)),
    {
        Err(ENOSYS)
    }

    /// Whether `rename` is implemented.
    fn rename_is_implemented(&self) -> (b: bool)
        ensures
            b == self.implements(Verb::Rename),
    {
        self.implemented(Verb::Rename)
    }

    /// Create a hard link.
    fn link(
        &self,
        ino: fuse_ino_t,
        newparent: fuse_ino_t,
        newname: &CString,
    ) -> (r: ErrnoResult<EntryReply>)
        ensures
            declined(entry_result(r)) || self.answers(
                OperationView::Link { ino, newparent, newname: newname@ },
                entry_result(r),
            ),
            !self.handles(Verb::Link) ==> declined(entry_result(r)),
    {
        Err(ENOSYS)
    }

    /// Whether `link` is implemented.
    fn link_is_implemented(&self) -> (b: bool)
        ensures
            b == self.implements(Verb::Link),
    {
        self.implemented(Verb::Link)
    }

    /// Open a file.
    fn open(&self, ino: fuse_ino_t, flags: i32) -> (r: ErrnoResult<OpenReply>)
        ensures
            declined(open_result(r)) || self.answers(
                OperationView::Open { ino, flags },
                open_result(r),
            ),
            !self.handles(Verb::Open) ==> declined(open_result(r)),
    {
        Err(ENOSYS)
    }

    /// Whether `open` is implemented.
    fn open_is_implemented(&self) -> (b: bool)
        ensures
            b == self.implements(Verb::Open),
    {
        self.implemented(Verb::Open)
    }

    /// Read from an open file.
    fn read(&self, ino: fuse_ino_t, size: usize, off: i64, fh: u64) -> (r: ErrnoResult<ReadReply>)
        ensures
            declined(read_result(r)) || self.answers(
                OperationView::Read { ino, size, off, fh },
                read_result(r),
            ),
            !self.handles(Verb::Read) ==> declined(read_result(r)),
    {
        Err(ENOSYS)
    }

    /// Whether `read` is implemented.
    fn read_is_implemented(&self) -> (b: bool)
        ensures
            b == self.implements(Verb::Read),
    {
        self.implemented(Verb::Read)
    }

    /// Write to an open file.
    fn write(
        &self,
        ino: fuse_ino_t,
        buf: &[u8],
        off: i64,
        fh: u64,
        writepage: bool,
    ) -> (r: ErrnoResult<usize>)
        ensures
            declined(write_result(r)) || self.answers(
                OperationView::Write { ino, buf: buf@, off, fh, writepage },
                write_result(r),
            ),
            !self.handles(Verb::Write) ==> declined(write_result(r)),
    {
        Err(ENOSYS)
    }

    /// Whether `write` is implemented.
    fn write_is_implemented(&self) -> (b: bool)
        ensures
            b == self.implements(Verb::Write),
    {
        self.implemented(Verb::Write)
    }

    /// Flush on close of a descriptor.
    fn flush(&self, ino: fuse_ino_t, lock_owner: u64, fh: u64) -> (r: ErrnoResult<()>)
        ensures
            declined(done_result(r)) || self.answers(
                OperationView::Flush { ino, lock_owner, fh },
                done_result(r),
            ),
            !self.handles(Verb::Flush) ==> declined(done_result(r)),
    {
        Err(ENOSYS)
    }

    /// Whether `flush` is implemented.
    fn flush_is_implemented(&self) -> (b: bool)
        ensures
            b == self.implements(Verb::Flush),
    {
        self.implemented(Verb::Flush)
    }

    /// Release an open file.
    fn release(&self, ino: fuse_ino_t, flags: i32, fh: u64) -> (r: ErrnoResult<()>)
        ensures
            declined(done_result(r)) || self.answers(
                OperationView::Release { ino, flags, fh },
                done_result(r),
            ),
            !self.handles(Verb::Release) ==> declined(done_result(r)),
    {
        Err(ENOSYS)
    }

    /// Whether `release` is implemented.
    fn release_is_implemented(&self) -> (b: bool)
        ensures
            b == self.implements(Verb::Release),
    {
        self.implemented(Verb::Release)
    }

    /// Synchronise file contents.
    fn fsync(&self, ino: fuse_ino_t, datasync: bool, fh: u64) -> (r: ErrnoResult<()>)
        ensures
            declined(done_result(r)) || self.answers(
                OperationView::Fsync { ino, datasync, fh },
                done_result(r),
            ),
            !self.handles(Verb::Fsync) ==> declined(done_result(r)),
    {
        Err(ENOSYS)
    }

    /// Whether `fsync` is implemented.
    fn fsync_is_implemented(&self) -> (b: bool)
        ensures
            b == self.implements(Verb::Fsync),
    {
        self.implemented(Verb::Fsync)
    }

    /// Open a directory.
    fn opendir(&self, ino: fuse_ino_t) -> (r: ErrnoResult<OpenReply>)
        ensures
            declined(open_result(r)) || self.answers(
                OperationView::Opendir { ino },
                open_result(r),
            ),
            !self.handles(Verb::Opendir) ==> declined(open_result(r)),
    {
        Err(ENOSYS)
    }

    /// Whether `opendir` is implemented.
    fn opendir_is_implemented(&self) -> (b: bool)
        ensures
            b == self.implements(Verb::Opendir),
    {
        self.implemented(Verb::Opendir)
    }

    /// List a directory from the offset `off` on. The reply is packed
    /// into at most `size` bytes, and cut short where it does not fit.
    fn readdir(
        &self,
        ino: fuse_ino_t,
        size: usize,
        off: i64,
        fh: u64,
    ) -> (r: ErrnoResult<ReaddirReply>)
        ensures
            declined(readdir_result(size, r)) || self.answers(
                OperationView::Readdir { ino, size, off, fh },
                readdir_result(size, r),
            ),
            !self.handles(Verb::Readdir) ==> declined(readdir_result(size, r)),
    {
        Err(ENOSYS)
    }

    /// Whether `readdir` is implemented.
    fn readdir_is_implemented(&self) -> (b: bool)
        ensures
            b == self.implements(Verb::Readdir),
    {
        self.implemented(Verb::Readdir)
    }

    /// Release an open directory.
    fn releasedir(&self, ino: fuse_ino_t, fh: u64) -> (r: ErrnoResult<()>)
        ensures
            declined(done_result(r)) || self.answers(
                OperationView::Releasedir { ino, fh },
                done_result(r),
            ),
            !self.handles(Verb::Releasedir) ==> declined(done_result(r)),
    {
        Err(ENOSYS)
    }

    /// Whether `releasedir` is implemented.
    fn releasedir_is_implemented(&self) -> (b: bool)
        ensures
            b == self.implements(Verb::Releasedir),
    {
        self.implemented(Verb::Releasedir)
    }

    /// Synchronise directory contents.
    fn fsyncdir(&self, ino: fuse_ino_t, datasync: bool, fh: u64) -> (r: ErrnoResult<()>)
        ensures
            declined(done_result(r)) || self.answers(
                OperationView::Fsyncdir { ino, datasync, fh },
                done_result(r),
            ),
            !self.handles(Verb::Fsyncdir) ==> declined(done_result(r)),
    {
        Err(ENOSYS)
    }

    /// Whether `fsyncdir` is implemented.
    fn fsyncdir_is_implemented(&self) -> (b: bool)
        ensures
            b == self.implements(Verb::Fsyncdir),
    {
        self.implemented(Verb::Fsyncdir)
    }

    /// Get filesystem statistics.
    fn statfs(&self, ino: fuse_ino_t) -> (r: ErrnoResult<Statvfs>)
        ensures
            declined(statfs_result(r)) || self.answers(
                OperationView::Statfs { ino },
                statfs_result(r),
            ),
            !self.handles(Verb::Statfs) ==> declined(statfs_result(r)),
    {
        Err(ENOSYS)
    }

    /// Whether `statfs` is implemented.
    fn statfs_is_implemented(&self) -> (b: bool)
        ensures
            b == self.implements(Verb::Statfs),
    {
        self.implemented(Verb::Statfs)
    }

    /// Set an extended attribute.
    fn setxattr(
        &self,
        ino: fuse_ino_t,
        name: &CString,
        value: &[u8],
        flags: i32,
    ) -> (r: ErrnoResult<()>)
        ensures
            declined(done_result(r)) || self.answers(
                OperationView::Setxattr { ino, name: name@, value: value@, flags },
                done_result(r),
            ),
            !self.handles(Verb::Setxattr) ==> declined(done_result(r)),
    {
        Err(ENOSYS)
    }

    /// Whether `setxattr` is implemented.
    fn setxattr_is_implemented(&self) -> (b: bool)
        ensures
            b == self.implements(Verb::Setxattr),
    {
        self.implemented(Verb::Setxattr)
    }

    /// Get the value of an extended attribute. Called with a size
    /// that is not zero; see [`FuseLowLevelOps::getxattr_size`].
    fn getxattr(&self, ino: fuse_ino_t, name: &CString, size: usize) -> (r: ErrnoResult<ReadReply>)
        ensures
            declined(read_result(r)) || self.answers(
                OperationView::Getxattr { ino, name: name@, size },
                read_result(r),
            ),
            !self.handles(Verb::Getxattr) ==> declined(read_result(r)),
    {
        Err(ENOSYS)
    }

    /// Called for a `getxattr` with size zero, which asks for the size of
    /// the value.
    fn getxattr_size(&self, ino: fuse_ino_t, name: &CString) -> (r: ErrnoResult<usize>)
        ensures
            declined(xattr_result(r)) || self.answers(
                OperationView::GetxattrSize { ino, name: name@ },
                xattr_result(r),
            ),
            !self.handles(Verb::Getxattr) ==> declined(xattr_result(r)),
    {
        Err(ENOSYS)
    }

    /// Whether `getxattr` is implemented.
    fn getxattr_is_implemented(&self) -> (b: bool)
        ensures
            b == self.implements(Verb::Getxattr),
    {
        self.implemented(Verb::Getxattr)
    }

    /// List the extended attribute names. Called with a size that is
    /// not zero; see [`FuseLowLevelOps::listxattr_size`].
    fn listxattr(&self, ino: fuse_ino_t, size: usize) -> (r: ErrnoResult<ReadReply>)
        ensures
            declined(read_result(r)) || self.answers(
                OperationView::Listxattr { ino, size },
                read_result(r),
            ),
            !self.handles(Verb::Listxattr) ==> declined(read_result(r)),
    {
        Err(ENOSYS)
    }

    /// Called for a `listxattr` with size zero, which asks for the size of
    /// the list.
    fn listxattr_size(&self, ino: fuse_ino_t) -> (r: ErrnoResult<usize>)
        ensures
            declined(xattr_result(r)) || self.answers(
                OperationView::ListxattrSize { ino },
                xattr_result(r),
            ),
            !self.handles(Verb::Listxattr) ==> declined(xattr_result(r)),
    {
        Err(ENOSYS)
    }

    /// Whether `listxattr` is implemented.
    fn listxattr_is_implemented(&self) -> (b: bool)
        ensures
            b == self.implements(Verb::Listxattr),
    {
        self.implemented(Verb::Listxattr)
    }

    /// Remove an extended attribute.
    fn removexattr(&self, ino: fuse_ino_t, name: &CString) -> (r: ErrnoResult<()>)
        ensures
            declined(done_result(r)) || self.answers(
                OperationView::Removexattr { ino, name: name@ },
                done_result(r),
            ),
            !self.handles(Verb::Removexattr) ==> declined(done_result(r)),
    {
        Err(ENOSYS)
    }

    /// Whether `removexattr` is implemented.
    fn removexattr_is_implemented(&self) -> (b: bool)
        ensures
            b == self.implements(Verb::Removexattr),
    {
        self.implemented(Verb::Removexattr)
    }

    /// Check access permissions.
    fn access(&self, ino: fuse_ino_t, mask: i32) -> (r: ErrnoResult<()>)
        ensures
            declined(done_result(r)) || self.answers(
                OperationView::Access { ino, mask },
                done_result(r),
            ),
            !self.handles(Verb::Access) ==> declined(done_result(r)),
    {
        Err(ENOSYS)
    }

    /// Whether `access` is implemented.
    fn access_is_implemented(&self) -> (b: bool)
        ensures
            b == self.implements(Verb::Access),
    {
        self.implemented(Verb::Access)
    }

    /// Create and open a file.
    fn create(
        &self,
        parent: fuse_ino_t,
        name: &CString,
        mode: u32,
        flags: i32,
    ) -> (r: ErrnoResult<CreateReply>)
        ensures
            declined(create_result(r)) || self.answers(
                OperationView::Create { parent, name: name@, mode, flags },
                create_result(r),
            ),
            !self.handles(Verb::Create) ==> declined(create_result(r)),
    {
        Err(ENOSYS)
    }

    /// Whether `create` is implemented.
    fn create_is_implemented(&self) -> (b: bool)
        ensures
            b == self.implements(Verb::Create),
    {
        self.implemented(Verb::Create)
    }
}

/// What a filesystem declares: for each verb, whether it implements the
/// verb.
pub open spec fn declared_of<T: FuseLowLevelOps>(ops: &T) -> Capabilities {
    Capabilities {
        init: ops.implements(Verb::Init),
        destroy: ops.implements(Verb::Destroy),
        lookup: ops.implements(Verb::Lookup),
        forget: ops.implements(Verb::Forget),
        getattr: ops.implements(Verb::Getattr),
        setattr: ops.implements(Verb::Setattr),
        readlink: ops.implements(Verb::Readlink),
        mknod: ops.implements(Verb::Mknod),
        mkdir: ops.implements(Verb::Mkdir),
        unlink: ops.implements(Verb::Unlink),
        rmdir: ops.implements(Verb::Rmdir),
        symlink: ops.implements(Verb::Symlink),
        rename: ops.implements(Verb::Rename),
        link: ops.implements(Verb::Link),
        open: ops.implements(Verb::Open),
        read: ops.implements(Verb::Read),
        write: ops.implements(Verb::Write),
        flush: ops.implements(Verb::Flush),
        release: ops.implements(Verb::Release),
        fsync: ops.implements(Verb::Fsync),
        opendir: ops.implements(Verb::Opendir),
        readdir: ops.implements(Verb::Readdir),
        releasedir: ops.implements(Verb::Releasedir),
        fsyncdir: ops.implements(Verb::Fsyncdir),
        statfs: ops.implements(Verb::Statfs),
        setxattr: ops.implements(Verb::Setxattr),
        getxattr: ops.implements(Verb::Getxattr),
        listxattr: ops.implements(Verb::Listxattr),
        removexattr: ops.implements(Verb::Removexattr),
        access: ops.implements(Verb::Access),
        create: ops.implements(Verb::Create),
        getlk: ops.implements(Verb::Getlk),
        setlk: ops.implements(Verb::Setlk),
        bmap: ops.implements(Verb::Bmap),
        ioctl: ops.implements(Verb::Ioctl),
        poll: ops.implements(Verb::Poll),
        write_buf: ops.implements(Verb::WriteBuf),
        retrieve_reply: ops.implements(Verb::RetrieveReply),
        forget_multi: ops.implements(Verb::ForgetMulti),
        flock: ops.implements(Verb::Flock),
    }
}

/// The handlers of a filesystem: for each verb, whether it has one of its
/// own.
pub open spec fn handlers_of<T: FuseLowLevelOps>(ops: &T) -> Capabilities {
    Capabilities {
        init: ops.handles(Verb::Init),
        destroy: ops.handles(Verb::Destroy),
        lookup: ops.handles(Verb::Lookup),
        forget: ops.handles(Verb::Forget),
        getattr: ops.handles(Verb::Getattr),
        setattr: ops.handles(Verb::Setattr),
        readlink: ops.handles(Verb::Readlink),
        mknod: ops.handles(Verb::Mknod),
        mkdir: ops.handles(Verb::Mkdir),
        unlink: ops.handles(Verb::Unlink),
        rmdir: ops.handles(Verb::Rmdir),
        symlink: ops.handles(Verb::Symlink),
        rename: ops.handles(Verb::Rename),
        link: ops.handles(Verb::Link),
        open: ops.handles(Verb::Open),
        read: ops.handles(Verb::Read),
        write: ops.handles(Verb::Write),
        flush: ops.handles(Verb::Flush),
        release: ops.handles(Verb::Release),
        fsync: ops.handles(Verb::Fsync),
        opendir: ops.handles(Verb::Opendir),
        readdir: ops.handles(Verb::Readdir),
        releasedir: ops.handles(Verb::Releasedir),
        fsyncdir: ops.handles(Verb::Fsyncdir),
        statfs: ops.handles(Verb::Statfs),
        setxattr: ops.handles(Verb::Setxattr),
        getxattr: ops.handles(Verb::Getxattr),
        listxattr: ops.handles(Verb::Listxattr),
        removexattr: ops.handles(Verb::Removexattr),
        access: ops.handles(Verb::Access),
        create: ops.handles(Verb::Create),
        getlk: ops.handles(Verb::Getlk),
        setlk: ops.handles(Verb::Setlk),
        bmap: ops.handles(Verb::Bmap),
        ioctl: ops.handles(Verb::Ioctl),
        poll: ops.handles(Verb::Poll),
        write_buf: ops.handles(Verb::WriteBuf),
        retrieve_reply: ops.handles(Verb::RetrieveReply),
        forget_multi: ops.handles(Verb::ForgetMulti),
        flock: ops.handles(Verb::Flock),
    }
}

/// What a filesystem declares says of each verb whether the filesystem
/// implements it.
pub proof fn lemma_declared_of<T: FuseLowLevelOps>(ops: &T, verb: Verb)
    ensures
        declared_of(ops).declares(verb) == ops.implements(verb),
{
    reveal(Capabilities::declares);
    match verb {
        Verb::Init => {
            assert(declared_of(ops).declares(verb) == ops.implements(verb));
        },
        Verb::Destroy => {
            assert(declared_of(ops).declares(verb) == ops.implements(verb));
        },
        Verb::Lookup => {
            assert(declared_of(ops).declares(verb) == ops.implements(verb));
        },
        Verb::Forget => {
            assert(declared_of(ops).declares(verb) == ops.implements(verb));
        },
        Verb::Getattr => {
            assert(declared_of(ops).declares(verb) == ops.implements(verb));
        },
        Verb::Setattr => {
            assert(declared_of(ops).declares(verb) == ops.implements(verb));
        },
        Verb::Readlink => {
            assert(declared_of(ops).declares(verb) == ops.implements(verb));
        },
        Verb::Mknod => {
            assert(declared_of(ops).declares(verb) == ops.implements(verb));
        },
        Verb::Mkdir => {
            assert(declared_of(ops).declares(verb) == ops.implements(verb));
        },
        Verb::Unlink => {
            assert(declared_of(ops).declares(verb) == ops.implements(verb));
        },
        Verb::Rmdir => {
            assert(declared_of(ops).declares(verb) == ops.implements(verb));
        },
        Verb::Symlink => {
            assert(declared_of(ops).declares(verb) == ops.implements(verb));
        },
        Verb::Rename => {
            assert(declared_of(ops).declares(verb) == ops.implements(verb));
        },
        Verb::Link => {
            assert(declared_of(ops).declares(verb) == ops.implements(verb));
        },
        Verb::Open => {
            assert(declared_of(ops).declares(verb) == ops.implements(verb));
        },
        Verb::Read => {
            assert(declared_of(ops).declares(verb) == ops.implements(verb));
        },
        Verb::Write => {
            assert(declared_of(ops).declares(verb) == ops.implements(verb));
        },
        Verb::Flush => {
            assert(declared_of(ops).declares(verb) == ops.implements(verb));
        },
        Verb::Release => {
            assert(declared_of(ops).declares(verb) == ops.implements(verb));
        },
        Verb::Fsync => {
            assert(declared_of(ops).declares(verb) == ops.implements(verb));
        },
        Verb::Opendir => {
            assert(declared_of(ops).declares(verb) == ops.implements(verb));
        },
        Verb::Readdir => {
            assert(declared_of(ops).declares(verb) == ops.implements(verb));
        },
        Verb::Releasedir => {
            assert(declared_of(ops).declares(verb) == ops.implements(verb));
        },
        Verb::Fsyncdir => {
            assert(declared_of(ops).declares(verb) == ops.implements(verb));
        },
        Verb::Statfs => {
            assert(declared_of(ops).declares(verb) == ops.implements(verb));
        },
        Verb::Setxattr => {
            assert(declared_of(ops).declares(verb) == ops.implements(verb));
        },
        Verb::Getxattr => {
            assert(declared_of(ops).declares(verb) == ops.implements(verb));
        },
        Verb::Listxattr => {
            assert(declared_of(ops).declares(verb) == ops.implements(verb));
        },
        Verb::Removexattr => {
            assert(declared_of(ops).declares(verb) == ops.implements(verb));
        },
        Verb::Access => {
            assert(declared_of(ops).declares(verb) == ops.implements(verb));
        },
        Verb::Create => {
            assert(declared_of(ops).declares(verb) == ops.implements(verb));
        },
        Verb::Getlk => {
            assert(declared_of(ops).declares(verb) == ops.implements(verb));
        },
        Verb::Setlk => {
            assert(declared_of(ops).declares(verb) == ops.implements(verb));
        },
        Verb::Bmap => {
            assert(declared_of(ops).declares(verb) == ops.implements(verb));
        },
        Verb::Ioctl => {
            assert(declared_of(ops).declares(verb) == ops.implements(verb));
        },
        Verb::Poll => {
            assert(declared_of(ops).declares(verb) == ops.implements(verb));
        },
        Verb::WriteBuf => {
            assert(declared_of(ops).declares(verb) == ops.implements(verb));
        },
        Verb::RetrieveReply => {
            assert(declared_of(ops).declares(verb) == ops.implements(verb));
        },
        Verb::ForgetMulti => {
            assert(declared_of(ops).declares(verb) == ops.implements(verb));
        },
        Verb::Flock => {
            assert(declared_of(ops).declares(verb) == ops.implements(verb));
        },
    }
}

/// The handlers of a filesystem say of each verb whether the filesystem
/// has a handler for it.
pub proof fn lemma_handlers_of<T: FuseLowLevelOps>(ops: &T, verb: Verb)
    ensures
        handlers_of(ops).declares(verb) == ops.handles(verb),
{
    reveal(Capabilities::declares);
    match verb {
        Verb::Init => {
            assert(handlers_of(ops).declares(verb) == ops.handles(verb));
        },
        Verb::Destroy => {
            assert(handlers_of(ops).declares(verb) == ops.handles(verb));
        },
        Verb::Lookup => {
            assert(handlers_of(ops).declares(verb) == ops.handles(verb));
        },
        Verb::Forget => {
            assert(handlers_of(ops).declares(verb) == ops.handles(verb));
        },
        Verb::Getattr => {
            assert(handlers_of(ops).declares(verb) == ops.handles(verb));
        },
        Verb::Setattr => {
            assert(handlers_of(ops).declares(verb) == ops.handles(verb));
        },
        Verb::Readlink => {
            assert(handlers_of(ops).declares(verb) == ops.handles(verb));
        },
        Verb::Mknod => {
            assert(handlers_of(ops).declares(verb) == ops.handles(verb));
        },
        Verb::Mkdir => {
            assert(handlers_of(ops).declares(verb) == ops.handles(verb));
        },
        Verb::Unlink => {
            assert(handlers_of(ops).declares(verb) == ops.handles(verb));
        },
        Verb::Rmdir => {
            assert(handlers_of(ops).declares(verb) == ops.handles(verb));
        },
        Verb::Symlink => {
            assert(handlers_of(ops).declares(verb) == ops.handles(verb));
        },
        Verb::Rename => {
            assert(handlers_of(ops).declares(verb) == ops.handles(verb));
        },
        Verb::Link => {
            assert(handlers_of(ops).declares(verb) == ops.handles(verb));
        },
        Verb::Open => {
            assert(handlers_of(ops).declares(verb) == ops.handles(verb));
        },
        Verb::Read => {
            assert(handlers_of(ops).declares(verb) == ops.handles(verb));
        },
        Verb::Write => {
            assert(handlers_of(ops).declares(verb) == ops.handles(verb));
        },
        Verb::Flush => {
            assert(handlers_of(ops).declares(verb) == ops.handles(verb));
        },
        Verb::Release => {
            assert(handlers_of(ops).declares(verb) == ops.handles(verb));
        },
        Verb::Fsync => {
            assert(handlers_of(ops).declares(verb) == ops.handles(verb));
        },
        Verb::Opendir => {
            assert(handlers_of(ops).declares(verb) == ops.handles(verb));
        },
        Verb::Readdir => {
            assert(handlers_of(ops).declares(verb) == ops.handles(verb));
        },
        Verb::Releasedir => {
            assert(handlers_of(ops).declares(verb) == ops.handles(verb));
        },
        Verb::Fsyncdir => {
            assert(handlers_of(ops).declares(verb) == ops.handles(verb));
        },
        Verb::Statfs => {
            assert(handlers_of(ops).declares(verb) == ops.handles(verb));
        },
        Verb::Setxattr => {
            assert(handlers_of(ops).declares(verb) == ops.handles(verb));
        },
        Verb::Getxattr => {
            assert(handlers_of(ops).declares(verb) == ops.handles(verb));
        },
        Verb::Listxattr => {
            assert(handlers_of(ops).declares(verb) == ops.handles(verb));
        },
        Verb::Removexattr => {
            assert(handlers_of(ops).declares(verb) == ops.handles(verb));
        },
        Verb::Access => {
            assert(handlers_of(ops).declares(verb) == ops.handles(verb));
        },
        Verb::Create => {
            assert(handlers_of(ops).declares(verb) == ops.handles(verb));
        },
        Verb::Getlk => {
            assert(handlers_of(ops).declares(verb) == ops.handles(verb));
        },
        Verb::Setlk => {
            assert(handlers_of(ops).declares(verb) == ops.handles(verb));
        },
        Verb::Bmap => {
            assert(handlers_of(ops).declares(verb) == ops.handles(verb));
        },
        Verb::Ioctl => {
            assert(handlers_of(ops).declares(verb) == ops.handles(verb));
        },
        Verb::Poll => {
            assert(handlers_of(ops).declares(verb) == ops.handles(verb));
        },
        Verb::WriteBuf => {
            assert(handlers_of(ops).declares(verb) == ops.handles(verb));
        },
        Verb::RetrieveReply => {
            assert(handlers_of(ops).declares(verb) == ops.handles(verb));
        },
        Verb::ForgetMulti => {
            assert(handlers_of(ops).declares(verb) == ops.handles(verb));
        },
        Verb::Flock => {
            assert(handlers_of(ops).declares(verb) == ops.handles(verb));
        },
    }
}

/// Whether a filesystem implements `verb` though nothing handles it: the
/// bridge has no handler for the verb, or the filesystem has none.
pub open spec fn mismatched<T: FuseLowLevelOps>(ops: &T, verb: Verb) -> bool {
    ops.implements(verb) && !(verb.has_handler() && ops.handles(verb))
}

/// Asks `ops` once for each verb whether it implements the verb: through
/// the `_is_implemented` method of the verb where there is one.
pub fn declared_by<T: FuseLowLevelOps>(ops: &T) -> (declared: Capabilities)
    ensures
        declared == declared_of(ops),
{
    Capabilities {
        init: ops.implemented(Verb::Init),
        destroy: ops.implemented(Verb::Destroy),
        lookup: ops.lookup_is_implemented(),
        forget: ops.forget_is_implemented(),
        getattr: ops.getattr_is_implemented(),
        setattr: ops.setattr_is_implemented(),
        readlink: ops.readlink_is_implemented(),
        mknod: ops.mknod_is_implemented(),
        mkdir: ops.mkdir_is_implemented(),
        unlink: ops.unlink_is_implemented(),
        rmdir: ops.rmdir_is_implemented(),
        symlink: ops.symlink_is_implemented(),
        rename: ops.rename_is_implemented(),
        link: ops.link_is_implemented(),
        open: ops.open_is_implemented(),
        read: ops.read_is_implemented(),
        write: ops.write_is_implemented(),
        flush: ops.flush_is_implemented(),
        release: ops.release_is_implemented(),
        fsync: ops.fsync_is_implemented(),
        opendir: ops.opendir_is_implemented(),
        readdir: ops.readdir_is_implemented(),
        releasedir: ops.releasedir_is_implemented(),
        fsyncdir: ops.fsyncdir_is_implemented(),
        statfs: ops.statfs_is_implemented(),
        setxattr: ops.setxattr_is_implemented(),
        getxattr: ops.getxattr_is_implemented(),
        listxattr: ops.listxattr_is_implemented(),
        removexattr: ops.removexattr_is_implemented(),
        access: ops.access_is_implemented(),
        create: ops.create_is_implemented(),
        getlk: ops.implemented(Verb::Getlk),
        setlk: ops.implemented(Verb::Setlk),
        bmap: ops.implemented(Verb::Bmap),
        ioctl: ops.implemented(Verb::Ioctl),
        poll: ops.implemented(Verb::Poll),
        write_buf: ops.implemented(Verb::WriteBuf),
        retrieve_reply: ops.implemented(Verb::RetrieveReply),
        forget_multi: ops.implemented(Verb::ForgetMulti),
        flock: ops.implemented(Verb::Flock),
    }
}

/// Asks `ops` once for each verb whether it has a handler for the verb.
pub fn handlers_by<T: FuseLowLevelOps>(ops: &T) -> (handlers: Capabilities)
    ensures
        handlers == handlers_of(ops),
{
    Capabilities {
        init: ops.handler_present(Verb::Init),
        destroy: ops.handler_present(Verb::Destroy),
        lookup: ops.handler_present(Verb::Lookup),
        forget: ops.handler_present(Verb::Forget),
        getattr: ops.handler_present(Verb::Getattr),
        setattr: ops.handler_present(Verb::Setattr),
        readlink: ops.handler_present(Verb::Readlink),
        mknod: ops.handler_present(Verb::Mknod),
        mkdir: ops.handler_present(Verb::Mkdir),
        unlink: ops.handler_present(Verb::Unlink),
        rmdir: ops.handler_present(Verb::Rmdir),
        symlink: ops.handler_present(Verb::Symlink),
        rename: ops.handler_present(Verb::Rename),
        link: ops.handler_present(Verb::Link),
        open: ops.handler_present(Verb::Open),
        read: ops.handler_present(Verb::Read),
        write: ops.handler_present(Verb::Write),
        flush: ops.handler_present(Verb::Flush),
        release: ops.handler_present(Verb::Release),
        fsync: ops.handler_present(Verb::Fsync),
        opendir: ops.handler_present(Verb::Opendir),
        readdir: ops.handler_present(Verb::Readdir),
        releasedir: ops.handler_present(Verb::Releasedir),
        fsyncdir: ops.handler_present(Verb::Fsyncdir),
        statfs: ops.handler_present(Verb::Statfs),
        setxattr: ops.handler_present(Verb::Setxattr),
        getxattr: ops.handler_present(Verb::Getxattr),
        listxattr: ops.handler_present(Verb::Listxattr),
        removexattr: ops.handler_present(Verb::Removexattr),
        access: ops.handler_present(Verb::Access),
        create: ops.handler_present(Verb::Create),
        getlk: ops.handler_present(Verb::Getlk),
        setlk: ops.handler_present(Verb::Setlk),
        bmap: ops.handler_present(Verb::Bmap),
        ioctl: ops.handler_present(Verb::Ioctl),
        poll: ops.handler_present(Verb::Poll),
        write_buf: ops.handler_present(Verb::WriteBuf),
        retrieve_reply: ops.handler_present(Verb::RetrieveReply),
        forget_multi: ops.handler_present(Verb::ForgetMulti),
        flock: ops.handler_present(Verb::Flock),
    }
}

/// Asks `ops` once for each verb whether it is implemented, and makes the
/// capability table from the answers, as [`OperationTable::for_answers`]
/// does. The table routes the two session notifications, and no verb
/// without a handler in the bridge; any other verb it routes exactly when
/// `ops` implements it.
pub fn make_fuse_ll_oper<T: FuseLowLevelOps>(ops: &T) -> (table: OperationTable)
    ensures
        forall|verb: Verb| #[trigger]
            table.routes(verb) == verb.routed_if(ops.implements(verb)),
        table.routes(Verb::Init),
        table.routes(Verb::Destroy),
        forall|verb: Verb| #[trigger] table.routes(verb) ==> verb.has_handler(),
{
    let declared = declared_by(ops);
    let table = OperationTable::for_answers(declared);
    proof {
        assert forall|verb: Verb| #[trigger]
            table.routes(verb) == verb.routed_if(ops.implements(verb)) by {
            lemma_declared_of(ops, verb);
        }
        assert(table.routes(Verb::Init) && table.routes(Verb::Destroy));
        assert forall|verb: Verb| #[trigger] table.routes(verb) implies verb.has_handler() by {
            table.lemma_routed_verbs_have_handlers(verb);
        }
    }
    table
}

/// Makes the capability table of a filesystem that is to be mounted, as
/// [`make_fuse_ll_oper`] makes it, after checking what the filesystem
/// declares against its handlers. This fails, naming the first such verb in
/// table order, exactly when the filesystem implements a verb that is not
/// handled: one for which the bridge has no handler, or the filesystem has
/// none. It is here, before the session starts, that such a filesystem is
/// turned away; no request ever meets a verb without a handler.
pub fn make_checked_table<T: FuseLowLevelOps>(ops: &T) -> (r: Result<
    OperationTable,
    CapabilityMismatch,
>)
    ensures
        r is Ok <==> forall|verb: Verb| !#[trigger] mismatched(ops, verb),
        r matches Ok(table) ==> forall|verb: Verb| #[trigger]
            table.routes(verb) == verb.routed_if(ops.implements(verb)),
        r matches Ok(table) ==> forall|verb: Verb| #[trigger]
            table.routes(verb) ==> verb.has_handler() && (verb.is_notification() || ops.handles(
                verb,
            )),
        r matches Err(e) ==> mismatched(ops, e.verb),
        r matches Err(e) ==> forall|verb: Verb| #[trigger]
            mismatched(ops, verb) ==> OperationTable::slot_index(e.verb)
                <= OperationTable::slot_index(verb),
{
    let declared = declared_by(ops);
    let handlers = handlers_by(ops);
    let r = OperationTable::new(declared, handlers);
    proof {
        assert forall|verb: Verb| #[trigger]
            mismatched(ops, verb) == declared.mismatch(handlers, verb) by {
            lemma_declared_of(ops, verb);
            lemma_handlers_of(ops, verb);
        }
        match r {
            Ok(table) => {
                assert forall|verb: Verb| !#[trigger] mismatched(ops, verb) by {
                    assert(!declared.mismatch(handlers, verb));
                }
                assert forall|verb: Verb| #[trigger]
                    table.routes(verb) == verb.routed_if(ops.implements(verb)) by {
                    lemma_declared_of(ops, verb);
                }
                assert forall|verb: Verb| #[trigger]
                    table.routes(verb) implies verb.has_handler() && (verb.is_notification()
                    || ops.handles(verb)) by {
                    assert(!mismatched(ops, verb));
                }
            },
            Err(e) => {
                assert(mismatched(ops, e.verb));
                assert forall|verb: Verb| #[trigger]
                    mismatched(ops, verb) implies OperationTable::slot_index(e.verb)
                    <= OperationTable::slot_index(verb) by {
                    assert(declared.mismatch(handlers, verb));
                }
            },
        }
    }
    r
}

} // verus!
