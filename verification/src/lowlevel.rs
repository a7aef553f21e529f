//! The inode-based interface: typed operations, the handlers they are routed
//! to, and the replies the handlers' results become.

pub mod dirbuf;
pub mod dispatch;
pub mod mount;
pub mod operation;
pub mod ops;
pub mod reply;
pub mod session;
pub mod types;
pub mod unmount;

pub use dirbuf::pack_dir_entries;
pub use dispatch::{invoke, run_for_reply, supervise, FSOperation, Request, WorkerOutcome};
pub use mount::{FuseMount, FuseSession, Lifecycle, MountState};
pub use operation::{decode_attrs_to_set, Operation};
pub use ops::{
    declared_by, handlers_by, make_checked_table, make_fuse_ll_oper, Capabilities,
    CapabilityMismatch, FuseLowLevelOps, OperationTable, Verb,
};
pub use reply::{
    openreply_to_fileinfo, reply_attr, reply_create, reply_entryparam, reply_failure_err,
    reply_none, reply_open, reply_read, reply_readdir, reply_readlink, reply_statfs,
    reply_write, reply_xattr, reply_zero_err, send_fuse_reply, NativeReply, Reply,
};
pub use session::{c_api_loop, destroy_impl, init_impl, Bridge, SessionStage, StartupError};
pub use types::{
    fuse_ino_t, AttrReply, AttrToSet, CreateReply, DirEntry, DirEntryView, EntryReply,
    FuseMountOptions, OpenReply, ReadReply, ReaddirReply,
};
pub use unmount::{
    ext_unmount_args, ext_unmount_prog, unmount_via_external_process, HostOs, UnmountCommand,
};
