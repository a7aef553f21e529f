//! Typed operations, and how the raw arguments of each native callback
//! become one.

use vstd::prelude::*;
use crate::c_str::CString;
use crate::lowlevel::ops::Verb;
use crate::lowlevel::types::{fuse_ino_t, AttrToSet};
use crate::native::fuse_file_info;
use crate::stat::Stat;

verus! {

/// Bit of the attribute mask that asks to change the mode.
pub const FUSE_SET_ATTR_MODE: i32 = 1 << 0;

/// Bit of the attribute mask that asks to change the owner.
pub const FUSE_SET_ATTR_UID: i32 = 1 << 1;

/// Bit of the attribute mask that asks to change the group.
pub const FUSE_SET_ATTR_GID: i32 = 1 << 2;

/// Bit of the attribute mask that asks to change the size.
pub const FUSE_SET_ATTR_SIZE: i32 = 1 << 3;

/// Bit of the attribute mask that asks to change the access time.
pub const FUSE_SET_ATTR_ATIME: i32 = 1 << 4;

/// Bit of the attribute mask that asks to change the modification time.
pub const FUSE_SET_ATTR_MTIME: i32 = 1 << 5;

/// Bit of the attribute mask that asks to set the access time to now.
pub const FUSE_SET_ATTR_ATIME_NOW: i32 = 1 << 7;

/// Bit of the attribute mask that asks to set the modification time to now.
pub const FUSE_SET_ATTR_MTIME_NOW: i32 = 1 << 8;

/// One filesystem request with its arguments decoded: what a worker hands to
/// a handler.
#[allow(inconsistent_fields)]
#[derive(Clone, Debug, PartialEq, Eq)]
pub enum Operation {
    /// Look `name` up in the directory `parent`.
    Lookup { parent: fuse_ino_t, name: CString },
    /// Drop `nlookup` references to `ino`.
    Forget { ino: fuse_ino_t, nlookup: u64 },
    /// Get the attributes of `ino`.
    Getattr { ino: fuse_ino_t },
    /// Change the attributes listed, through the open file `fh` if there is one.
    Setattr { ino: fuse_ino_t, attrs: Vec<AttrToSet>, fh: Option<u64> },
    /// Read the target of the symbolic link `ino`.
    Readlink { ino: fuse_ino_t },
    /// Create a file node.
    Mknod { parent: fuse_ino_t, name: CString, mode: u32, rdev: u64 },
    /// Create a directory.
    Mkdir { parent: fuse_ino_t, name: CString, mode: u32 },
    /// Remove a file.
    Unlink { parent: fuse_ino_t, name: CString },
    /// Remove a directory.
    Rmdir { parent: fuse_ino_t, name: CString },
    /// Create the symbolic link `name` in `parent`, with target `link`.
    Symlink { link: CString, parent: fuse_ino_t, name: CString },
    /// Rename an entry.
    Rename { parent: fuse_ino_t, name: CString, newparent: fuse_ino_t, newname: CString },
    /// Create a hard link to `ino`.
    Link { ino: fuse_ino_t, newparent: fuse_ino_t, newname: CString },
    /// Open a file.
    Open { ino: fuse_ino_t, flags: i32 },
    /// Read `size` bytes at `off`.
    Read { ino: fuse_ino_t, size: usize, off: i64, fh: u64 },
    /// Write `buf` at `off`.
    Write { ino: fuse_ino_t, buf: Vec<u8>, off: i64, fh: u64, writepage: bool },
    /// Flush on close of a descriptor.
    Flush { ino: fuse_ino_t, lock_owner: u64, fh: u64 },
    /// Release an open file.
    Release { ino: fuse_ino_t, flags: i32, fh: u64 },
    /// Synchronise file contents; only the data, when `datasync` is set.
    Fsync { ino: fuse_ino_t, datasync: bool, fh: u64 },
    /// Open a directory.
    Opendir { ino: fuse_ino_t },
    /// List a directory from `off` on, into a buffer of `size` bytes.
    Readdir { ino: fuse_ino_t, size: usize, off: i64, fh: u64 },
    /// Release an open directory.
    Releasedir { ino: fuse_ino_t, fh: u64 },
    /// Synchronise directory contents.
    Fsyncdir { ino: fuse_ino_t, datasync: bool, fh: u64 },
    /// Get filesystem statistics.
    Statfs { ino: fuse_ino_t },
    /// Set an extended attribute.
    Setxattr { ino: fuse_ino_t, name: CString, value: Vec<u8>, flags: i32 },
    /// Get the value of an extended attribute, into `size` bytes.
    Getxattr { ino: fuse_ino_t, name: CString, size: usize },
    /// Get the size of the value of an extended attribute.
    GetxattrSize { ino: fuse_ino_t, name: CString },
    /// List the extended attribute names, into `size` bytes.
    Listxattr { ino: fuse_ino_t, size: usize },
    /// Get the size of the list of extended attribute names.
    ListxattrSize { ino: fuse_ino_t },
    /// Remove an extended attribute.
    Removexattr { ino: fuse_ino_t, name: CString },
    /// Check access permissions.
    Access { ino: fuse_ino_t, mask: i32 },
    /// Create and open a file.
    Create { parent: fuse_ino_t, name: CString, mode: u32, flags: i32 },
}

/// An [`Operation`] as a value: names and buffers by their content.
#[allow(inconsistent_fields)]
pub enum OperationView {
    Lookup { parent: fuse_ino_t, name: Seq<u8> },
    Forget { ino: fuse_ino_t, nlookup: u64 },
    Getattr { ino: fuse_ino_t },
    Setattr { ino: fuse_ino_t, attrs: Seq<AttrToSet>, fh: Option<u64> },
    Readlink { ino: fuse_ino_t },
    Mknod { parent: fuse_ino_t, name: Seq<u8>, mode: u32, rdev: u64 },
    Mkdir { parent: fuse_ino_t, name: Seq<u8>, mode: u32 },
    Unlink { parent: fuse_ino_t, name: Seq<u8> },
    Rmdir { parent: fuse_ino_t, name: Seq<u8> },
    Symlink { link: Seq<u8>, parent: fuse_ino_t, name: Seq<u8> },
    Rename { parent: fuse_ino_t, name: Seq<u8>, newparent: fuse_ino_t, newname: Seq<u8> },
    Link { ino: fuse_ino_t, newparent: fuse_ino_t, newname: Seq<u8> },
    Open { ino: fuse_ino_t, flags: i32 },
    Read { ino: fuse_ino_t, size: usize, off: i64, fh: u64 },
    Write { ino: fuse_ino_t, buf: Seq<u8>, off: i64, fh: u64, writepage: bool },
    Flush { ino: fuse_ino_t, lock_owner: u64, fh: u64 },
    Release { ino: fuse_ino_t, flags: i32, fh: u64 },
    Fsync { ino: fuse_ino_t, datasync: bool, fh: u64 },
    Opendir { ino: fuse_ino_t },
    Readdir { ino: fuse_ino_t, size: usize, off: i64, fh: u64 },
    Releasedir { ino: fuse_ino_t, fh: u64 },
    Fsyncdir { ino: fuse_ino_t, datasync: bool, fh: u64 },
    Statfs { ino: fuse_ino_t },
    Setxattr { ino: fuse_ino_t, name: Seq<u8>, value: Seq<u8>, flags: i32 },
    Getxattr { ino: fuse_ino_t, name: Seq<u8>, size: usize },
    GetxattrSize { ino: fuse_ino_t, name: Seq<u8> },
    Listxattr { ino: fuse_ino_t, size: usize },
    ListxattrSize { ino: fuse_ino_t },
    Removexattr { ino: fuse_ino_t, name: Seq<u8> },
    Access { ino: fuse_ino_t, mask: i32 },
    Create { parent: fuse_ino_t, name: Seq<u8>, mode: u32, flags: i32 },
}

impl View for Operation {
    type V = OperationView;

    open spec fn view(&self) -> OperationView {
        match self {
            Operation::Lookup { parent, name } => OperationView::Lookup {
                parent: *parent,
                name: name@,
            },
            Operation::Forget { ino, nlookup } => OperationView::Forget {
                ino: *ino,
                nlookup: *nlookup,
            },
            Operation::Getattr { ino } => OperationView::Getattr {
                ino: *ino,
            },
            Operation::Setattr { ino, attrs, fh } => OperationView::Setattr {
                ino: *ino,
                attrs: attrs@,
                fh: *fh,
            },
            Operation::Readlink { ino } => OperationView::Readlink {
                ino: *ino,
            },
            Operation::Mknod { parent, name, mode, rdev } => OperationView::Mknod {
                parent: *parent,
                name: name@,
                mode: *mode,
                rdev: *rdev,
            },
            Operation::Mkdir { parent, name, mode } => OperationView::Mkdir {
                parent: *parent,
                name: name@,
                mode: *mode,
            },
            Operation::Unlink { parent, name } => OperationView::Unlink {
                parent: *parent,
                name: name@,
            },
            Operation::Rmdir { parent, name } => OperationView::Rmdir {
                parent: *parent,
                name: name@,
            },
            Operation::Symlink { link, parent, name } => OperationView::Symlink {
                link: link@,
                parent: *parent,
                name: name@,
            },
            Operation::Rename { parent, name, newparent, newname } => OperationView::Rename {
                parent: *parent,
                name: name@,
                newparent: *newparent,
                newname: newname@,
            },
            Operation::Link { ino, newparent, newname } => OperationView::Link {
                ino: *ino,
                newparent: *newparent,
                newname: newname@,
            },
            Operation::Open { ino, flags } => OperationView::Open {
                ino: *ino,
                flags: *flags,
            },
            Operation::Read { ino, size, off, fh } => OperationView::Read {
                ino: *ino,
                size: *size,
                off: *off,
                fh: *fh,
            },
            Operation::Write { ino, buf, off, fh, writepage } => OperationView::Write {
                ino: *ino,
                buf: buf@,
                off: *off,
                fh: *fh,
                writepage: *writepage,
            },
            Operation::Flush { ino, lock_owner, fh } => OperationView::Flush {
                ino: *ino,
                lock_owner: *lock_owner,
                fh: *fh,
            },
            Operation::Release { ino, flags, fh } => OperationView::Release {
                ino: *ino,
                flags: *flags,
                fh: *fh,
            },
            Operation::Fsync { ino, datasync, fh } => OperationView::Fsync {
                ino: *ino,
                datasync: *datasync,
                fh: *fh,
            },
            Operation::Opendir { ino } => OperationView::Opendir {
                ino: *ino,
            },
            Operation::Readdir { ino, size, off, fh } => OperationView::Readdir {
                ino: *ino,
                size: *size,
                off: *off,
                fh: *fh,
            },
            Operation::Releasedir { ino, fh } => OperationView::Releasedir {
                ino: *ino,
                fh: *fh,
            },
            Operation::Fsyncdir { ino, datasync, fh } => OperationView::Fsyncdir {
                ino: *ino,
                datasync: *datasync,
                fh: *fh,
            },
            Operation::Statfs { ino } => OperationView::Statfs {
                ino: *ino,
            },
            Operation::Setxattr { ino, name, value, flags } => OperationView::Setxattr {
                ino: *ino,
                name: name@,
                value: value@,
                flags: *flags,
            },
            Operation::Getxattr { ino, name, size } => OperationView::Getxattr {
                ino: *ino,
                name: name@,
                size: *size,
            },
            Operation::GetxattrSize { ino, name } => OperationView::GetxattrSize {
                ino: *ino,
                name: name@,
            },
            Operation::Listxattr { ino, size } => OperationView::Listxattr {
                ino: *ino,
                size: *size,
            },
            Operation::ListxattrSize { ino } => OperationView::ListxattrSize {
                ino: *ino,
            },
            Operation::Removexattr { ino, name } => OperationView::Removexattr {
                ino: *ino,
                name: name@,
            },
            Operation::Access { ino, mask } => OperationView::Access {
                ino: *ino,
                mask: *mask,
            },
            Operation::Create { parent, name, mode, flags } => OperationView::Create {
                parent: *parent,
                name: name@,
                mode: *mode,
                flags: *flags,
            },
        }
    }
}

impl Operation {
    /// The verb of the operation.
    pub open spec fn verb_of(&self) -> Verb {
        match self {
            Operation::Lookup { .. } => Verb::Lookup,
            Operation::Forget { .. } => Verb::Forget,
            Operation::Getattr { .. } => Verb::Getattr,
            Operation::Setattr { .. } => Verb::Setattr,
            Operation::Readlink { .. } => Verb::Readlink,
            Operation::Mknod { .. } => Verb::Mknod,
            Operation::Mkdir { .. } => Verb::Mkdir,
            Operation::Unlink { .. } => Verb::Unlink,
            Operation::Rmdir { .. } => Verb::Rmdir,
            Operation::Symlink { .. } => Verb::Symlink,
            Operation::Rename { .. } => Verb::Rename,
            Operation::Link { .. } => Verb::Link,
            Operation::Open { .. } => Verb::Open,
            Operation::Read { .. } => Verb::Read,
            Operation::Write { .. } => Verb::Write,
            Operation::Flush { .. } => Verb::Flush,
            Operation::Release { .. } => Verb::Release,
            Operation::Fsync { .. } => Verb::Fsync,
            Operation::Opendir { .. } => Verb::Opendir,
            Operation::Readdir { .. } => Verb::Readdir,
            Operation::Releasedir { .. } => Verb::Releasedir,
            Operation::Fsyncdir { .. } => Verb::Fsyncdir,
            Operation::Statfs { .. } => Verb::Statfs,
            Operation::Setxattr { .. } => Verb::Setxattr,
            Operation::Getxattr { .. } => Verb::Getxattr,
            Operation::GetxattrSize { .. } => Verb::Getxattr,
            Operation::Listxattr { .. } => Verb::Listxattr,
            Operation::ListxattrSize { .. } => Verb::Listxattr,
            Operation::Removexattr { .. } => Verb::Removexattr,
            Operation::Access { .. } => Verb::Access,
            Operation::Create { .. } => Verb::Create,
        }
    }

    /// Computes [`Operation::verb_of`].
    pub fn verb(&self) -> (verb: Verb)
        ensures
            verb == self.verb_of(),
            verb.has_handler(),
            !verb.is_notification(),
    {
        match self {
            Operation::Lookup { .. } => Verb::Lookup,
            Operation::Forget { .. } => Verb::Forget,
            Operation::Getattr { .. } => Verb::Getattr,
            Operation::Setattr { .. } => Verb::Setattr,
            Operation::Readlink { .. } => Verb::Readlink,
            Operation::Mknod { .. } => Verb::Mknod,
            Operation::Mkdir { .. } => Verb::Mkdir,
            Operation::Unlink { .. } => Verb::Unlink,
            Operation::Rmdir { .. } => Verb::Rmdir,
            Operation::Symlink { .. } => Verb::Symlink,
            Operation::Rename { .. } => Verb::Rename,
            Operation::Link { .. } => Verb::Link,
            Operation::Open { .. } => Verb::Open,
            Operation::Read { .. } => Verb::Read,
            Operation::Write { .. } => Verb::Write,
            Operation::Flush { .. } => Verb::Flush,
            Operation::Release { .. } => Verb::Release,
            Operation::Fsync { .. } => Verb::Fsync,
            Operation::Opendir { .. } => Verb::Opendir,
            Operation::Readdir { .. } => Verb::Readdir,
            Operation::Releasedir { .. } => Verb::Releasedir,
            Operation::Fsyncdir { .. } => Verb::Fsyncdir,
            Operation::Statfs { .. } => Verb::Statfs,
            Operation::Setxattr { .. } => Verb::Setxattr,
            Operation::Getxattr { .. } => Verb::Getxattr,
            Operation::GetxattrSize { .. } => Verb::Getxattr,
            Operation::Listxattr { .. } => Verb::Listxattr,
            Operation::ListxattrSize { .. } => Verb::Listxattr,
            Operation::Removexattr { .. } => Verb::Removexattr,
            Operation::Access { .. } => Verb::Access,
            Operation::Create { .. } => Verb::Create,
        }
    }
}

/// The bit of the attribute mask that asks for the change `attr`.
pub open spec fn attr_bit(attr: AttrToSet) -> i32 {
    match attr {
        AttrToSet::Mode(_) => FUSE_SET_ATTR_MODE,
        AttrToSet::Uid(_) => FUSE_SET_ATTR_UID,
        AttrToSet::Gid(_) => FUSE_SET_ATTR_GID,
        AttrToSet::Size(_) => FUSE_SET_ATTR_SIZE,
        AttrToSet::Atime(_) => FUSE_SET_ATTR_ATIME,
        AttrToSet::Mtime(_) => FUSE_SET_ATTR_MTIME,
        AttrToSet::Atime_now => FUSE_SET_ATTR_ATIME_NOW,
        AttrToSet::Mtime_now => FUSE_SET_ATTR_MTIME_NOW,
    }
}

/// Every change that a `setattr` call can ask for, with the values that
/// `attr` carries for it, in the order in which they are decoded.
pub open spec fn all_attrs(attr: Stat) -> Seq<AttrToSet> {
    seq![
        AttrToSet::Mode(attr.st_mode),
        AttrToSet::Uid(attr.st_uid),
        AttrToSet::Gid(attr.st_gid),
        AttrToSet::Size(attr.st_size),
        AttrToSet::Atime(attr.st_atime),
        AttrToSet::Mtime(attr.st_mtime),
        AttrToSet::Atime_now,
        AttrToSet::Mtime_now,
    ]
}

/// Whether the mask `to_set` asks for the change `attr`.
pub open spec fn asks_for(to_set: i32, attr: AttrToSet) -> bool {
    to_set & attr_bit(attr) != 0
}

/// The changes that a `setattr` call with mask `to_set` asks for: of all
/// the changes there are, those whose bit is set, in their order.
pub open spec fn attrs_to_set(attr: Stat, to_set: i32) -> Seq<AttrToSet> {
    all_attrs(attr).filter(|a: AttrToSet| asks_for(to_set, a))
}

/// The decoded list matches the bits set: a change is in the list exactly
/// when its bit is set in the mask and it carries the value that `attr` has
/// for it; the list holds no change twice.
pub proof fn lemma_attrs_to_set_matches_bits(attr: Stat, to_set: i32)
    ensures
        forall|a: AttrToSet| #[trigger]
            attrs_to_set(attr, to_set).contains(a) <==> all_attrs(attr).contains(a) && asks_for(
                to_set,
                a,
            ),
        attrs_to_set(attr, to_set).no_duplicates(),
        attrs_to_set(attr, to_set).len() <= 8,
{
    let all = all_attrs(attr);
    let pred = |a: AttrToSet| asks_for(to_set, a);
    broadcast use vstd::seq_lib::group_filter_ensures;
    assert forall|a: AttrToSet| #[trigger]
        attrs_to_set(attr, to_set).contains(a) <==> all.contains(a) && asks_for(to_set, a) by {
        if attrs_to_set(attr, to_set).contains(a) {
            all.lemma_filter_contains_rev(pred, a);
            let i = choose|i: int|
                0 <= i < all.filter(pred).len() && all.filter(pred)[i] == a;
            assert(pred(all.filter(pred)[i]));
        }
        if all.contains(a) && asks_for(to_set, a) {
            let i = choose|i: int| 0 <= i < all.len() && all[i] == a;
            assert(pred(all[i]));
        }
    }
    assert(all.no_duplicates());
    lemma_filter_no_duplicates(all, pred);
}

/// Filtering a sequence that holds nothing twice gives one that holds
/// nothing twice.
proof fn lemma_filter_no_duplicates<A>(s: Seq<A>, pred: spec_fn(A) -> bool)
    requires
        s.no_duplicates(),
    ensures
        s.filter(pred).no_duplicates(),
    decreases s.len(),
{
    reveal(Seq::filter);
    if s.len() > 0 {
        let prev = s.drop_last();
        lemma_filter_no_duplicates(prev, pred);
        if pred(s.last()) {
            if prev.filter(pred).contains(s.last()) {
                prev.lemma_filter_contains_rev(pred, s.last());
                let i = choose|i: int| 0 <= i < prev.len() && prev[i] == s.last();
                assert(s[i] == s[s.len() - 1]);
            }
        }
    }
}

/// Decodes the attribute mask of a `setattr` call into the list of changes
/// it asks for, each with the value that `attr` carries for it.
pub fn decode_attrs_to_set(attr: &Stat, to_set: i32) -> (attrs: Vec<AttrToSet>)
    ensures
        attrs@ == attrs_to_set(*attr, to_set),
{
    let ghost all = all_attrs(*attr);
    let ghost pred = |a: AttrToSet| asks_for(to_set, a);
    let mut attrs_to_set: Vec<AttrToSet> = Vec::with_capacity(8);
    proof {
        reveal(Seq::filter);
        assert(all.take(0).filter(pred) == Seq::<AttrToSet>::empty());
    }
    if to_set & FUSE_SET_ATTR_MODE != 0 {
        attrs_to_set.push(AttrToSet::Mode(attr.st_mode));
    }
    proof {
        lemma_filter_step(all, pred, 0);
    }
    if to_set & FUSE_SET_ATTR_UID != 0 {
        attrs_to_set.push(AttrToSet::Uid(attr.st_uid));
    }
    proof {
        lemma_filter_step(all, pred, 1);
    }
    if to_set & FUSE_SET_ATTR_GID != 0 {
        attrs_to_set.push(AttrToSet::Gid(attr.st_gid));
    }
    proof {
        lemma_filter_step(all, pred, 2);
    }
    if to_set & FUSE_SET_ATTR_SIZE != 0 {
        attrs_to_set.push(AttrToSet::Size(attr.st_size));
    }
    proof {
        lemma_filter_step(all, pred, 3);
    }
    if to_set & FUSE_SET_ATTR_ATIME != 0 {
        attrs_to_set.push(AttrToSet::Atime(attr.st_atime));
    }
    proof {
        lemma_filter_step(all, pred, 4);
    }
    if to_set & FUSE_SET_ATTR_MTIME != 0 {
        attrs_to_set.push(AttrToSet::Mtime(attr.st_mtime));
    }
    proof {
        lemma_filter_step(all, pred, 5);
    }
    if to_set & FUSE_SET_ATTR_ATIME_NOW != 0 {
        attrs_to_set.push(AttrToSet::Atime_now);
    }
    proof {
        lemma_filter_step(all, pred, 6);
    }
    if to_set & FUSE_SET_ATTR_MTIME_NOW != 0 {
        attrs_to_set.push(AttrToSet::Mtime_now);
    }
    proof {
        lemma_filter_step(all, pred, 7);
        assert(all.take(8) == all);
    }
    attrs_to_set
}

/// Filtering one element more appends that element where it passes, and
/// changes nothing where it does not.
proof fn lemma_filter_step<A>(s: Seq<A>, pred: spec_fn(A) -> bool, k: int)
    requires
        0 <= k < s.len(),
    ensures
        s.take(k + 1).filter(pred) == if pred(s[k]) {
            s.take(k).filter(pred).push(s[k])
        } else {
            s.take(k).filter(pred)
        },
{
    reveal(Seq::filter);
    assert(s.take(k + 1).drop_last() == s.take(k));
}

/// The operation for a `lookup` callback.
pub fn lookup_impl(parent: fuse_ino_t, name: CString) -> (op: Operation)
    ensures
        op == (Operation::Lookup { parent, name }),
{
    Operation::Lookup { parent, name }
}

/// The operation for a `forget` callback.
pub fn forget_impl(ino: fuse_ino_t, nlookup: u64) -> (op: Operation)
    ensures
        op == (Operation::Forget { ino, nlookup }),
{
    Operation::Forget { ino, nlookup }
}

/// The operation for a `getattr` callback.
pub fn getattr_impl(ino: fuse_ino_t) -> (op: Operation)
    ensures
        op == (Operation::Getattr { ino }),
{
    Operation::Getattr { ino }
}

/// The operation for a `setattr` callback: the attribute mask decoded
/// into the list of changes, and the handle of the open file where the call
/// comes with file information.
pub fn setattr_impl(ino: fuse_ino_t, attr: &Stat, to_set: i32, fi: Option<&fuse_file_info>) -> (op:
    Operation)
    ensures
        op matches Operation::Setattr { ino: i, attrs, fh } && i == ino && attrs@ == attrs_to_set(
            *attr,
            to_set,
        ) && fh == (match fi {
            Some(fi) => Some(fi.fh),
            None => None,
        }),
{
    let attrs = decode_attrs_to_set(attr, to_set);
    let fh = match fi {
        Some(fi) => Some(fi.fh),
        None => None,
    };
    Operation::Setattr { ino, attrs, fh }
}

/// The operation for a `readlink` callback.
pub fn readlink_impl(ino: fuse_ino_t) -> (op: Operation)
    ensures
        op == (Operation::Readlink { ino }),
{
    Operation::Readlink { ino }
}

/// The operation for a `mknod` callback.
pub fn mknod_impl(parent: fuse_ino_t, name: CString, mode: u32, rdev: u64) -> (op: Operation)
    ensures
        op == (Operation::Mknod { parent, name, mode, rdev }),
{
    Operation::Mknod { parent, name, mode, rdev }
}

/// The operation for a `mkdir` callback.
pub fn mkdir_impl(parent: fuse_ino_t, name: CString, mode: u32) -> (op: Operation)
    ensures
        op == (Operation::Mkdir { parent, name, mode }),
{
    Operation::Mkdir { parent, name, mode }
}

/// The operation for a `unlink` callback.
pub fn unlink_impl(parent: fuse_ino_t, name: CString) -> (op: Operation)
    ensures
        op == (Operation::Unlink { parent, name }),
{
    Operation::Unlink { parent, name }
}

/// The operation for a `rmdir` callback.
pub fn rmdir_impl(parent: fuse_ino_t, name: CString) -> (op: Operation)
    ensures
        op == (Operation::Rmdir { parent, name }),
{
    Operation::Rmdir { parent, name }
}

/// The operation for a `symlink` callback.
pub fn symlink_impl(link: CString, parent: fuse_ino_t, name: CString) -> (op: Operation)
    ensures
        op == (Operation::Symlink { link, parent, name }),
{
    Operation::Symlink { link, parent, name }
}

/// The operation for a `rename` callback.
pub fn rename_impl(
    parent: fuse_ino_t,
    name: CString,
    newparent: fuse_ino_t,
    newname: CString,
) -> (op: Operation)
    ensures
        op == (Operation::Rename { parent, name, newparent, newname }),
{
    Operation::Rename { parent, name, newparent, newname }
}

/// The operation for a `link` callback.
pub fn link_impl(ino: fuse_ino_t, newparent: fuse_ino_t, newname: CString) -> (op: Operation)
    ensures
        op == (Operation::Link { ino, newparent, newname }),
{
    Operation::Link { ino, newparent, newname }
}

/// The operation for a `open` callback. What the handler takes of the file
/// information is read from `fi`.
pub fn open_impl(ino: fuse_ino_t, fi: &fuse_file_info) -> (op: Operation)
    ensures
        op == (Operation::Open { ino, flags: fi.flags }),
{
    Operation::Open { ino, flags: fi.flags }
}

/// The operation for a `read` callback. What the handler takes of the file
/// information is read from `fi`.
pub fn read_impl(ino: fuse_ino_t, size: usize, off: i64, fi: &fuse_file_info) -> (op: Operation)
    ensures
        op == (Operation::Read { ino, size, off, fh: fi.fh }),
{
    Operation::Read { ino, size, off, fh: fi.fh }
}

/// The operation for a `write` callback. What the handler takes of the file
/// information is read from `fi`.
pub fn write_impl(ino: fuse_ino_t, buf: Vec<u8>, off: i64, fi: &fuse_file_info) -> (op: Operation)
    ensures
        op == (Operation::Write { ino, buf, off, fh: fi.fh, writepage: fi.writepage != 0 }),
{
    Operation::Write { ino, buf, off, fh: fi.fh, writepage: fi.writepage != 0 }
}

/// The operation for a `flush` callback. What the handler takes of the file
/// information is read from `fi`.
pub fn flush_impl(ino: fuse_ino_t, fi: &fuse_file_info) -> (op: Operation)
    ensures
        op == (Operation::Flush { ino, lock_owner: fi.lock_owner, fh: fi.fh }),
{
    Operation::Flush { ino, lock_owner: fi.lock_owner, fh: fi.fh }
}

/// The operation for a `release` callback. What the handler takes of the file
/// information is read from `fi`.
pub fn release_impl(ino: fuse_ino_t, fi: &fuse_file_info) -> (op: Operation)
    ensures
        op == (Operation::Release { ino, flags: fi.flags, fh: fi.fh }),
{
    Operation::Release { ino, flags: fi.flags, fh: fi.fh }
}

/// The operation for a `fsync` callback. What the handler takes of the file
/// information is read from `fi`.
pub fn fsync_impl(ino: fuse_ino_t, datasync: i32, fi: &fuse_file_info) -> (op: Operation)
    ensures
        op == (Operation::Fsync { ino, datasync: datasync != 0, fh: fi.fh }),
{
    Operation::Fsync { ino, datasync: datasync != 0, fh: fi.fh }
}

/// The operation for a `opendir` callback.
pub fn opendir_impl(ino: fuse_ino_t) -> (op: Operation)
    ensures
        op == (Operation::Opendir { ino }),
{
    Operation::Opendir { ino }
}

/// The operation for a `readdir` callback. What the handler takes of the file
/// information is read from `fi`.
pub fn readdir_impl(ino: fuse_ino_t, size: usize, off: i64, fi: &fuse_file_info) -> (op: Operation)
    ensures
        op == (Operation::Readdir { ino, size, off, fh: fi.fh }),
{
    Operation::Readdir { ino, size, off, fh: fi.fh }
}

/// The operation for a `releasedir` callback. What the handler takes of the file
/// information is read from `fi`.
pub fn releasedir_impl(ino: fuse_ino_t, fi: &fuse_file_info) -> (op: Operation)
    ensures
        op == (Operation::Releasedir { ino, fh: fi.fh }),
{
    Operation::Releasedir { ino, fh: fi.fh }
}

/// The operation for a `fsyncdir` callback. What the handler takes of the file
/// information is read from `fi`.
pub fn fsyncdir_impl(ino: fuse_ino_t, datasync: i32, fi: &fuse_file_info) -> (op: Operation)
    ensures
        op == (Operation::Fsyncdir { ino, datasync: datasync != 0, fh: fi.fh }),
{
    Operation::Fsyncdir { ino, datasync: datasync != 0, fh: fi.fh }
}

/// The operation for a `statfs` callback.
pub fn statfs_impl(ino: fuse_ino_t) -> (op: Operation)
    ensures
        op == (Operation::Statfs { ino }),
{
    Operation::Statfs { ino }
}

/// The operation for a `setxattr` callback.
pub fn setxattr_impl(ino: fuse_ino_t, name: CString, value: Vec<u8>, flags: i32) -> (op: Operation)
    ensures
        op == (Operation::Setxattr { ino, name, value, flags }),
{
    Operation::Setxattr { ino, name, value, flags }
}

/// The operation for a `getxattr` callback: with size zero the query for
/// the size of the value, otherwise the query for the value.
pub fn getxattr_impl(ino: fuse_ino_t, name: CString, size: usize) -> (op: Operation)
    ensures
        size == 0 ==> op == (Operation::GetxattrSize { ino, name }),
        size != 0 ==> op == (Operation::Getxattr { ino, name, size }),
{
    if size == 0 {
        Operation::GetxattrSize { ino, name }
    } else {
        Operation::Getxattr { ino, name, size }
    }
}

/// The operation for a `listxattr` callback: with size zero the query for
/// the size of the list, otherwise the query for the list.
pub fn listxattr_impl(ino: fuse_ino_t, size: usize) -> (op: Operation)
    ensures
        size == 0 ==> op == (Operation::ListxattrSize { ino }),
        size != 0 ==> op == (Operation::Listxattr { ino, size }),
{
    if size == 0 {
        Operation::ListxattrSize { ino }
    } else {
        Operation::Listxattr { ino, size }
    }
}

/// The operation for a `removexattr` callback.
pub fn removexattr_impl(ino: fuse_ino_t, name: CString) -> (op: Operation)
    ensures
        op == (Operation::Removexattr { ino, name }),
{
    Operation::Removexattr { ino, name }
}

/// The operation for a `access` callback.
pub fn access_impl(ino: fuse_ino_t, mask: i32) -> (op: Operation)
    ensures
        op == (Operation::Access { ino, mask }),
{
    Operation::Access { ino, mask }
}

/// The operation for a `create` callback. What the handler takes of the file
/// information is read from `fi`.
pub fn create_impl(
    parent: fuse_ino_t,
    name: CString,
    mode: u32,
    fi: &fuse_file_info,
) -> (op: Operation)
    ensures
        op == (Operation::Create { parent, name, mode, flags: fi.flags }),
{
    Operation::Create { parent, name, mode, flags: fi.flags }
}

} // verus!
