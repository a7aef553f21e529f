use rust_fuse::c_str::{cstr_as_bytes_no_term, CString};
use rust_fuse::errno::ErrnoResult;
use rust_fuse::lowlevel::operation::{
    access_impl, create_impl, flush_impl, forget_impl, fsync_impl, fsyncdir_impl, getattr_impl,
    getxattr_impl, link_impl, listxattr_impl, lookup_impl, mkdir_impl, mknod_impl, open_impl,
    opendir_impl, read_impl, readdir_impl, readlink_impl, release_impl, releasedir_impl,
    removexattr_impl, rename_impl, rmdir_impl, setxattr_impl, statfs_impl, symlink_impl,
    unlink_impl, write_impl,
};
use rust_fuse::lowlevel::ops::SLOTS;
use rust_fuse::lowlevel::{
    declared_by, handlers_by, make_checked_table, make_fuse_ll_oper, Capabilities,
    CapabilityMismatch, FuseLowLevelOps, OpenReply, Operation, OperationTable, Verb,
};
use rust_fuse::native::fuse_file_info;

const ALL_VERBS: [Verb; 40] = [
    Verb::Init,
    Verb::Destroy,
    Verb::Lookup,
    Verb::Forget,
    Verb::Getattr,
    Verb::Setattr,
    Verb::Readlink,
    Verb::Mknod,
    Verb::Mkdir,
    Verb::Unlink,
    Verb::Rmdir,
    Verb::Symlink,
    Verb::Rename,
    Verb::Link,
    Verb::Open,
    Verb::Read,
    Verb::Write,
    Verb::Flush,
    Verb::Release,
    Verb::Fsync,
    Verb::Opendir,
    Verb::Readdir,
    Verb::Releasedir,
    Verb::Fsyncdir,
    Verb::Statfs,
    Verb::Setxattr,
    Verb::Getxattr,
    Verb::Listxattr,
    Verb::Removexattr,
    Verb::Access,
    Verb::Create,
    Verb::Getlk,
    Verb::Setlk,
    Verb::Bmap,
    Verb::Ioctl,
    Verb::Poll,
    Verb::WriteBuf,
    Verb::RetrieveReply,
    Verb::ForgetMulti,
    Verb::Flock,
];

fn nothing() -> Capabilities {
    Capabilities {
        init: false,
        destroy: false,
        lookup: false,
        forget: false,
        getattr: false,
        setattr: false,
        readlink: false,
        mknod: false,
        mkdir: false,
        unlink: false,
        rmdir: false,
        symlink: false,
        rename: false,
        link: false,
        open: false,
        read: false,
        write: false,
        flush: false,
        release: false,
        fsync: false,
        opendir: false,
        readdir: false,
        releasedir: false,
        fsyncdir: false,
        statfs: false,
        setxattr: false,
        getxattr: false,
        listxattr: false,
        removexattr: false,
        access: false,
        create: false,
        getlk: false,
        setlk: false,
        bmap: false,
        ioctl: false,
        poll: false,
        write_buf: false,
        retrieve_reply: false,
        forget_multi: false,
        flock: false,
    }
}

fn all() -> Capabilities {
    Capabilities {
        init: true,
        destroy: true,
        lookup: true,
        forget: true,
        getattr: true,
        setattr: true,
        readlink: true,
        mknod: true,
        mkdir: true,
        unlink: true,
        rmdir: true,
        symlink: true,
        rename: true,
        link: true,
        open: true,
        read: true,
        write: true,
        flush: true,
        release: true,
        fsync: true,
        opendir: true,
        readdir: true,
        releasedir: true,
        fsyncdir: true,
        statfs: true,
        setxattr: true,
        getxattr: true,
        listxattr: true,
        removexattr: true,
        access: true,
        create: true,
        getlk: true,
        setlk: true,
        bmap: true,
        ioctl: true,
        poll: true,
        write_buf: true,
        retrieve_reply: true,
        forget_multi: true,
        flock: true,
    }
}

fn name(s: &str) -> CString {
    CString::new(s.as_bytes()).unwrap()
}

#[test]
fn thirty_one_verbs_have_a_handler() {
    let handled: Vec<Verb> = ALL_VERBS.iter().copied().filter(|v| v.handled()).collect();
    assert_eq!(handled, ALL_VERBS[..31].to_vec());
}

#[test]
fn table_routes_the_notifications_and_what_is_declared() {
    let declared =
        Capabilities { init: true, getattr: true, write: true, create: true, ..nothing() };
    let table = OperationTable::new(declared, all()).unwrap();
    for verb in ALL_VERBS {
        let is_declared = matches!(verb, Verb::Init | Verb::Getattr | Verb::Write | Verb::Create);
        assert_eq!(declared.is_declared(verb), is_declared);
        assert_eq!(table.has(verb), is_declared || verb == Verb::Destroy);
    }
}

#[test]
fn table_of_nothing_routes_the_notifications_only() {
    let table = OperationTable::new(nothing(), nothing()).unwrap();
    for verb in ALL_VERBS {
        assert_eq!(table.has(verb), matches!(verb, Verb::Init | Verb::Destroy));
    }
}

#[test]
fn table_for_answers_routes_each_answered_verb_that_has_a_handler() {
    let answers = Capabilities { opendir: true, read: true, ioctl: true, flock: true, ..nothing() };
    let table = OperationTable::for_answers(answers);
    for verb in ALL_VERBS {
        let expected =
            matches!(verb, Verb::Init | Verb::Destroy | Verb::Opendir | Verb::Read);
        assert_eq!(table.has(verb), expected);
    }
}

#[test]
fn flags_answer_what_the_filesystem_implements() {
    assert!(Some3.opendir_is_implemented());
    assert!(Some3.statfs_is_implemented());
    assert!(Some3.create_is_implemented());
    assert!(!Some3.open_is_implemented());
    assert!(!Some3.lookup_is_implemented());
    assert!(!Nothing.getattr_is_implemented());
    assert!(Everything.write_is_implemented());
}

#[test]
fn table_of_a_filesystem_that_claims_everything_routes_every_handled_verb() {
    let table = make_fuse_ll_oper(&Everything);
    for (i, verb) in ALL_VERBS.into_iter().enumerate() {
        assert_eq!(table.has(verb), i < 31);
    }
}

#[test]
fn declaring_a_verb_without_handler_in_the_bridge_fails_construction() {
    assert_eq!(
        OperationTable::new(Capabilities { ioctl: true, ..nothing() }, all()),
        Err(CapabilityMismatch { verb: Verb::Ioctl })
    );
    assert_eq!(
        OperationTable::new(Capabilities { getattr: true, flock: true, ..nothing() }, all()),
        Err(CapabilityMismatch { verb: Verb::Flock })
    );
    for (declared, verb) in [
        (Capabilities { getlk: true, ..nothing() }, Verb::Getlk),
        (Capabilities { setlk: true, ..nothing() }, Verb::Setlk),
        (Capabilities { bmap: true, ..nothing() }, Verb::Bmap),
        (Capabilities { poll: true, ..nothing() }, Verb::Poll),
        (Capabilities { write_buf: true, ..nothing() }, Verb::WriteBuf),
        (Capabilities { retrieve_reply: true, ..nothing() }, Verb::RetrieveReply),
        (Capabilities { forget_multi: true, ..nothing() }, Verb::ForgetMulti),
    ] {
        assert_eq!(OperationTable::new(declared, all()), Err(CapabilityMismatch { verb }));
    }
}

#[test]
fn declaring_a_verb_without_handler_in_the_filesystem_fails_construction() {
    let declared = Capabilities { getattr: true, read: true, ..nothing() };
    assert_eq!(
        OperationTable::new(declared, nothing()),
        Err(CapabilityMismatch { verb: Verb::Getattr })
    );
    assert_eq!(
        OperationTable::new(declared, Capabilities { getattr: true, ..nothing() }),
        Err(CapabilityMismatch { verb: Verb::Read })
    );
    assert_eq!(
        OperationTable::new(declared, Capabilities { read: true, ..nothing() }),
        Err(CapabilityMismatch { verb: Verb::Getattr })
    );
    assert!(OperationTable::new(declared, declared).is_ok());
    assert!(OperationTable::new(declared, all()).is_ok());
    // A notification that is declared needs its handler like any other verb.
    assert_eq!(
        OperationTable::new(Capabilities { init: true, ..nothing() }, nothing()),
        Err(CapabilityMismatch { verb: Verb::Init })
    );
    // A handler for a verb that is not declared does no harm.
    assert!(OperationTable::new(nothing(), all()).is_ok());
}

#[test]
fn first_mismatch_in_table_order_is_reported() {
    assert_eq!(
        OperationTable::new(
            Capabilities { flock: true, bmap: true, poll: true, ..nothing() },
            all()
        ),
        Err(CapabilityMismatch { verb: Verb::Bmap })
    );
    assert_eq!(
        OperationTable::new(
            Capabilities { flock: true, create: true, unlink: true, ..nothing() },
            nothing()
        ),
        Err(CapabilityMismatch { verb: Verb::Unlink })
    );
}

#[test]
fn slots_are_in_table_order() {
    for (i, verb) in ALL_VERBS.into_iter().enumerate() {
        assert_eq!(OperationTable::slot(i), verb);
    }
    assert_eq!(SLOTS, 40);
}

#[test]
fn what_a_filesystem_declares_and_handles_is_asked_verb_by_verb() {
    assert_eq!(
        declared_by(&Some3),
        Capabilities { opendir: true, statfs: true, create: true, ..nothing() }
    );
    assert_eq!(handlers_by(&Some3), Capabilities { opendir: true, ..nothing() });
    assert_eq!(declared_by(&Nothing), nothing());
    assert_eq!(handlers_by(&Nothing), nothing());
    assert_eq!(declared_by(&Everything), all());
    assert_eq!(handlers_by(&Everything), all());
}

#[test]
fn checked_table_fails_for_an_implemented_verb_without_handler() {
    // Opendir has its handler; statfs is the first verb without one.
    assert_eq!(make_checked_table(&Some3), Err(CapabilityMismatch { verb: Verb::Statfs }));
    // Every verb the bridge handles is fine; getlk is the first it does not.
    assert_eq!(make_checked_table(&Everything), Err(CapabilityMismatch { verb: Verb::Getlk }));
    let table = make_checked_table(&Nothing).unwrap();
    assert_eq!(table, make_fuse_ll_oper(&Nothing));
    let table = make_checked_table(&OnlyOpendir).unwrap();
    assert_eq!(table, make_fuse_ll_oper(&OnlyOpendir));
    for verb in ALL_VERBS {
        assert_eq!(table.has(verb), matches!(verb, Verb::Init | Verb::Destroy | Verb::Opendir));
    }
}

struct Nothing;

impl FuseLowLevelOps for Nothing {
    fn implemented(&self, _verb: Verb) -> bool {
        false
    }

    fn handler_present(&self, _verb: Verb) -> bool {
        false
    }
}

/// A filesystem that implements opendir, and has the handler for it.
struct OnlyOpendir;

impl FuseLowLevelOps for OnlyOpendir {
    fn opendir(&self, ino: u64) -> ErrnoResult<OpenReply> {
        Ok(OpenReply { direct_io: false, keep_cache: false, fh: ino })
    }

    fn implemented(&self, verb: Verb) -> bool {
        verb == Verb::Opendir
    }

    fn handler_present(&self, verb: Verb) -> bool {
        verb == Verb::Opendir
    }
}

struct Some3;

impl FuseLowLevelOps for Some3 {
    fn opendir(&self, ino: u64) -> ErrnoResult<OpenReply> {
        Ok(OpenReply { direct_io: false, keep_cache: false, fh: ino })
    }

    fn implemented(&self, verb: Verb) -> bool {
        matches!(verb, Verb::Opendir | Verb::Statfs | Verb::Create)
    }

    fn handler_present(&self, verb: Verb) -> bool {
        verb == Verb::Opendir
    }
}

/// A filesystem that claims every verb, with or without a handler.
struct Everything;

impl FuseLowLevelOps for Everything {
    fn implemented(&self, _verb: Verb) -> bool {
        true
    }

    fn handler_present(&self, _verb: Verb) -> bool {
        true
    }
}

#[test]
fn table_of_a_filesystem_without_handlers_routes_the_notifications_only() {
    let table = make_fuse_ll_oper(&Nothing);
    for verb in ALL_VERBS {
        assert_eq!(table.has(verb), matches!(verb, Verb::Init | Verb::Destroy));
    }
}

#[test]
fn table_of_a_filesystem_routes_what_it_declares() {
    let table = make_fuse_ll_oper(&Some3);
    for verb in ALL_VERBS {
        let expected = matches!(
            verb,
            Verb::Init | Verb::Destroy | Verb::Opendir | Verb::Statfs | Verb::Create
        );
        assert_eq!(table.has(verb), expected);
    }
}

#[test]
fn each_operation_has_its_verb() {
    let n = name("n");
    let cases = vec![
        (Operation::Lookup { parent: 1, name: n.clone() }, Verb::Lookup),
        (Operation::Forget { ino: 1, nlookup: 1 }, Verb::Forget),
        (Operation::Getattr { ino: 1 }, Verb::Getattr),
        (Operation::Setattr { ino: 1, attrs: Vec::new(), fh: None }, Verb::Setattr),
        (Operation::Readlink { ino: 1 }, Verb::Readlink),
        (Operation::Open { ino: 1, flags: 0 }, Verb::Open),
        (Operation::Readdir { ino: 1, size: 1, off: 0, fh: 0 }, Verb::Readdir),
        (Operation::Getxattr { ino: 1, name: n.clone(), size: 1 }, Verb::Getxattr),
        (Operation::GetxattrSize { ino: 1, name: n.clone() }, Verb::Getxattr),
        (Operation::Listxattr { ino: 1, size: 1 }, Verb::Listxattr),
        (Operation::ListxattrSize { ino: 1 }, Verb::Listxattr),
        (Operation::Create { parent: 1, name: n, mode: 0, flags: 0 }, Verb::Create),
    ];
    for (op, verb) in cases {
        assert_eq!(op.verb(), verb);
    }
}

#[test]
fn callbacks_with_plain_arguments_become_operations() {
    let n = name("n");
    let m = name("m");
    assert_eq!(lookup_impl(1, n.clone()), Operation::Lookup { parent: 1, name: n.clone() });
    assert_eq!(forget_impl(2, 3), Operation::Forget { ino: 2, nlookup: 3 });
    assert_eq!(getattr_impl(4), Operation::Getattr { ino: 4 });
    assert_eq!(readlink_impl(5), Operation::Readlink { ino: 5 });
    assert_eq!(
        mknod_impl(1, n.clone(), 0o644, 8),
        Operation::Mknod { parent: 1, name: n.clone(), mode: 0o644, rdev: 8 }
    );
    assert_eq!(
        mkdir_impl(1, n.clone(), 0o755),
        Operation::Mkdir { parent: 1, name: n.clone(), mode: 0o755 }
    );
    assert_eq!(unlink_impl(1, n.clone()), Operation::Unlink { parent: 1, name: n.clone() });
    assert_eq!(rmdir_impl(1, n.clone()), Operation::Rmdir { parent: 1, name: n.clone() });
    assert_eq!(
        symlink_impl(m.clone(), 1, n.clone()),
        Operation::Symlink { link: m.clone(), parent: 1, name: n.clone() }
    );
    assert_eq!(
        rename_impl(1, n.clone(), 2, m.clone()),
        Operation::Rename { parent: 1, name: n.clone(), newparent: 2, newname: m.clone() }
    );
    assert_eq!(
        link_impl(3, 2, m.clone()),
        Operation::Link { ino: 3, newparent: 2, newname: m.clone() }
    );
    assert_eq!(opendir_impl(6), Operation::Opendir { ino: 6 });
    assert_eq!(statfs_impl(7), Operation::Statfs { ino: 7 });
    assert_eq!(
        setxattr_impl(1, n.clone(), vec![1, 2], 1),
        Operation::Setxattr { ino: 1, name: n.clone(), value: vec![1, 2], flags: 1 }
    );
    assert_eq!(
        removexattr_impl(1, n.clone()),
        Operation::Removexattr { ino: 1, name: n.clone() }
    );
    assert_eq!(access_impl(1, 4), Operation::Access { ino: 1, mask: 4 });
}

#[test]
fn callbacks_with_file_information_read_what_the_handler_takes() {
    let fi = fuse_file_info {
        flags: 0o2,
        writepage: 0,
        fh: 11,
        lock_owner: 22,
        ..Default::default()
    };
    assert_eq!(open_impl(1, &fi), Operation::Open { ino: 1, flags: 0o2 });
    assert_eq!(read_impl(1, 10, 20, &fi), Operation::Read { ino: 1, size: 10, off: 20, fh: 11 });
    assert_eq!(
        write_impl(1, vec![1], 5, &fi),
        Operation::Write { ino: 1, buf: vec![1], off: 5, fh: 11, writepage: false }
    );
    assert_eq!(
        write_impl(1, vec![1], 5, &fuse_file_info { writepage: 1, ..fi }),
        Operation::Write { ino: 1, buf: vec![1], off: 5, fh: 11, writepage: true }
    );
    assert_eq!(flush_impl(1, &fi), Operation::Flush { ino: 1, lock_owner: 22, fh: 11 });
    assert_eq!(release_impl(1, &fi), Operation::Release { ino: 1, flags: 0o2, fh: 11 });
    assert_eq!(fsync_impl(1, 0, &fi), Operation::Fsync { ino: 1, datasync: false, fh: 11 });
    assert_eq!(fsync_impl(1, 1, &fi), Operation::Fsync { ino: 1, datasync: true, fh: 11 });
    assert_eq!(fsync_impl(1, -1, &fi), Operation::Fsync { ino: 1, datasync: true, fh: 11 });
    assert_eq!(
        readdir_impl(1, 4096, 2, &fi),
        Operation::Readdir { ino: 1, size: 4096, off: 2, fh: 11 }
    );
    assert_eq!(releasedir_impl(1, &fi), Operation::Releasedir { ino: 1, fh: 11 });
    assert_eq!(
        fsyncdir_impl(1, 2, &fi),
        Operation::Fsyncdir { ino: 1, datasync: true, fh: 11 }
    );
    assert_eq!(
        create_impl(1, name("n"), 0o600, &fi),
        Operation::Create { parent: 1, name: name("n"), mode: 0o600, flags: 0o2 }
    );
}

#[test]
fn xattr_callbacks_with_size_zero_ask_for_the_size() {
    let n = name("user.x");
    assert_eq!(getxattr_impl(1, n.clone(), 0), Operation::GetxattrSize { ino: 1, name: n.clone() });
    assert_eq!(
        getxattr_impl(1, n.clone(), 1),
        Operation::Getxattr { ino: 1, name: n.clone(), size: 1 }
    );
    assert_eq!(listxattr_impl(1, 0), Operation::ListxattrSize { ino: 1 });
    assert_eq!(listxattr_impl(1, 64), Operation::Listxattr { ino: 1, size: 64 });
}

#[test]
fn native_string_has_one_terminator_and_no_nul_inside() {
    let s = CString::new(b"abc").unwrap();
    assert_eq!(s.as_bytes(), b"abc\0");
    assert_eq!(s.len(), 3);
    assert_eq!(cstr_as_bytes_no_term(&s), b"abc");
    let empty = CString::new(b"").unwrap();
    assert_eq!(empty.as_bytes(), b"\0");
    assert_eq!(empty.len(), 0);
    assert_eq!(cstr_as_bytes_no_term(&empty), b"");
    assert_eq!(CString::new(b"a\0b"), None);
    assert_eq!(CString::new(b"\0"), None);
    assert_eq!(CString::new(b"ab\0"), None);
    assert_eq!(s.clone(), s);
}
