use rust_fuse::c_str::CString;
use rust_fuse::lowlevel::{
    openreply_to_fileinfo, reply_attr, reply_create, reply_entryparam, reply_failure_err,
    reply_none, reply_open, reply_read, reply_readlink, reply_statfs, reply_write, reply_xattr,
    reply_zero_err, send_fuse_reply, AttrReply, CreateReply, EntryReply, NativeReply, OpenReply,
    ReadReply, ReaddirReply, Reply,
};
use rust_fuse::native::{fuse_file_info, Statvfs, Timeout};
use rust_fuse::stat::{default_stat, Stat};

fn attr() -> Stat {
    Stat { st_ino: 7, st_size: 12, st_mode: 0o100600, ..default_stat() }
}

fn entry() -> EntryReply {
    EntryReply {
        ino: 7,
        generation: 3,
        attr: attr(),
        attr_timeout: Timeout { secs: 1, nanos: 500_000_000 },
        entry_timeout: Timeout { secs: 2, nanos: 0 },
    }
}

fn statvfs() -> Statvfs {
    Statvfs {
        f_bsize: 4096,
        f_frsize: 4096,
        f_blocks: 100,
        f_bfree: 50,
        f_bavail: 40,
        f_files: 10,
        f_ffree: 5,
        f_favail: 4,
        f_fsid: 1,
        f_flag: 0,
        f_namemax: 255,
    }
}

#[test]
fn open_reply_defaults_to_no_flags_and_handle_zero() {
    assert_eq!(OpenReply::default(), OpenReply { direct_io: false, keep_cache: false, fh: 0 });
}

#[test]
fn file_info_defaults_to_zero() {
    let fi = fuse_file_info::default();
    assert_eq!(
        fi,
        fuse_file_info {
            flags: 0,
            fh_old: 0,
            writepage: 0,
            direct_io: 0,
            keep_cache: 0,
            flush: 0,
            nonseekable: 0,
            flock_release: 0,
            padding: 0,
            fh: 0,
            lock_owner: 0,
        }
    );
}

#[test]
fn open_reply_becomes_file_info_with_flags_as_bits() {
    let zero = fuse_file_info::default();
    assert_eq!(
        openreply_to_fileinfo(OpenReply { direct_io: true, keep_cache: false, fh: 9 }),
        fuse_file_info { direct_io: 1, keep_cache: 0, fh: 9, ..zero }
    );
    assert_eq!(
        openreply_to_fileinfo(OpenReply { direct_io: false, keep_cache: true, fh: u64::MAX }),
        fuse_file_info { direct_io: 0, keep_cache: 1, fh: u64::MAX, ..zero }
    );
    assert_eq!(openreply_to_fileinfo(OpenReply::default()), zero);
}

#[test]
fn each_payload_becomes_the_reply_of_its_kind() {
    let zero = fuse_file_info::default();
    let open = OpenReply { direct_io: true, keep_cache: true, fh: 5 };
    let fi = fuse_file_info { direct_io: 1, keep_cache: 1, fh: 5, ..zero };
    assert_eq!(reply_entryparam(entry()), NativeReply::Entry(entry()));
    assert_eq!(
        reply_attr(AttrReply { attr: attr(), attr_timeout: Timeout { secs: 3, nanos: 1 } }),
        NativeReply::Attr(attr(), Timeout { secs: 3, nanos: 1 })
    );
    assert_eq!(reply_none(), NativeReply::NoReply);
    assert_eq!(
        reply_readlink("/target".to_string()),
        NativeReply::Readlink(CString::new(b"/target").unwrap())
    );
    assert_eq!(reply_zero_err(), NativeReply::Error(0));
    assert_eq!(reply_failure_err(), NativeReply::Error(5));
    assert_eq!(reply_open(open), NativeReply::Open(fi));
    assert_eq!(
        reply_create(CreateReply { open_reply: open, entry_param: entry() }),
        NativeReply::Create(entry(), fi)
    );
    assert_eq!(
        reply_read(ReadReply::DataBuffer(vec![1, 2, 3])),
        NativeReply::Buf(vec![1, 2, 3])
    );
    assert_eq!(reply_read(ReadReply::EOF), NativeReply::Buf(Vec::new()));
    assert_eq!(reply_write(17), NativeReply::Write(17));
    assert_eq!(reply_statfs(statvfs()), NativeReply::Statfs(statvfs()));
    assert_eq!(reply_xattr(64), NativeReply::Xattr(64));
}

#[test]
fn link_target_is_handed_over_as_its_bytes() {
    assert_eq!(
        reply_readlink("d\u{e9}j\u{e0}".to_string()),
        NativeReply::Readlink(CString::new("d\u{e9}j\u{e0}".as_bytes()).unwrap())
    );
    assert_eq!(reply_readlink(String::new()), NativeReply::Readlink(CString::new(b"").unwrap()));
}

#[test]
fn link_target_with_a_nul_is_an_io_error() {
    assert_eq!(reply_readlink("a\0b".to_string()), NativeReply::Error(5));
    assert_eq!(reply_readlink("\0".to_string()), NativeReply::Error(5));
    assert_eq!(
        send_fuse_reply(Ok(Reply::Readlink("target\0".to_string()))),
        NativeReply::Error(5)
    );
}

#[test]
fn send_fuse_reply_picks_the_reply_by_payload() {
    let zero = fuse_file_info::default();
    assert_eq!(send_fuse_reply(Ok(Reply::Entry(entry()))), NativeReply::Entry(entry()));
    assert_eq!(
        send_fuse_reply(Ok(Reply::Attr(AttrReply {
            attr: attr(),
            attr_timeout: Timeout { secs: 1, nanos: 0 }
        }))),
        NativeReply::Attr(attr(), Timeout { secs: 1, nanos: 0 })
    );
    assert_eq!(send_fuse_reply(Ok(Reply::Forgotten)), NativeReply::NoReply);
    assert_eq!(
        send_fuse_reply(Ok(Reply::Readlink("x".to_string()))),
        NativeReply::Readlink(CString::new(b"x").unwrap())
    );
    assert_eq!(send_fuse_reply(Ok(Reply::Done)), NativeReply::Error(0));
    assert_eq!(
        send_fuse_reply(Ok(Reply::Open(OpenReply { direct_io: false, keep_cache: true, fh: 1 }))),
        NativeReply::Open(fuse_file_info { keep_cache: 1, fh: 1, ..zero })
    );
    assert_eq!(
        send_fuse_reply(Ok(Reply::Create(CreateReply {
            open_reply: OpenReply::default(),
            entry_param: entry()
        }))),
        NativeReply::Create(entry(), zero)
    );
    assert_eq!(
        send_fuse_reply(Ok(Reply::Read(ReadReply::DataBuffer(vec![9])))),
        NativeReply::Buf(vec![9])
    );
    assert_eq!(send_fuse_reply(Ok(Reply::Read(ReadReply::EOF))), NativeReply::Buf(Vec::new()));
    assert_eq!(
        send_fuse_reply(Ok(Reply::Readdir(4096, ReaddirReply::DirEntries(Vec::new())))),
        NativeReply::Buf(Vec::new())
    );
    assert_eq!(send_fuse_reply(Ok(Reply::Write(3))), NativeReply::Write(3));
    assert_eq!(send_fuse_reply(Ok(Reply::Statfs(statvfs()))), NativeReply::Statfs(statvfs()));
    assert_eq!(send_fuse_reply(Ok(Reply::Xattr(8))), NativeReply::Xattr(8));
    assert_eq!(send_fuse_reply(Err(28)), NativeReply::Error(28));
}
