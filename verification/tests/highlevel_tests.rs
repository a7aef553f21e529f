use rust_fuse::c_str::CString;
use rust_fuse::highlevel::{
    c_getattr, c_open, c_read, c_readdir, dir_entry, errno, filehandle, fuse_main,
    getattr_status, negate_errno, open_status, read_status, readdir_status, ErrorOrResult,
    FillerEntry, FuseOperations,
};
use rust_fuse::native::fuse_file_info;
use rust_fuse::stat::{default_stat, Stat};

struct OneFile;

fn file_stat() -> Stat {
    Stat { st_mode: 0o100444, st_nlink: 1, st_size: 5, ..default_stat() }
}

fn listing() -> Vec<dir_entry> {
    vec![
        dir_entry { name: ".".to_string(), stat: None, off: 0 },
        dir_entry { name: "file".to_string(), stat: Some(file_stat()), off: 0 },
    ]
}

impl FuseOperations for OneFile {
    fn getattr(&self, path: &str) -> ErrorOrResult<errno, Stat> {
        if path == "/file" {
            ErrorOrResult::Result(file_stat())
        } else {
            ErrorOrResult::Error(2)
        }
    }

    fn readdir(
        &self,
        path: &str,
        _offset: i64,
        _info: &fuse_file_info,
    ) -> ErrorOrResult<errno, Vec<dir_entry>> {
        if path == "/" {
            ErrorOrResult::Result(listing())
        } else {
            ErrorOrResult::Error(20)
        }
    }

    fn open(&self, path: &str, _info: &fuse_file_info) -> ErrorOrResult<errno, filehandle> {
        if path == "/file" {
            ErrorOrResult::Result(41)
        } else {
            ErrorOrResult::Error(13)
        }
    }

    fn read(
        &self,
        path: &str,
        _size: usize,
        offset: i64,
        _info: &fuse_file_info,
    ) -> ErrorOrResult<errno, Vec<u8>> {
        if path == "/file" {
            ErrorOrResult::Result(b"hello"[offset as usize..].to_vec())
        } else {
            ErrorOrResult::Error(9)
        }
    }
}

#[test]
fn error_becomes_the_negated_status() {
    assert_eq!(negate_errno(2), -2);
    assert_eq!(negate_errno(38), -38);
    assert_eq!(negate_errno(0), 0);
    assert_eq!(negate_errno(i32::MAX), -i32::MAX);
    assert_eq!(negate_errno(i32::MIN), i32::MIN);
}

#[test]
fn getattr_fills_the_buffer_or_leaves_it_zero() {
    let mut stbuf = Stat { st_ino: 99, ..default_stat() };
    assert_eq!(c_getattr(&OneFile, "/file", &mut stbuf), 0);
    assert_eq!(stbuf, file_stat());
    let mut stbuf = Stat { st_ino: 99, ..default_stat() };
    assert_eq!(c_getattr(&OneFile, "/none", &mut stbuf), -2);
    assert_eq!(stbuf, default_stat());
    let mut stbuf = file_stat();
    assert_eq!(getattr_status(ErrorOrResult::Error(5), &mut stbuf), -5);
    assert_eq!(stbuf, default_stat());
}

fn fillers() -> Vec<FillerEntry> {
    vec![
        FillerEntry { name: CString::new(b".").unwrap(), stat: None, off: 0 },
        FillerEntry { name: CString::new(b"file").unwrap(), stat: Some(file_stat()), off: 0 },
    ]
}

#[test]
fn readdir_hands_the_entries_on_in_order() {
    let fi = fuse_file_info::default();
    assert_eq!(c_readdir(&OneFile, "/", 0, &fi), (0, fillers()));
    assert_eq!(c_readdir(&OneFile, "/file", 0, &fi), (-20, Vec::new()));
    assert_eq!(readdir_status(ErrorOrResult::Result(Vec::new())), (0, Vec::new()));
    assert_eq!(readdir_status(ErrorOrResult::Result(listing())), (0, fillers()));
}

#[test]
fn readdir_with_a_nul_in_a_name_is_an_io_error() {
    let mut entries = listing();
    entries.push(dir_entry { name: "bad\0name".to_string(), stat: None, off: 7 });
    assert_eq!(readdir_status(ErrorOrResult::Result(entries)), (-5, Vec::new()));
    let first = vec![dir_entry { name: "\0".to_string(), stat: None, off: 0 }];
    assert_eq!(readdir_status(ErrorOrResult::Result(first)), (-5, Vec::new()));
}

#[test]
fn open_stores_the_handle() {
    let mut fi = fuse_file_info { flags: 2, fh: 7, ..Default::default() };
    assert_eq!(c_open(&OneFile, "/file", &mut fi), 0);
    assert_eq!(fi, fuse_file_info { flags: 2, fh: 41, ..Default::default() });
    assert_eq!(c_open(&OneFile, "/none", &mut fi), -13);
    assert_eq!(fi, fuse_file_info { flags: 2, fh: 41, ..Default::default() });
    assert_eq!(open_status(ErrorOrResult::Error(1), &mut fi), -1);
    assert_eq!(fi.fh, 41);
}

#[test]
fn read_reports_the_number_of_bytes() {
    let fi = fuse_file_info::default();
    assert_eq!(c_read(&OneFile, "/file", 100, 0, &fi), (5, b"hello".to_vec()));
    assert_eq!(c_read(&OneFile, "/file", 100, 3, &fi), (2, b"lo".to_vec()));
    assert_eq!(c_read(&OneFile, "/file", 100, 5, &fi), (0, Vec::new()));
    assert_eq!(c_read(&OneFile, "/none", 100, 0, &fi), (-9, Vec::new()));
}

#[test]
fn read_never_hands_back_more_than_was_asked_for() {
    let fi = fuse_file_info::default();
    assert_eq!(c_read(&OneFile, "/file", 3, 0, &fi), (3, b"hel".to_vec()));
    assert_eq!(c_read(&OneFile, "/file", 0, 0, &fi), (0, Vec::new()));
    assert_eq!(
        read_status(ErrorOrResult::Result(vec![1, 2, 3, 4]), 2),
        (2, vec![1, 2])
    );
}

#[test]
fn native_entry_point_gets_the_four_handlers() {
    let args = vec![b"hello_fs".to_vec(), b"/mnt".to_vec(), b"-f".to_vec()];
    let call = fuse_main(&args);
    assert_eq!(call.argc, 3);
    let t = call.operations;
    assert!(t.getattr && t.readdir && t.open && t.read);
    let others = [
        t.readlink, t.getdir, t.mknod, t.mkdir, t.unlink, t.rmdir, t.symlink, t.rename, t.link,
        t.chmod, t.chown, t.truncate, t.utime, t.write, t.statfs, t.flush, t.release, t.fsync,
        t.setxattr, t.getxattr, t.listxattr, t.removexattr, t.opendir, t.releasedir, t.fsyncdir,
        t.init, t.destroy, t.access, t.create, t.ftruncate, t.fgetattr, t.lock, t.utimens,
        t.bmap, t.ioctl, t.poll, t.write_buf, t.read_buf, t.flock,
    ];
    assert!(others.iter().all(|set| !set));
    assert_eq!(
        (t.flag_nullpath_ok, t.flag_nopath, t.flag_utime_omit_ok, t.flag_reserved),
        (0, 0, 0, 29)
    );
    assert_eq!(fuse_main(&Vec::new()).argc, 0);
}
