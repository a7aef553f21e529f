use rust_fuse::c_str::CString;
use rust_fuse::hello::HelloFs;
use rust_fuse::lowlevel::dirbuf::{fuse_dirent_size, fuse_dirent_type, reserved_capacity};
use rust_fuse::lowlevel::{
    pack_dir_entries, reply_readdir, DirEntry, FuseLowLevelOps, NativeReply, ReaddirReply,
};

fn entry(ino: u64, name: &str, mode: u32, next_offset: i64) -> DirEntry {
    DirEntry { ino, name: CString::new(name.as_bytes()).unwrap(), mode, next_offset }
}

fn listing() -> Vec<DirEntry> {
    vec![
        entry(1, ".", 0o040755, 1),
        entry(1, "..", 0o040755, 2),
        entry(2, "hello_from_rust", 0o100444, 3),
    ]
}

/// Reads the records of a packed buffer back: inode, offset, type and name.
fn unpack(buf: &[u8]) -> Vec<(u64, u64, u32, Vec<u8>)> {
    let mut out = Vec::new();
    let mut at = 0;
    while at < buf.len() {
        let ino = u64::from_le_bytes(buf[at..at + 8].try_into().unwrap());
        let off = u64::from_le_bytes(buf[at + 8..at + 16].try_into().unwrap());
        let namelen = u32::from_le_bytes(buf[at + 16..at + 20].try_into().unwrap()) as usize;
        let typ = u32::from_le_bytes(buf[at + 20..at + 24].try_into().unwrap());
        let name = buf[at + 24..at + 24 + namelen].to_vec();
        let size = (24 + namelen + 7) / 8 * 8;
        assert!(buf[at + 24 + namelen..at + size].iter().all(|b| *b == 0));
        out.push((ino, off, typ, name));
        at += size;
    }
    assert_eq!(at, buf.len());
    out
}

fn names(buf: &[u8]) -> Vec<Vec<u8>> {
    unpack(buf).into_iter().map(|r| r.3).collect()
}

#[test]
fn record_size_is_header_and_name_rounded_up_to_eight() {
    assert_eq!(fuse_dirent_size(0), Some(24));
    assert_eq!(fuse_dirent_size(1), Some(32));
    assert_eq!(fuse_dirent_size(8), Some(32));
    assert_eq!(fuse_dirent_size(9), Some(40));
    assert_eq!(fuse_dirent_size(15), Some(40));
    assert_eq!(fuse_dirent_size(16), Some(40));
    assert_eq!(fuse_dirent_size(17), Some(48));
}

#[test]
fn record_size_that_does_not_fit_is_none() {
    assert_eq!(fuse_dirent_size(usize::MAX), None);
    assert_eq!(fuse_dirent_size(usize::MAX - 30), None);
    assert_eq!(fuse_dirent_size(usize::MAX - 31), Some(usize::MAX - 7));
}

#[test]
fn record_type_is_the_file_type_bits_shifted_down() {
    assert_eq!(fuse_dirent_type(0o040755), 4);
    assert_eq!(fuse_dirent_type(0o100444), 8);
    assert_eq!(fuse_dirent_type(0o120777), 10);
    assert_eq!(fuse_dirent_type(0o777), 0);
}

#[test]
fn reserved_capacity_is_names_with_terminator_and_padding() {
    // (1 + 1 + 32) + (2 + 1 + 32) + (15 + 1 + 32)
    assert_eq!(reserved_capacity(&listing()), 34 + 35 + 48);
    assert_eq!(reserved_capacity(&Vec::new()), 0);
}

#[test]
fn one_record_has_the_exact_bytes() {
    let (buf, count) = pack_dir_entries(4096, &vec![entry(0x0102, ".", 0o040755, 7)]);
    assert_eq!(count, 1);
    let expected: Vec<u8> = vec![
        0x02, 0x01, 0, 0, 0, 0, 0, 0, // inode
        7, 0, 0, 0, 0, 0, 0, 0, // offset of the next entry
        1, 0, 0, 0, // length of the name
        4, 0, 0, 0, // type: directory
        b'.', 0, 0, 0, 0, 0, 0, 0, // name and padding
    ];
    assert_eq!(buf, expected);
}

#[test]
fn negative_offset_is_stored_as_its_bit_pattern() {
    let (buf, _) = pack_dir_entries(4096, &vec![entry(1, "a", 0, -1)]);
    assert_eq!(&buf[8..16], &[0xff; 8]);
}

#[test]
fn large_buffer_holds_the_whole_listing_in_order() {
    let (buf, count) = pack_dir_entries(4096, &listing());
    assert_eq!(count, 3);
    assert_eq!(buf.len(), 32 + 32 + 40);
    assert_eq!(
        unpack(&buf),
        vec![
            (1, 1, 4, b".".to_vec()),
            (1, 2, 4, b"..".to_vec()),
            (2, 3, 8, b"hello_from_rust".to_vec()),
        ]
    );
}

#[test]
fn buffer_of_exactly_the_needed_size_holds_everything() {
    let (buf, count) = pack_dir_entries(104, &listing());
    assert_eq!(count, 3);
    assert_eq!(buf.len(), 104);
}

#[test]
fn listing_is_cut_at_the_first_entry_that_does_not_fit() {
    let (buf, count) = pack_dir_entries(103, &listing());
    assert_eq!(count, 2);
    assert_eq!(names(&buf), vec![b".".to_vec(), b"..".to_vec()]);
    let (buf, count) = pack_dir_entries(63, &listing());
    assert_eq!(count, 1);
    assert_eq!(names(&buf), vec![b".".to_vec()]);
}

#[test]
fn packing_stops_at_the_first_misfit_even_if_a_later_entry_would_fit() {
    let entries = vec![entry(1, "a_rather_long_name_of_an_entry", 0, 1), entry(2, "b", 0, 2)];
    let (buf, count) = pack_dir_entries(32, &entries);
    assert_eq!(count, 0);
    assert!(buf.is_empty());
}

#[test]
fn first_entry_too_large_gives_an_empty_buffer() {
    let (buf, count) = pack_dir_entries(31, &listing());
    assert_eq!(count, 0);
    assert!(buf.is_empty());
    let (buf, count) = pack_dir_entries(0, &listing());
    assert_eq!(count, 0);
    assert!(buf.is_empty());
}

#[test]
fn empty_listing_gives_an_empty_buffer() {
    let (buf, count) = pack_dir_entries(4096, &Vec::new());
    assert_eq!(count, 0);
    assert!(buf.is_empty());
}

#[test]
fn reply_readdir_is_the_packed_buffer() {
    let reply = reply_readdir((103, ReaddirReply::DirEntries(listing())));
    let (buf, _) = pack_dir_entries(103, &listing());
    assert_eq!(reply, NativeReply::Buf(buf));
}

fn listed_from(off: i64) -> Vec<Vec<u8>> {
    let reply = HelloFs.readdir(1, 4096, off, 0).unwrap();
    match reply_readdir((4096, reply)) {
        NativeReply::Buf(buf) => names(&buf),
        other => panic!("not a buffer reply: {:?}", other),
    }
}

#[test]
fn directory_listing_resumes_at_the_offset() {
    assert_eq!(
        listed_from(0),
        vec![b".".to_vec(), b"..".to_vec(), b"hello_from_rust".to_vec()]
    );
    assert_eq!(listed_from(1), vec![b"..".to_vec(), b"hello_from_rust".to_vec()]);
    assert_eq!(listed_from(2), vec![b"hello_from_rust".to_vec()]);
    assert_eq!(listed_from(3), Vec::<Vec<u8>>::new());
}

#[test]
fn directory_listing_past_the_end_or_before_the_start_is_empty() {
    assert_eq!(listed_from(4), Vec::<Vec<u8>>::new());
    assert_eq!(listed_from(i64::MAX), Vec::<Vec<u8>>::new());
    assert_eq!(listed_from(-1), Vec::<Vec<u8>>::new());
}

#[test]
fn packing_is_deterministic() {
    let a = pack_dir_entries(70, &listing());
    let b = pack_dir_entries(70, &listing());
    assert_eq!(a, b);
}
