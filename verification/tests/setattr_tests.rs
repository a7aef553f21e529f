use rust_fuse::lowlevel::operation::{
    setattr_impl, FUSE_SET_ATTR_ATIME, FUSE_SET_ATTR_ATIME_NOW, FUSE_SET_ATTR_GID,
    FUSE_SET_ATTR_MODE, FUSE_SET_ATTR_MTIME, FUSE_SET_ATTR_MTIME_NOW, FUSE_SET_ATTR_SIZE,
    FUSE_SET_ATTR_UID,
};
use rust_fuse::lowlevel::{decode_attrs_to_set, AttrToSet, Operation};
use rust_fuse::native::fuse_file_info;
use rust_fuse::stat::{default_stat, Stat};

fn attr() -> Stat {
    Stat {
        st_mode: 0o100644,
        st_uid: 1000,
        st_gid: 100,
        st_size: 4096,
        st_atime: 1_700_000_000,
        st_mtime: 1_700_000_001,
        ..default_stat()
    }
}

#[test]
fn bit_values_are_those_of_the_native_mask() {
    assert_eq!(FUSE_SET_ATTR_MODE, 1);
    assert_eq!(FUSE_SET_ATTR_UID, 2);
    assert_eq!(FUSE_SET_ATTR_GID, 4);
    assert_eq!(FUSE_SET_ATTR_SIZE, 8);
    assert_eq!(FUSE_SET_ATTR_ATIME, 16);
    assert_eq!(FUSE_SET_ATTR_MTIME, 32);
    assert_eq!(FUSE_SET_ATTR_ATIME_NOW, 128);
    assert_eq!(FUSE_SET_ATTR_MTIME_NOW, 256);
}

#[test]
fn each_bit_alone_decodes_to_its_attribute() {
    let a = attr();
    assert_eq!(decode_attrs_to_set(&a, FUSE_SET_ATTR_MODE), vec![AttrToSet::Mode(0o100644)]);
    assert_eq!(decode_attrs_to_set(&a, FUSE_SET_ATTR_UID), vec![AttrToSet::Uid(1000)]);
    assert_eq!(decode_attrs_to_set(&a, FUSE_SET_ATTR_GID), vec![AttrToSet::Gid(100)]);
    assert_eq!(decode_attrs_to_set(&a, FUSE_SET_ATTR_SIZE), vec![AttrToSet::Size(4096)]);
    assert_eq!(
        decode_attrs_to_set(&a, FUSE_SET_ATTR_ATIME),
        vec![AttrToSet::Atime(1_700_000_000)]
    );
    assert_eq!(
        decode_attrs_to_set(&a, FUSE_SET_ATTR_MTIME),
        vec![AttrToSet::Mtime(1_700_000_001)]
    );
    assert_eq!(decode_attrs_to_set(&a, FUSE_SET_ATTR_ATIME_NOW), vec![AttrToSet::Atime_now]);
    assert_eq!(decode_attrs_to_set(&a, FUSE_SET_ATTR_MTIME_NOW), vec![AttrToSet::Mtime_now]);
}

#[test]
fn all_combinations_of_mode_uid_size() {
    let a = attr();
    for mask in 0..8 {
        let mut to_set = 0;
        let mut expected = Vec::new();
        if mask & 1 != 0 {
            to_set |= FUSE_SET_ATTR_MODE;
            expected.push(AttrToSet::Mode(0o100644));
        }
        if mask & 2 != 0 {
            to_set |= FUSE_SET_ATTR_UID;
            expected.push(AttrToSet::Uid(1000));
        }
        if mask & 4 != 0 {
            to_set |= FUSE_SET_ATTR_SIZE;
            expected.push(AttrToSet::Size(4096));
        }
        assert_eq!(decode_attrs_to_set(&a, to_set), expected);
    }
}

#[test]
fn the_two_now_flags_exclusively() {
    let a = attr();
    assert_eq!(
        decode_attrs_to_set(&a, FUSE_SET_ATTR_ATIME_NOW | FUSE_SET_ATTR_MTIME_NOW),
        vec![AttrToSet::Atime_now, AttrToSet::Mtime_now]
    );
}

#[test]
fn no_bit_decodes_to_nothing() {
    assert_eq!(decode_attrs_to_set(&attr(), 0), Vec::new());
}

#[test]
fn unknown_bits_are_ignored() {
    assert_eq!(decode_attrs_to_set(&attr(), 1 << 6), Vec::new());
    assert_eq!(decode_attrs_to_set(&attr(), 1 << 9), Vec::new());
    assert_eq!(
        decode_attrs_to_set(&attr(), (1 << 6) | FUSE_SET_ATTR_GID),
        vec![AttrToSet::Gid(100)]
    );
}

#[test]
fn all_bits_decode_in_the_fixed_order() {
    assert_eq!(
        decode_attrs_to_set(&attr(), -1),
        vec![
            AttrToSet::Mode(0o100644),
            AttrToSet::Uid(1000),
            AttrToSet::Gid(100),
            AttrToSet::Size(4096),
            AttrToSet::Atime(1_700_000_000),
            AttrToSet::Mtime(1_700_000_001),
            AttrToSet::Atime_now,
            AttrToSet::Mtime_now,
        ]
    );
}

#[test]
fn setattr_operation_carries_the_decoded_list_and_the_handle() {
    let fi = fuse_file_info { fh: 77, ..Default::default() };
    assert_eq!(
        setattr_impl(9, &attr(), FUSE_SET_ATTR_SIZE | FUSE_SET_ATTR_MTIME_NOW, Some(&fi)),
        Operation::Setattr {
            ino: 9,
            attrs: vec![AttrToSet::Size(4096), AttrToSet::Mtime_now],
            fh: Some(77)
        }
    );
    assert_eq!(
        setattr_impl(9, &attr(), FUSE_SET_ATTR_UID, None),
        Operation::Setattr { ino: 9, attrs: vec![AttrToSet::Uid(1000)], fh: None }
    );
}
