//! Packing a directory listing into a reply buffer of bounded size.
//!
//! Each entry becomes one record: the inode number, the offset at which a
//! later call resumes, the length of the name and the file type, each in
//! little-endian byte order, then the name, then zero bytes up to the next
//! multiple of eight. Records follow one another in listing order. The
//! buffer holds the longest run of leading entries whose records fit.

use vstd::prelude::*;
use vstd::bytes::{
    lemma_auto_spec_u32_to_from_le_bytes, lemma_auto_spec_u64_to_from_le_bytes,
    spec_u32_to_le_bytes, spec_u64_to_le_bytes, u32_to_le_bytes, u64_to_le_bytes,
};
use crate::c_str::cstr_as_bytes_no_term;
use crate::lowlevel::types::{entries_view, DirEntry, DirEntryView};
use crate::stat::S_IFMT;

verus! {

/// Bytes of a record that come before the name.
pub const FUSE_NAME_OFFSET: usize = 24;

/// Bytes reserved for each entry beyond its name when the buffer is
/// allocated. Alignment makes the size of a record not an exact function of
/// the length of the name; this is enough for any name.
pub const EXTRA_CAP_PER_ENTRY: usize = 32;

/// The size of the record of an entry whose name has `namelen` bytes: header
/// and name, rounded up to a multiple of eight.
pub open spec fn dirent_size(namelen: nat) -> nat {
    ((FUSE_NAME_OFFSET + namelen + 7) / 8 * 8) as nat
}

/// The file type that a record carries for a mode: its file-type bits,
/// shifted down.
pub open spec fn dirent_type(mode: u32) -> u32 {
    (mode & S_IFMT) >> 12u32
}

/// `n` zero bytes.
pub open spec fn zero_bytes(n: nat) -> Seq<u8> {
    Seq::new(n, |i: int| 0u8)
}

/// The record of one entry.
pub open spec fn encode_dirent(e: DirEntryView) -> Seq<u8> {
    spec_u64_to_le_bytes(e.ino) + spec_u64_to_le_bytes(e.next_offset as u64)
        + spec_u32_to_le_bytes(e.name.len() as u32) + spec_u32_to_le_bytes(dirent_type(e.mode))
        + e.name + zero_bytes((dirent_size(e.name.len()) - FUSE_NAME_OFFSET - e.name.len()) as nat)
}

/// The records of `entries`, one after another.
pub open spec fn encode_dirents(entries: Seq<DirEntryView>) -> Seq<u8>
    decreases entries.len(),
{
    if entries.len() == 0 {
        Seq::empty()
    } else {
        encode_dirents(entries.drop_last()) + encode_dirent(entries.last())
    }
}

/// The summed size of the records of `entries`.
pub open spec fn dirents_size(entries: Seq<DirEntryView>) -> nat
    decreases entries.len(),
{
    if entries.len() == 0 {
        0
    } else {
        dirents_size(entries.drop_last()) + dirent_size(entries.last().name.len())
    }
}

/// The size reserved for `entries` when the buffer is allocated: for each
/// entry its name with the terminator, and [`EXTRA_CAP_PER_ENTRY`] more.
pub open spec fn reserved_size(entries: Seq<DirEntryView>) -> nat
    decreases entries.len(),
{
    if entries.len() == 0 {
        0
    } else {
        (reserved_size(entries.drop_last()) + entries.last().name.len() + 1
            + EXTRA_CAP_PER_ENTRY) as nat
    }
}

/// How many leading entries are packed into a buffer of `size` bytes: the
/// length of the longest prefix of `entries` whose records fit together.
pub open spec fn packed_count(entries: Seq<DirEntryView>, size: nat) -> nat
    decreases entries.len(),
{
    if entries.len() == 0 {
        0
    } else {
        let before = packed_count(entries.drop_last(), size);
        if before == entries.len() - 1 && dirents_size(entries) <= size {
            entries.len()
        } else {
            before
        }
    }
}

/// The content of the reply buffer for a listing of `entries` into `size`
/// bytes.
pub open spec fn packed_dirents(entries: Seq<DirEntryView>, size: nat) -> Seq<u8> {
    encode_dirents(entries.take(packed_count(entries, size) as int))
}

/// A record is as long as [`dirent_size`] says, which is a multiple of
/// eight, at least the header and the name, and less than eight more.
pub proof fn lemma_encode_dirent_len(e: DirEntryView)
    ensures
        encode_dirent(e).len() == dirent_size(e.name.len()),
        dirent_size(e.name.len()) % 8 == 0,
        FUSE_NAME_OFFSET + e.name.len() <= dirent_size(e.name.len()) < FUSE_NAME_OFFSET
            + e.name.len() + 8,
{
    lemma_auto_spec_u64_to_from_le_bytes();
    lemma_auto_spec_u32_to_from_le_bytes();
}

/// The records of a listing are together as long as [`dirents_size`] says.
pub proof fn lemma_encode_dirents_len(entries: Seq<DirEntryView>)
    ensures
        encode_dirents(entries).len() == dirents_size(entries),
    decreases entries.len(),
{
    if entries.len() > 0 {
        lemma_encode_dirents_len(entries.drop_last());
        lemma_encode_dirent_len(entries.last());
    }
}

/// A prefix of a listing takes no more room than the listing.
pub proof fn lemma_dirents_size_monotonic(entries: Seq<DirEntryView>, k: int)
    requires
        0 <= k <= entries.len(),
    ensures
        dirents_size(entries.take(k)) <= dirents_size(entries),
    decreases entries.len(),
{
    if k == entries.len() {
        assert(entries.take(k) == entries);
    } else {
        lemma_dirents_size_monotonic(entries.drop_last(), k);
        assert(entries.drop_last().take(k) == entries.take(k));
    }
}

/// The size reserved at allocation is never less than the records need: the
/// reservation by itself never cuts a listing short.
pub proof fn lemma_reserved_size_suffices(entries: Seq<DirEntryView>)
    ensures
        dirents_size(entries) <= reserved_size(entries),
    decreases entries.len(),
{
    if entries.len() > 0 {
        lemma_reserved_size_suffices(entries.drop_last());
        lemma_encode_dirent_len(entries.last());
    }
}

/// The packed entries are the longest prefix that fits: they fit, and where
/// an entry is left out, the prefix with one entry more does not fit.
pub proof fn lemma_packed_count_is_longest_fit(entries: Seq<DirEntryView>, size: nat)
    ensures
        packed_count(entries, size) <= entries.len(),
        dirents_size(entries.take(packed_count(entries, size) as int)) <= size,
        packed_count(entries, size) < entries.len() ==> dirents_size(
            entries.take(packed_count(entries, size) as int + 1),
        ) > size,
    decreases entries.len(),
{
    if entries.len() == 0 {
        assert(entries.take(0) == entries);
    } else {
        let prev = entries.drop_last();
        let before = packed_count(prev, size);
        lemma_packed_count_is_longest_fit(prev, size);
        if before == entries.len() - 1 && dirents_size(entries) <= size {
            assert(entries.take(entries.len() as int) == entries);
        } else {
            assert(prev.take(before as int) == entries.take(before as int));
            if before < prev.len() {
                assert(prev.take(before as int + 1) == entries.take(before as int + 1));
            } else {
                assert(entries.take(before as int + 1) == entries);
            }
        }
    }
}

/// Only one count is the longest prefix that fits: a prefix of `k` entries
/// that fits, while the prefix with one entry more does not, is the packed
/// one.
pub proof fn lemma_longest_fit_is_packed_count(entries: Seq<DirEntryView>, size: nat, k: nat)
    requires
        k <= entries.len(),
        dirents_size(entries.take(k as int)) <= size,
        k < entries.len() ==> dirents_size(entries.take(k as int + 1)) > size,
    ensures
        packed_count(entries, size) == k,
    decreases entries.len(),
{
    if entries.len() > 0 {
        let prev = entries.drop_last();
        if k == entries.len() {
            assert(entries.take(k as int) == entries);
            lemma_dirents_size_monotonic(entries, k - 1);
            assert(entries.take(k - 1) == prev);
            assert(prev.take(k - 1) == prev);
            lemma_longest_fit_is_packed_count(prev, size, (k - 1) as nat);
        } else {
            assert(prev.take(k as int) == entries.take(k as int));
            if k < prev.len() {
                assert(prev.take(k as int + 1) == entries.take(k as int + 1));
            } else {
                assert(entries.take(k as int + 1) == entries);
            }
            lemma_longest_fit_is_packed_count(prev, size, k);
        }
    }
}

/// Where even the first entry does not fit, nothing is packed: the reply is
/// empty, though the listing is not.
pub proof fn lemma_first_entry_too_large(entries: Seq<DirEntryView>, size: nat)
    requires
        entries.len() > 0,
        dirent_size(entries[0].name.len()) > size,
    ensures
        packed_count(entries, size) == 0,
        packed_dirents(entries, size).len() == 0,
{
    assert(entries.take(1).drop_last() == Seq::<DirEntryView>::empty());
    assert(entries.take(1).last() == entries[0]);
    assert(dirents_size(entries.take(1)) == dirent_size(entries[0].name.len())) by {
        assert(dirents_size(Seq::<DirEntryView>::empty()) == 0);
    }
    assert(dirents_size(entries.take(0)) == 0);
    lemma_longest_fit_is_packed_count(entries, size, 0);
    assert(entries.take(0) == Seq::<DirEntryView>::empty());
}

/// A buffer with room for every record holds the whole listing.
pub proof fn lemma_large_buffer_packs_all(entries: Seq<DirEntryView>, size: nat)
    requires
        dirents_size(entries) <= size,
    ensures
        packed_count(entries, size) == entries.len(),
        packed_dirents(entries, size) == encode_dirents(entries),
{
    assert(entries.take(entries.len() as int) == entries);
    lemma_longest_fit_is_packed_count(entries, size, entries.len());
}

/// Computes [`dirent_size`], or `None` where it does not fit a `usize`.
pub fn fuse_dirent_size(namelen: usize) -> (r: Option<usize>)
    ensures
        r matches Some(n) ==> n == dirent_size(namelen as nat),
        r is None ==> dirent_size(namelen as nat) > usize::MAX,
{
    if namelen > usize::MAX - FUSE_NAME_OFFSET - 7 {
        None
    } else {
        Some((FUSE_NAME_OFFSET + namelen + 7) / 8 * 8)
    }
}

/// Computes [`dirent_type`].
pub fn fuse_dirent_type(mode: u32) -> (t: u32)
    ensures
        t == dirent_type(mode),
{
    (mode & S_IFMT) >> 12u32
}

/// Appends the record of `entry` to `buf`.
pub fn fuse_add_dirent(buf: &mut Vec<u8>, entry: &DirEntry)
    requires
        dirent_size(entry@.name.len()) <= usize::MAX,
    ensures
        final(buf)@ == old(buf)@ + encode_dirent(entry@),
{
    let name = cstr_as_bytes_no_term(&entry.name);
    let namelen = name.len();
    let entlen = FUSE_NAME_OFFSET + namelen;
    let entsize = (entlen + 7) / 8 * 8;
    let padlen = entsize - entlen;
    let mut ino = u64_to_le_bytes(entry.ino);
    let mut off = u64_to_le_bytes(#[verifier::truncate] (entry.next_offset as u64));
    let mut len = u32_to_le_bytes(#[verifier::truncate] (namelen as u32));
    let mut typ = u32_to_le_bytes(fuse_dirent_type(entry.mode));
    let mut name_bytes = vstd::slice::slice_to_vec(name);
    buf.append(&mut ino);
    buf.append(&mut off);
    buf.append(&mut len);
    buf.append(&mut typ);
    buf.append(&mut name_bytes);
    let ghost filled = buf@;
    let mut i: usize = 0;
    while i < padlen
        invariant
            i <= padlen,
            buf@ == filled + zero_bytes(i as nat),
        decreases padlen - i,
    {
        buf.push(0u8);
        i += 1;
        assert(buf@ == filled + zero_bytes(i as nat));
    }
    assert(buf@ == old(buf)@ + encode_dirent(entry@));
}

/// The size to reserve for `entries`: [`reserved_size`], or the largest
/// `usize` where that is larger.
pub fn reserved_capacity(entries: &Vec<DirEntry>) -> (cap: usize)
    ensures
        reserved_size(entries_view(entries@)) <= usize::MAX ==> cap == reserved_size(
            entries_view(entries@),
        ),
        reserved_size(entries_view(entries@)) > usize::MAX ==> cap == usize::MAX,
{
    let ghost view = entries_view(entries@);
    let mut cap: usize = 0;
    let mut i: usize = 0;
    while i < entries.len()
        invariant
            i <= entries@.len(),
            view == entries_view(entries@),
            reserved_size(view.take(i as int)) <= usize::MAX ==> cap == reserved_size(
                view.take(i as int),
            ),
            reserved_size(view.take(i as int)) > usize::MAX ==> cap == usize::MAX,
        decreases entries@.len() - i,
    {
        let namelen = entries[i].name.len();
        proof {
            assert(view.take(i + 1).drop_last() == view.take(i as int));
            assert(view.take(i + 1).last().name.len() == namelen);
        }
        let need = namelen + 1;
        if need > usize::MAX - EXTRA_CAP_PER_ENTRY || cap > usize::MAX - EXTRA_CAP_PER_ENTRY
            - need {
            cap = usize::MAX;
        } else {
            cap = cap + need + EXTRA_CAP_PER_ENTRY;
        }
        i += 1;
    }
    assert(view.take(i as int) == view);
    cap
}

/// Packs a listing of `entries` into at most `size` bytes: the records of
/// the longest prefix of entries that fits, and the number of entries in it.
/// An empty buffer is a valid result: it comes where the listing is empty,
/// and where the first entry alone exceeds `size`.
pub fn pack_dir_entries(size: usize, entries: &Vec<DirEntry>) -> (r: (Vec<u8>, usize))
    ensures
        r.1 == packed_count(entries_view(entries@), size as nat),
        r.0@ == packed_dirents(entries_view(entries@), size as nat),
        r.0@.len() <= size,
{
    let ghost view = entries_view(entries@);
    let max_buf_size = reserved_capacity(entries);
    let buf_size = if max_buf_size < size {
        max_buf_size
    } else {
        size
    };
    let mut buf: Vec<u8> = Vec::with_capacity(buf_size);
    let mut returned_size: usize = 0;
    let mut i: usize = 0;
    proof {
        assert(view.take(0) == Seq::<DirEntryView>::empty());
    }
    while i < entries.len()
        invariant_except_break
            i <= entries@.len(),
        invariant
            view == entries_view(entries@),
            buf_size <= size,
            buf_size < size ==> buf_size == reserved_size(view),
            returned_size == dirents_size(view.take(i as int)),
            returned_size <= buf_size,
            buf@.len() == returned_size,
            buf@ == encode_dirents(view.take(i as int)),
        ensures
            i <= entries@.len(),
            i < entries@.len() ==> dirents_size(view.take(i + 1)) > size,
        decreases entries@.len() - i,
    {
        let entry = &entries[i];
        let remaining_size = buf_size - returned_size;
        proof {
            assert(view.take(i + 1).drop_last() == view.take(i as int));
            assert(view.take(i + 1).last() == entry@);
            lemma_dirents_size_monotonic(view, i + 1);
            lemma_reserved_size_suffices(view);
        }
        let fits = match fuse_dirent_size(entry.name.len()) {
            Some(added_size) => added_size <= remaining_size,
            None => false,
        };
        if !fits {
            break ;
        }
        fuse_add_dirent(&mut buf, entry);
        proof {
            lemma_encode_dirent_len(entry@);
        }
        returned_size = buf.len();
        i += 1;
    }
    proof {
        if i == entries@.len() {
            assert(view.take(i as int) == view);
        }
        lemma_longest_fit_is_packed_count(view, size as nat, i as nat);
    }
    (buf, i)
}

} // verus!
