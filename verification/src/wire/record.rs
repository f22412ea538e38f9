//! Instants, attribute records, attribute changes and directory entries on
//! the wire.

use vstd::prelude::*;
use crate::attr::{FileAttr, FileType, Timestamp};
use crate::message::{Changes, DirEntryView};
use crate::wire::scalar::{
    lemma_assoc, lemma_i64, lemma_text, lemma_u16, lemma_u32, lemma_u64, lemma_u8, parse_i64,
    parse_text, parse_u16, parse_u32, parse_u64, parse_u8, ser_i64, ser_text, ser_u16, ser_u32,
    ser_u64, ser_u8, text_fits,
};

verus! {

/// The byte form of an instant: its seconds, then its nanoseconds.
pub open spec fn ser_time(t: Timestamp) -> Seq<u8> {
    ser_i64(t.secs) + ser_u32(t.nanos)
}

/// The instant at the front of `b`.
pub open spec fn parse_time(b: Seq<u8>) -> Option<(Timestamp, Seq<u8>)> {
    match parse_i64(b) {
        Some((secs, r1)) => match parse_u32(r1) {
            Some((nanos, r2)) => Some((Timestamp { secs, nanos }, r2)),
            None => None,
        },
        None => None,
    }
}

/// Reading the byte form of an instant gives it back, and the bytes that
/// followed it.
pub proof fn lemma_time(t: Timestamp, rest: Seq<u8>)
    ensures
        ser_time(t).len() == 12,
        parse_time(ser_time(t) + rest) == Some((t, rest)),
{
    assert(ser_time(t) + rest =~= ser_i64(t.secs) + (ser_u32(t.nanos) + rest));
    lemma_i64(t.secs, ser_u32(t.nanos) + rest);
    lemma_u32(t.nanos, rest);
}

/// The number that stands for a kind of file.
pub open spec fn kind_code(kind: FileType) -> u8 {
    match kind {
        FileType::NamedPipe => 0,
        FileType::CharDevice => 1,
        FileType::BlockDevice => 2,
        FileType::Directory => 3,
        FileType::RegularFile => 4,
        FileType::Symlink => 5,
        FileType::Socket => 6,
    }
}

/// The kind of file that `code` stands for.
pub open spec fn kind_of(code: u8) -> Option<FileType> {
    if code == 0 {
        Some(FileType::NamedPipe)
    } else if code == 1 {
        Some(FileType::CharDevice)
    } else if code == 2 {
        Some(FileType::BlockDevice)
    } else if code == 3 {
        Some(FileType::Directory)
    } else if code == 4 {
        Some(FileType::RegularFile)
    } else if code == 5 {
        Some(FileType::Symlink)
    } else if code == 6 {
        Some(FileType::Socket)
    } else {
        None
    }
}

/// The byte form of a kind of file.
pub open spec fn ser_kind(kind: FileType) -> Seq<u8> {
    ser_u8(kind_code(kind))
}

/// The kind of file at the front of `b`.
pub open spec fn parse_kind(b: Seq<u8>) -> Option<(FileType, Seq<u8>)> {
    match parse_u8(b) {
        Some((code, rest)) => match kind_of(code) {
            Some(kind) => Some((kind, rest)),
            None => None,
        },
        None => None,
    }
}

/// Reading the byte form of a kind of file gives it back, and the bytes that
/// followed it.
pub proof fn lemma_kind(kind: FileType, rest: Seq<u8>)
    ensures
        ser_kind(kind).len() == 1,
        parse_kind(ser_kind(kind) + rest) == Some((kind, rest)),
{
    lemma_u8(kind_code(kind), rest);
}

/// The byte form of an attribute record: its fields in order.
#[verifier::opaque]
pub open spec fn ser_attr(a: FileAttr) -> Seq<u8> {
    ser_u64(a.ino) + ser_u64(a.size) + ser_u64(a.blocks) + ser_time(a.atime) + ser_time(a.mtime)
        + ser_time(a.ctime) + ser_time(a.crtime) + ser_kind(a.kind) + ser_u16(a.perm) + ser_u32(
        a.nlink,
    ) + ser_u32(a.uid) + ser_u32(a.gid) + ser_u32(a.rdev) + ser_u32(a.blksize) + ser_u32(a.flags)
}

/// The four instants at the front of `b`, for access, modification, change
/// and creation.
pub open spec fn parse_times(b: Seq<u8>) -> Option<
    ((Timestamp, Timestamp, Timestamp, Timestamp), Seq<u8>),
> {
    match parse_time(b) {
        Some((atime, r1)) => match parse_time(r1) {
            Some((mtime, r2)) => match parse_time(r2) {
                Some((ctime, r3)) => match parse_time(r3) {
                    Some((crtime, r4)) => Some(((atime, mtime, ctime, crtime), r4)),
                    None => None,
                },
                None => None,
            },
            None => None,
        },
        None => None,
    }
}

/// The six 32-bit numbers at the front of `b`.
pub open spec fn parse_six(b: Seq<u8>) -> Option<((u32, u32, u32, u32, u32, u32), Seq<u8>)> {
    match parse_u32(b) {
        Some((x1, r1)) => match parse_u32(r1) {
            Some((x2, r2)) => match parse_u32(r2) {
                Some((x3, r3)) => match parse_u32(r3) {
                    Some((x4, r4)) => match parse_u32(r4) {
                        Some((x5, r5)) => match parse_u32(r5) {
                            Some((x6, r6)) => Some(((x1, x2, x3, x4, x5, x6), r6)),
                            None => None,
                        },
                        None => None,
                    },
                    None => None,
                },
                None => None,
            },
            None => None,
        },
        None => None,
    }
}

/// The attribute record at the front of `b`.
#[verifier::opaque]
pub open spec fn parse_attr(b: Seq<u8>) -> Option<(FileAttr, Seq<u8>)> {
    match parse_u64(b) {
        Some((ino, r1)) => match parse_u64(r1) {
            Some((size, r2)) => match parse_u64(r2) {
                Some((blocks, r3)) => match parse_times(r3) {
                    Some((times, r4)) => match parse_kind(r4) {
                        Some((kind, r5)) => match parse_u16(r5) {
                            Some((perm, r6)) => match parse_six(r6) {
                                Some((six, r7)) => Some(
                                    (
                                        FileAttr {
                                            ino,
                                            size,
                                            blocks,
                                            atime: times.0,
                                            mtime: times.1,
                                            ctime: times.2,
                                            crtime: times.3,
                                            kind,
                                            perm,
                                            nlink: six.0,
                                            uid: six.1,
                                            gid: six.2,
                                            rdev: six.3,
                                            blksize: six.4,
                                            flags: six.5,
                                        },
                                        r7,
                                    ),
                                ),
                                None => None,
                            },
                            None => None,
                        },
                        None => None,
                    },
                    None => None,
                },
                None => None,
            },
            None => None,
        },
        None => None,
    }
}

/// Reading the byte form of an attribute record gives it back, and the bytes that
/// followed it.
pub proof fn lemma_attr(a: FileAttr, rest: Seq<u8>)
    ensures
        parse_attr(ser_attr(a) + rest) == Some((a, rest)),
{
    reveal(ser_attr);
    reveal(parse_attr);
    let k15 = rest;
    let k14 = ser_u32(a.flags) + k15;
    let k13 = ser_u32(a.blksize) + k14;
    let k12 = ser_u32(a.rdev) + k13;
    let k11 = ser_u32(a.gid) + k12;
    let k10 = ser_u32(a.uid) + k11;
    let k9 = ser_u32(a.nlink) + k10;
    let k8 = ser_u16(a.perm) + k9;
    let k7 = ser_kind(a.kind) + k8;
    let k6 = ser_time(a.crtime) + k7;
    let k5 = ser_time(a.ctime) + k6;
    let k4 = ser_time(a.mtime) + k5;
    let k3 = ser_time(a.atime) + k4;
    let k2 = ser_u64(a.blocks) + k3;
    let k1 = ser_u64(a.size) + k2;
    let h1 = ser_u64(a.ino);
    let h2 = h1 + ser_u64(a.size);
    let h3 = h2 + ser_u64(a.blocks);
    let h4 = h3 + ser_time(a.atime);
    let h5 = h4 + ser_time(a.mtime);
    let h6 = h5 + ser_time(a.ctime);
    let h7 = h6 + ser_time(a.crtime);
    let h8 = h7 + ser_kind(a.kind);
    let h9 = h8 + ser_u16(a.perm);
    let h10 = h9 + ser_u32(a.nlink);
    let h11 = h10 + ser_u32(a.uid);
    let h12 = h11 + ser_u32(a.gid);
    let h13 = h12 + ser_u32(a.rdev);
    let h14 = h13 + ser_u32(a.blksize);
    let h15 = h14 + ser_u32(a.flags);
    lemma_assoc(h14, ser_u32(a.flags), k15);
    lemma_assoc(h13, ser_u32(a.blksize), k14);
    lemma_assoc(h12, ser_u32(a.rdev), k13);
    lemma_assoc(h11, ser_u32(a.gid), k12);
    lemma_assoc(h10, ser_u32(a.uid), k11);
    lemma_assoc(h9, ser_u32(a.nlink), k10);
    lemma_assoc(h8, ser_u16(a.perm), k9);
    lemma_assoc(h7, ser_kind(a.kind), k8);
    lemma_assoc(h6, ser_time(a.crtime), k7);
    lemma_assoc(h5, ser_time(a.ctime), k6);
    lemma_assoc(h4, ser_time(a.mtime), k5);
    lemma_assoc(h3, ser_time(a.atime), k4);
    lemma_assoc(h2, ser_u64(a.blocks), k3);
    lemma_assoc(h1, ser_u64(a.size), k2);
    lemma_u32(a.flags, k15);
    lemma_u32(a.blksize, k14);
    lemma_u32(a.rdev, k13);
    lemma_u32(a.gid, k12);
    lemma_u32(a.uid, k11);
    lemma_u32(a.nlink, k10);
    lemma_u16(a.perm, k9);
    lemma_kind(a.kind, k8);
    lemma_time(a.crtime, k7);
    lemma_time(a.ctime, k6);
    lemma_time(a.mtime, k5);
    lemma_time(a.atime, k4);
    lemma_u64(a.blocks, k3);
    lemma_u64(a.size, k2);
    lemma_u64(a.ino, k1);
}

/// The byte form of an optional 32-bit number: a zero byte for none, a one
/// byte and the value for one.
pub open spec fn ser_opt_u32(o: Option<u32>) -> Seq<u8> {
    match o {
        None => ser_u8(0),
        Some(x) => ser_u8(1) + ser_u32(x),
    }
}

/// The optional 32-bit number at the front of `b`.
pub open spec fn parse_opt_u32(b: Seq<u8>) -> Option<(Option<u32>, Seq<u8>)> {
    match parse_u8(b) {
        Some((flag, r1)) => if flag == 0 {
            Some((None, r1))
        } else if flag == 1 {
            match parse_u32(r1) {
                Some((x, r2)) => Some((Some(x), r2)),
                None => None,
            }
        } else {
            None
        },
        None => None,
    }
}

/// Reading the byte form of an optional 32-bit number gives it back, and the bytes that
/// followed it.
pub proof fn lemma_opt_u32(o: Option<u32>, rest: Seq<u8>)
    ensures
        parse_opt_u32(ser_opt_u32(o) + rest) == Some((o, rest)),
{
    match o {
        None => {
            lemma_u8(0, rest);
        },
        Some(x) => {
            assert(ser_opt_u32(o) + rest =~= ser_u8(1) + (ser_u32(x) + rest));
            lemma_u8(1, ser_u32(x) + rest);
            lemma_u32(x, rest);
        },
    }
}

/// The byte form of an optional 64-bit number: a zero byte for none, a one
/// byte and the value for one.
pub open spec fn ser_opt_u64(o: Option<u64>) -> Seq<u8> {
    match o {
        None => ser_u8(0),
        Some(x) => ser_u8(1) + ser_u64(x),
    }
}

/// The optional 64-bit number at the front of `b`.
pub open spec fn parse_opt_u64(b: Seq<u8>) -> Option<(Option<u64>, Seq<u8>)> {
    match parse_u8(b) {
        Some((flag, r1)) => if flag == 0 {
            Some((None, r1))
        } else if flag == 1 {
            match parse_u64(r1) {
                Some((x, r2)) => Some((Some(x), r2)),
                None => None,
            }
        } else {
            None
        },
        None => None,
    }
}

/// Reading the byte form of an optional 64-bit number gives it back, and the bytes that
/// followed it.
pub proof fn lemma_opt_u64(o: Option<u64>, rest: Seq<u8>)
    ensures
        parse_opt_u64(ser_opt_u64(o) + rest) == Some((o, rest)),
{
    match o {
        None => {
            lemma_u8(0, rest);
        },
        Some(x) => {
            assert(ser_opt_u64(o) + rest =~= ser_u8(1) + (ser_u64(x) + rest));
            lemma_u8(1, ser_u64(x) + rest);
            lemma_u64(x, rest);
        },
    }
}

/// The byte form of an optional instant: a zero byte for none, a one
/// byte and the value for one.
pub open spec fn ser_opt_time(o: Option<Timestamp>) -> Seq<u8> {
    match o {
        None => ser_u8(0),
        Some(x) => ser_u8(1) + ser_time(x),
    }
}

/// The optional instant at the front of `b`.
pub open spec fn parse_opt_time(b: Seq<u8>) -> Option<(Option<Timestamp>, Seq<u8>)> {
    match parse_u8(b) {
        Some((flag, r1)) => if flag == 0 {
            Some((None, r1))
        } else if flag == 1 {
            match parse_time(r1) {
                Some((x, r2)) => Some((Some(x), r2)),
                None => None,
            }
        } else {
            None
        },
        None => None,
    }
}

/// Reading the byte form of an optional instant gives it back, and the bytes that
/// followed it.
pub proof fn lemma_opt_time(o: Option<Timestamp>, rest: Seq<u8>)
    ensures
        parse_opt_time(ser_opt_time(o) + rest) == Some((o, rest)),
{
    match o {
        None => {
            lemma_u8(0, rest);
        },
        Some(x) => {
            assert(ser_opt_time(o) + rest =~= ser_u8(1) + (ser_time(x) + rest));
            lemma_u8(1, ser_time(x) + rest);
            lemma_time(x, rest);
        },
    }
}

/// The byte form of a set of attribute changes: its fields in order.
#[verifier::opaque]
pub open spec fn ser_changes(c: Changes) -> Seq<u8> {
    ser_opt_u32(c.mode)
        + ser_opt_u32(c.uid)
        + ser_opt_u32(c.gid)
        + ser_opt_u64(c.size)
        + ser_opt_time(c.atime)
        + ser_opt_time(c.mtime)
        + ser_opt_time(c.ctime)
        + ser_opt_u64(c.fh)
        + ser_opt_time(c.crtime)
        + ser_opt_time(c.chgtime)
        + ser_opt_time(c.bkuptime)
        + ser_opt_u32(c.flags)
}

/// The set of attribute changes at the front of `b`.
#[verifier::opaque]
pub open spec fn parse_changes(b: Seq<u8>) -> Option<(Changes, Seq<u8>)> {
    match parse_opt_u32(b) {
        Some((mode, r1)) => match parse_opt_u32(r1) {
            Some((uid, r2)) => match parse_opt_u32(r2) {
                Some((gid, r3)) => match parse_opt_u64(r3) {
                    Some((size, r4)) => match parse_opt_time(r4) {
                        Some((atime, r5)) => match parse_opt_time(r5) {
                            Some((mtime, r6)) => match parse_opt_time(r6) {
                                Some((ctime, r7)) => match parse_opt_u64(r7) {
                                    Some((fh, r8)) => match parse_opt_time(r8) {
                                        Some((crtime, r9)) => match parse_opt_time(r9) {
                                            Some((chgtime, r10)) => match parse_opt_time(r10) {
                                                Some((bkuptime, r11)) => match parse_opt_u32(r11) {
                                                    Some((flags, r12)) => Some(
                                                    (
                                                        Changes {
                                                            mode,
                                                            uid,
                                                            gid,
                                                            size,
                                                            atime,
                                                            mtime,
                                                            ctime,
                                                            fh,
                                                            crtime,
                                                            chgtime,
                                                            bkuptime,
                                                            flags,
                                                        },
                                                        r12,
                                                    ),
                                                ),
                                                    None => None,
                                                },
                                                None => None,
                                            },
                                            None => None,
                                        },
                                        None => None,
                                    },
                                    None => None,
                                },
                                None => None,
                            },
                            None => None,
                        },
                        None => None,
                    },
                    None => None,
                },
                None => None,
            },
            None => None,
        },
        None => None,
    }
}

/// Reading the byte form of a set of attribute changes gives it back, and the bytes that
/// followed it.
pub proof fn lemma_changes(c: Changes, rest: Seq<u8>)
    ensures
        parse_changes(ser_changes(c) + rest) == Some((c, rest)),
{
    reveal(ser_changes);
    reveal(parse_changes);
    let k12 = rest;
    let k11 = ser_opt_u32(c.flags) + k12;
    let k10 = ser_opt_time(c.bkuptime) + k11;
    let k9 = ser_opt_time(c.chgtime) + k10;
    let k8 = ser_opt_time(c.crtime) + k9;
    let k7 = ser_opt_u64(c.fh) + k8;
    let k6 = ser_opt_time(c.ctime) + k7;
    let k5 = ser_opt_time(c.mtime) + k6;
    let k4 = ser_opt_time(c.atime) + k5;
    let k3 = ser_opt_u64(c.size) + k4;
    let k2 = ser_opt_u32(c.gid) + k3;
    let k1 = ser_opt_u32(c.uid) + k2;
    let h1 = ser_opt_u32(c.mode);
    let h2 = h1 + ser_opt_u32(c.uid);
    let h3 = h2 + ser_opt_u32(c.gid);
    let h4 = h3 + ser_opt_u64(c.size);
    let h5 = h4 + ser_opt_time(c.atime);
    let h6 = h5 + ser_opt_time(c.mtime);
    let h7 = h6 + ser_opt_time(c.ctime);
    let h8 = h7 + ser_opt_u64(c.fh);
    let h9 = h8 + ser_opt_time(c.crtime);
    let h10 = h9 + ser_opt_time(c.chgtime);
    let h11 = h10 + ser_opt_time(c.bkuptime);
    let h12 = h11 + ser_opt_u32(c.flags);
    lemma_assoc(h11, ser_opt_u32(c.flags), k12);
    lemma_assoc(h10, ser_opt_time(c.bkuptime), k11);
    lemma_assoc(h9, ser_opt_time(c.chgtime), k10);
    lemma_assoc(h8, ser_opt_time(c.crtime), k9);
    lemma_assoc(h7, ser_opt_u64(c.fh), k8);
    lemma_assoc(h6, ser_opt_time(c.ctime), k7);
    lemma_assoc(h5, ser_opt_time(c.mtime), k6);
    lemma_assoc(h4, ser_opt_time(c.atime), k5);
    lemma_assoc(h3, ser_opt_u64(c.size), k4);
    lemma_assoc(h2, ser_opt_u32(c.gid), k3);
    lemma_assoc(h1, ser_opt_u32(c.uid), k2);
    lemma_opt_u32(c.flags, k12);
    lemma_opt_time(c.bkuptime, k11);
    lemma_opt_time(c.chgtime, k10);
    lemma_opt_time(c.crtime, k9);
    lemma_opt_u64(c.fh, k8);
    lemma_opt_time(c.ctime, k7);
    lemma_opt_time(c.mtime, k6);
    lemma_opt_time(c.atime, k5);
    lemma_opt_u64(c.size, k4);
    lemma_opt_u32(c.gid, k3);
    lemma_opt_u32(c.uid, k2);
    lemma_opt_u32(c.mode, k1);
}

/// The byte form of a directory entry.
pub open spec fn ser_entry(e: DirEntryView) -> Seq<u8> {
    ser_u64(e.ino) + ser_kind(e.kind) + ser_text(e.name)
}

/// The directory entry at the front of `b`.
pub open spec fn parse_entry(b: Seq<u8>) -> Option<(DirEntryView, Seq<u8>)> {
    match parse_u64(b) {
        Some((ino, r1)) => match parse_kind(r1) {
            Some((kind, r2)) => match parse_text(r2) {
                Some((name, r3)) => Some((DirEntryView { ino, kind, name }, r3)),
                None => None,
            },
            None => None,
        },
        None => None,
    }
}

/// Reading the byte form of a directory entry gives it back, and the bytes that
/// followed it.
pub proof fn lemma_entry(e: DirEntryView, rest: Seq<u8>)
    requires
        text_fits(e.name),
    ensures
        parse_entry(ser_entry(e) + rest) == Some((e, rest)),
{
    let r2 = ser_text(e.name) + rest;
    let r1 = ser_kind(e.kind) + r2;
    lemma_text(e.name, rest);
    lemma_kind(e.kind, r2);
    lemma_u64(e.ino, r1);
    assert(ser_entry(e) + rest =~= ser_u64(e.ino) + r1);
}

/// The byte forms of `entries`, one after the other.
pub open spec fn ser_each(entries: Seq<DirEntryView>) -> Seq<u8>
    decreases entries.len(),
{
    if entries.len() == 0 {
        Seq::<u8>::empty()
    } else {
        ser_entry(entries[0]) + ser_each(entries.drop_first())
    }
}

/// The `n` directory entries at the front of `b`.
pub open spec fn parse_each(b: Seq<u8>, n: nat) -> Option<(Seq<DirEntryView>, Seq<u8>)>
    decreases n,
{
    if n == 0 {
        Some((Seq::<DirEntryView>::empty(), b))
    } else {
        match parse_entry(b) {
            Some((e, r1)) => match parse_each(r1, (n - 1) as nat) {
                Some((es, r2)) => Some((seq![e] + es, r2)),
                None => None,
            },
            None => None,
        }
    }
}

/// Every name in `entries` is short enough for its length to be written down.
pub open spec fn entries_fit(entries: Seq<DirEntryView>) -> bool {
    forall|i: int| 0 <= i < entries.len() ==> text_fits(#[trigger] entries[i].name)
}

/// Reading the byte forms of as many entries as were written gives the
/// entries back, and the bytes that followed them.
pub proof fn lemma_each(entries: Seq<DirEntryView>, rest: Seq<u8>)
    requires
        entries_fit(entries),
    ensures
        parse_each(ser_each(entries) + rest, entries.len()) == Some((entries, rest)),
    decreases entries.len(),
{
    if entries.len() == 0 {
        assert(ser_each(entries) + rest =~= rest);
        assert(entries =~= Seq::<DirEntryView>::empty());
    } else {
        let e = entries[0];
        let tail = entries.drop_first();
        assert(ser_each(entries) + rest =~= ser_entry(e) + (ser_each(tail) + rest));
        lemma_entry(e, ser_each(tail) + rest);
        lemma_each(tail, rest);
        assert(seq![e] + tail =~= entries);
    }
}

/// The byte form of a listing: the number of its entries, then the entries.
pub open spec fn ser_entries(entries: Seq<DirEntryView>) -> Seq<u8> {
    ser_u64(entries.len() as u64) + ser_each(entries)
}

/// The listing at the front of `b`.
pub open spec fn parse_entries(b: Seq<u8>) -> Option<(Seq<DirEntryView>, Seq<u8>)> {
    match parse_u64(b) {
        Some((n, r1)) => parse_each(r1, n as nat),
        None => None,
    }
}

/// Reading the byte form of a listing gives it back, and the bytes that
/// followed it.
pub proof fn lemma_entries(entries: Seq<DirEntryView>, rest: Seq<u8>)
    requires
        entries.len() <= u64::MAX,
        entries_fit(entries),
    ensures
        parse_entries(ser_entries(entries) + rest) == Some((entries, rest)),
{
    assert(ser_entries(entries) + rest =~= ser_u64(entries.len() as u64) + (ser_each(entries)
        + rest));
    lemma_u64(entries.len() as u64, ser_each(entries) + rest);
    lemma_each(entries, rest);
}

} // verus!
