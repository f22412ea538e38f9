//! Whole messages on the wire: a tag byte, then the fields.

use vstd::prelude::*;
use crate::attr::FileAttr;
use crate::message::{Changes, DirEntryView, Operation, RequestView, ResponseView};
use crate::wire::record::{
    entries_fit, lemma_attr, lemma_changes, lemma_entries, parse_attr, parse_changes,
    parse_entries, ser_attr, ser_changes, ser_entries,
};
use crate::wire::scalar::{
    lemma_assoc, lemma_bytes, lemma_i32, lemma_i64, lemma_text, lemma_u32, lemma_u64, lemma_u8,
    parse_bytes, parse_i32, parse_i64, parse_text, parse_u32, parse_u64, parse_u8, ser_bytes,
    ser_i32, ser_i64, ser_text, ser_u32, ser_u64, ser_u8, text_fits,
};

verus! {

/// The tag byte of an operation.
pub open spec fn op_code(op: Operation) -> u8 {
    match op {
        Operation::Mount => 1,
        Operation::Lookup => 2,
        Operation::Getattr => 3,
        Operation::Read => 4,
        Operation::ReadDir => 5,
        Operation::Readlink => 6,
        Operation::Write => 7,
        Operation::Mknod => 8,
        Operation::Mkdir => 9,
        Operation::Unlink => 10,
        Operation::Rename => 11,
        Operation::Setattr => 12,
    }
}

/// The operation that the tag byte `code` stands for.
pub open spec fn op_of(code: u8) -> Option<Operation> {
    if code == 1 {
        Some(Operation::Mount)
    } else if code == 2 {
        Some(Operation::Lookup)
    } else if code == 3 {
        Some(Operation::Getattr)
    } else if code == 4 {
        Some(Operation::Read)
    } else if code == 5 {
        Some(Operation::ReadDir)
    } else if code == 6 {
        Some(Operation::Readlink)
    } else if code == 7 {
        Some(Operation::Write)
    } else if code == 8 {
        Some(Operation::Mknod)
    } else if code == 9 {
        Some(Operation::Mkdir)
    } else if code == 10 {
        Some(Operation::Unlink)
    } else if code == 11 {
        Some(Operation::Rename)
    } else if code == 12 {
        Some(Operation::Setattr)
    } else {
        None
    }
}

/// Every operation is the one that its tag byte stands for, and no tag byte
/// is zero.
pub proof fn lemma_op(op: Operation)
    ensures
        op_of(op_code(op)) == Some(op),
        op_code(op) != 0,
{
}

/// The byte form of the fields of a request, in order.
pub open spec fn ser_request_fields(r: RequestView) -> Seq<u8> {
    match r {
        RequestView::Mount(greeting) => ser_text(greeting),
        RequestView::Lookup(parent, name) => ser_u64(parent) + ser_text(name),
        RequestView::Getattr(ino) => ser_u64(ino),
        RequestView::Read(ino, offset, size) => ser_u64(ino) + ser_i64(offset) + ser_u32(size),
        RequestView::ReadDir(ino, offset) => ser_u64(ino) + ser_i64(offset),
        RequestView::Readlink(ino) => ser_u64(ino),
        RequestView::Write(ino, offset, data) => ser_u64(ino) + ser_i64(offset) + ser_bytes(data),
        RequestView::Mknod(parent, name, mode, umask, rdev) => ser_u64(parent)
            + ser_text(name)
            + ser_u32(mode)
            + ser_u32(umask)
            + ser_u32(rdev),
        RequestView::Mkdir(parent, name, mode, umask) => ser_u64(parent)
            + ser_text(name)
            + ser_u32(mode)
            + ser_u32(umask),
        RequestView::Unlink(parent, name) => ser_u64(parent) + ser_text(name),
        RequestView::Rename(parent, name, newparent, newname, flags) => ser_u64(parent)
            + ser_text(name)
            + ser_u64(newparent)
            + ser_text(newname)
            + ser_u32(flags),
        RequestView::Setattr(ino, changes) => ser_u64(ino) + ser_changes(changes),
    }
}

/// The byte form of a request: the tag of its operation, then its fields.
pub open spec fn ser_request(r: RequestView) -> Seq<u8> {
    ser_u8(op_code(r.operation())) + ser_request_fields(r)
}

/// The fields of a request for `op` at the front of `b`.
pub open spec fn parse_request_fields(op: Operation, b: Seq<u8>) -> Option<(RequestView, Seq<u8>)> {
    match op {
        Operation::Mount => match parse_text(b) {
            Some((greeting, r1)) => Some((RequestView::Mount(greeting), r1)),
            None => None,
        },
        Operation::Lookup => match parse_u64(b) {
            Some((parent, r1)) => match parse_text(r1) {
                Some((name, r2)) => Some((RequestView::Lookup(parent, name), r2)),
                None => None,
            },
            None => None,
        },
        Operation::Getattr => match parse_u64(b) {
            Some((ino, r1)) => Some((RequestView::Getattr(ino), r1)),
            None => None,
        },
        Operation::Read => match parse_u64(b) {
            Some((ino, r1)) => match parse_i64(r1) {
                Some((offset, r2)) => match parse_u32(r2) {
                    Some((size, r3)) => Some((RequestView::Read(ino, offset, size), r3)),
                    None => None,
                },
                None => None,
            },
            None => None,
        },
        Operation::ReadDir => match parse_u64(b) {
            Some((ino, r1)) => match parse_i64(r1) {
                Some((offset, r2)) => Some((RequestView::ReadDir(ino, offset), r2)),
                None => None,
            },
            None => None,
        },
        Operation::Readlink => match parse_u64(b) {
            Some((ino, r1)) => Some((RequestView::Readlink(ino), r1)),
            None => None,
        },
        Operation::Write => match parse_u64(b) {
            Some((ino, r1)) => match parse_i64(r1) {
                Some((offset, r2)) => match parse_bytes(r2) {
                    Some((data, r3)) => Some((RequestView::Write(ino, offset, data), r3)),
                    None => None,
                },
                None => None,
            },
            None => None,
        },
        Operation::Mknod => match parse_u64(b) {
            Some((parent, r1)) => match parse_text(r1) {
                Some((name, r2)) => match parse_u32(r2) {
                    Some((mode, r3)) => match parse_u32(r3) {
                        Some((umask, r4)) => match parse_u32(r4) {
                            Some((rdev, r5)) => Some(
                                (RequestView::Mknod(parent, name, mode, umask, rdev), r5),
                            ),
                            None => None,
                        },
                        None => None,
                    },
                    None => None,
                },
                None => None,
            },
            None => None,
        },
        Operation::Mkdir => match parse_u64(b) {
            Some((parent, r1)) => match parse_text(r1) {
                Some((name, r2)) => match parse_u32(r2) {
                    Some((mode, r3)) => match parse_u32(r3) {
                        Some((umask, r4)) => Some(
                            (RequestView::Mkdir(parent, name, mode, umask), r4),
                        ),
                        None => None,
                    },
                    None => None,
                },
                None => None,
            },
            None => None,
        },
        Operation::Unlink => match parse_u64(b) {
            Some((parent, r1)) => match parse_text(r1) {
                Some((name, r2)) => Some((RequestView::Unlink(parent, name), r2)),
                None => None,
            },
            None => None,
        },
        Operation::Rename => match parse_u64(b) {
            Some((parent, r1)) => match parse_text(r1) {
                Some((name, r2)) => match parse_u64(r2) {
                    Some((newparent, r3)) => match parse_text(r3) {
                        Some((newname, r4)) => match parse_u32(r4) {
                            Some((flags, r5)) => Some(
                                (RequestView::Rename(parent, name, newparent, newname, flags), r5),
                            ),
                            None => None,
                        },
                        None => None,
                    },
                    None => None,
                },
                None => None,
            },
            None => None,
        },
        Operation::Setattr => match parse_u64(b) {
            Some((ino, r1)) => match parse_changes(r1) {
                Some((changes, r2)) => Some((RequestView::Setattr(ino, changes), r2)),
                None => None,
            },
            None => None,
        },
    }
}

/// The request at the front of `b`.
pub open spec fn parse_request(b: Seq<u8>) -> Option<(RequestView, Seq<u8>)> {
    match parse_u8(b) {
        Some((code, r1)) => match op_of(code) {
            Some(op) => parse_request_fields(op, r1),
            None => None,
        },
        None => None,
    }
}

/// The request that `b` is the byte form of, if it is one: `b` must hold one
/// request and nothing after it.
pub open spec fn request_of(b: Seq<u8>) -> Option<RequestView> {
    match parse_request(b) {
        Some((r, rest)) => if rest.len() == 0 {
            Some(r)
        } else {
            None
        },
        None => None,
    }
}

/// Every text and byte string in `r` is short enough for its length to be
/// written down.
pub open spec fn request_fits(r: RequestView) -> bool {
    match r {
        RequestView::Mount(greeting) => text_fits(greeting),
        RequestView::Lookup(_, name) => text_fits(name),
        RequestView::Write(_, _, data) => data.len() <= u64::MAX,
        RequestView::Mknod(_, name, _, _, _) => text_fits(name),
        RequestView::Mkdir(_, name, _, _) => text_fits(name),
        RequestView::Unlink(_, name) => text_fits(name),
        RequestView::Rename(_, name, _, newname, _) => text_fits(name) && text_fits(newname),
        _ => true,
    }
}

/// The fields of a `Mount` request read back.
proof fn lemma_request_mount(greeting: Seq<char>, rest: Seq<u8>)
    requires
        request_fits(RequestView::Mount(greeting)),
    ensures
        parse_request_fields(
            Operation::Mount,
            ser_request_fields(RequestView::Mount(greeting)) + rest,
        ) == Some(
            (RequestView::Mount(greeting), rest),
        ),
{
    let k1 = rest;
    let h1 = ser_text(greeting);
    lemma_text(greeting, k1);
}

/// The fields of a `Lookup` request read back.
proof fn lemma_request_lookup(parent: u64, name: Seq<char>, rest: Seq<u8>)
    requires
        request_fits(RequestView::Lookup(parent, name)),
    ensures
        parse_request_fields(
            Operation::Lookup,
            ser_request_fields(RequestView::Lookup(parent, name)) + rest,
        ) == Some(
            (RequestView::Lookup(parent, name), rest),
        ),
{
    let k2 = rest;
    let k1 = ser_text(name) + k2;
    let h1 = ser_u64(parent);
    let h2 = h1 + ser_text(name);
    lemma_assoc(h1, ser_text(name), k2);
    lemma_text(name, k2);
    lemma_u64(parent, k1);
}

/// The fields of a `Getattr` request read back.
proof fn lemma_request_getattr(ino: u64, rest: Seq<u8>)
    requires
        request_fits(RequestView::Getattr(ino)),
    ensures
        parse_request_fields(
            Operation::Getattr,
            ser_request_fields(RequestView::Getattr(ino)) + rest,
        ) == Some(
            (RequestView::Getattr(ino), rest),
        ),
{
    let k1 = rest;
    let h1 = ser_u64(ino);
    lemma_u64(ino, k1);
}

/// The fields of a `Read` request read back.
proof fn lemma_request_read(ino: u64, offset: i64, size: u32, rest: Seq<u8>)
    requires
        request_fits(RequestView::Read(ino, offset, size)),
    ensures
        parse_request_fields(
            Operation::Read,
            ser_request_fields(RequestView::Read(ino, offset, size)) + rest,
        ) == Some(
            (RequestView::Read(ino, offset, size), rest),
        ),
{
    let k3 = rest;
    let k2 = ser_u32(size) + k3;
    let k1 = ser_i64(offset) + k2;
    let h1 = ser_u64(ino);
    let h2 = h1 + ser_i64(offset);
    let h3 = h2 + ser_u32(size);
    lemma_assoc(h2, ser_u32(size), k3);
    lemma_assoc(h1, ser_i64(offset), k2);
    lemma_u32(size, k3);
    lemma_i64(offset, k2);
    lemma_u64(ino, k1);
}

/// The fields of a `ReadDir` request read back.
proof fn lemma_request_readdir(ino: u64, offset: i64, rest: Seq<u8>)
    requires
        request_fits(RequestView::ReadDir(ino, offset)),
    ensures
        parse_request_fields(
            Operation::ReadDir,
            ser_request_fields(RequestView::ReadDir(ino, offset)) + rest,
        ) == Some(
            (RequestView::ReadDir(ino, offset), rest),
        ),
{
    let k2 = rest;
    let k1 = ser_i64(offset) + k2;
    let h1 = ser_u64(ino);
    let h2 = h1 + ser_i64(offset);
    lemma_assoc(h1, ser_i64(offset), k2);
    lemma_i64(offset, k2);
    lemma_u64(ino, k1);
}

/// The fields of a `Readlink` request read back.
proof fn lemma_request_readlink(ino: u64, rest: Seq<u8>)
    requires
        request_fits(RequestView::Readlink(ino)),
    ensures
        parse_request_fields(
            Operation::Readlink,
            ser_request_fields(RequestView::Readlink(ino)) + rest,
        ) == Some(
            (RequestView::Readlink(ino), rest),
        ),
{
    let k1 = rest;
    let h1 = ser_u64(ino);
    lemma_u64(ino, k1);
}

/// The fields of a `Write` request read back.
proof fn lemma_request_write(ino: u64, offset: i64, data: Seq<u8>, rest: Seq<u8>)
    requires
        request_fits(RequestView::Write(ino, offset, data)),
    ensures
        parse_request_fields(
            Operation::Write,
            ser_request_fields(RequestView::Write(ino, offset, data)) + rest,
        ) == Some(
            (RequestView::Write(ino, offset, data), rest),
        ),
{
    let k3 = rest;
    let k2 = ser_bytes(data) + k3;
    let k1 = ser_i64(offset) + k2;
    let h1 = ser_u64(ino);
    let h2 = h1 + ser_i64(offset);
    let h3 = h2 + ser_bytes(data);
    lemma_assoc(h2, ser_bytes(data), k3);
    lemma_assoc(h1, ser_i64(offset), k2);
    lemma_bytes(data, k3);
    lemma_i64(offset, k2);
    lemma_u64(ino, k1);
}

/// The fields of a `Mknod` request read back.
proof fn lemma_request_mknod(
    parent: u64,
    name: Seq<char>,
    mode: u32,
    umask: u32,
    rdev: u32,
    rest: Seq<u8>,
)
    requires
        request_fits(RequestView::Mknod(parent, name, mode, umask, rdev)),
    ensures
        parse_request_fields(
            Operation::Mknod,
            ser_request_fields(RequestView::Mknod(parent, name, mode, umask, rdev)) + rest,
        ) == Some(
            (RequestView::Mknod(parent, name, mode, umask, rdev), rest),
        ),
{
    let k5 = rest;
    let k4 = ser_u32(rdev) + k5;
    let k3 = ser_u32(umask) + k4;
    let k2 = ser_u32(mode) + k3;
    let k1 = ser_text(name) + k2;
    let h1 = ser_u64(parent);
    let h2 = h1 + ser_text(name);
    let h3 = h2 + ser_u32(mode);
    let h4 = h3 + ser_u32(umask);
    let h5 = h4 + ser_u32(rdev);
    lemma_assoc(h4, ser_u32(rdev), k5);
    lemma_assoc(h3, ser_u32(umask), k4);
    lemma_assoc(h2, ser_u32(mode), k3);
    lemma_assoc(h1, ser_text(name), k2);
    lemma_u32(rdev, k5);
    lemma_u32(umask, k4);
    lemma_u32(mode, k3);
    lemma_text(name, k2);
    lemma_u64(parent, k1);
}

/// The fields of a `Mkdir` request read back.
proof fn lemma_request_mkdir(parent: u64, name: Seq<char>, mode: u32, umask: u32, rest: Seq<u8>)
    requires
        request_fits(RequestView::Mkdir(parent, name, mode, umask)),
    ensures
        parse_request_fields(
            Operation::Mkdir,
            ser_request_fields(RequestView::Mkdir(parent, name, mode, umask)) + rest,
        ) == Some(
            (RequestView::Mkdir(parent, name, mode, umask), rest),
        ),
{
    let k4 = rest;
    let k3 = ser_u32(umask) + k4;
    let k2 = ser_u32(mode) + k3;
    let k1 = ser_text(name) + k2;
    let h1 = ser_u64(parent);
    let h2 = h1 + ser_text(name);
    let h3 = h2 + ser_u32(mode);
    let h4 = h3 + ser_u32(umask);
    lemma_assoc(h3, ser_u32(umask), k4);
    lemma_assoc(h2, ser_u32(mode), k3);
    lemma_assoc(h1, ser_text(name), k2);
    lemma_u32(umask, k4);
    lemma_u32(mode, k3);
    lemma_text(name, k2);
    lemma_u64(parent, k1);
}

/// The fields of an `Unlink` request read back.
proof fn lemma_request_unlink(parent: u64, name: Seq<char>, rest: Seq<u8>)
    requires
        request_fits(RequestView::Unlink(parent, name)),
    ensures
        parse_request_fields(
            Operation::Unlink,
            ser_request_fields(RequestView::Unlink(parent, name)) + rest,
        ) == Some(
            (RequestView::Unlink(parent, name), rest),
        ),
{
    let k2 = rest;
    let k1 = ser_text(name) + k2;
    let h1 = ser_u64(parent);
    let h2 = h1 + ser_text(name);
    lemma_assoc(h1, ser_text(name), k2);
    lemma_text(name, k2);
    lemma_u64(parent, k1);
}

/// The fields of a `Rename` request read back.
proof fn lemma_request_rename(
    parent: u64,
    name: Seq<char>,
    newparent: u64,
    newname: Seq<char>,
    flags: u32,
    rest: Seq<u8>,
)
    requires
        request_fits(RequestView::Rename(parent, name, newparent, newname, flags)),
    ensures
        parse_request_fields(
            Operation::Rename,
            ser_request_fields(RequestView::Rename(parent, name, newparent, newname, flags)) + rest,
        ) == Some(
            (RequestView::Rename(parent, name, newparent, newname, flags), rest),
        ),
{
    let k5 = rest;
    let k4 = ser_u32(flags) + k5;
    let k3 = ser_text(newname) + k4;
    let k2 = ser_u64(newparent) + k3;
    let k1 = ser_text(name) + k2;
    let h1 = ser_u64(parent);
    let h2 = h1 + ser_text(name);
    let h3 = h2 + ser_u64(newparent);
    let h4 = h3 + ser_text(newname);
    let h5 = h4 + ser_u32(flags);
    lemma_assoc(h4, ser_u32(flags), k5);
    lemma_assoc(h3, ser_text(newname), k4);
    lemma_assoc(h2, ser_u64(newparent), k3);
    lemma_assoc(h1, ser_text(name), k2);
    lemma_u32(flags, k5);
    lemma_text(newname, k4);
    lemma_u64(newparent, k3);
    lemma_text(name, k2);
    lemma_u64(parent, k1);
}

/// The fields of a `Setattr` request read back.
proof fn lemma_request_setattr(ino: u64, changes: Changes, rest: Seq<u8>)
    requires
        request_fits(RequestView::Setattr(ino, changes)),
    ensures
        parse_request_fields(
            Operation::Setattr,
            ser_request_fields(RequestView::Setattr(ino, changes)) + rest,
        ) == Some(
            (RequestView::Setattr(ino, changes), rest),
        ),
{
    let k2 = rest;
    let k1 = ser_changes(changes) + k2;
    let h1 = ser_u64(ino);
    let h2 = h1 + ser_changes(changes);
    lemma_assoc(h1, ser_changes(changes), k2);
    lemma_changes(changes, k2);
    lemma_u64(ino, k1);
}

/// Reading the fields of a request gives them back, and the bytes that
/// followed them.
pub proof fn lemma_request_fields(r: RequestView, rest: Seq<u8>)
    requires
        request_fits(r),
    ensures
        parse_request_fields(r.operation(), ser_request_fields(r) + rest) == Some((r, rest)),
{
    match r {
        RequestView::Mount(greeting) => {
            lemma_request_mount(greeting, rest);
        },
        RequestView::Lookup(parent, name) => {
            lemma_request_lookup(parent, name, rest);
        },
        RequestView::Getattr(ino) => {
            lemma_request_getattr(ino, rest);
        },
        RequestView::Read(ino, offset, size) => {
            lemma_request_read(ino, offset, size, rest);
        },
        RequestView::ReadDir(ino, offset) => {
            lemma_request_readdir(ino, offset, rest);
        },
        RequestView::Readlink(ino) => {
            lemma_request_readlink(ino, rest);
        },
        RequestView::Write(ino, offset, data) => {
            lemma_request_write(ino, offset, data, rest);
        },
        RequestView::Mknod(parent, name, mode, umask, rdev) => {
            lemma_request_mknod(parent, name, mode, umask, rdev, rest);
        },
        RequestView::Mkdir(parent, name, mode, umask) => {
            lemma_request_mkdir(parent, name, mode, umask, rest);
        },
        RequestView::Unlink(parent, name) => {
            lemma_request_unlink(parent, name, rest);
        },
        RequestView::Rename(parent, name, newparent, newname, flags) => {
            lemma_request_rename(parent, name, newparent, newname, flags, rest);
        },
        RequestView::Setattr(ino, changes) => {
            lemma_request_setattr(ino, changes, rest);
        },
    }
}

/// Reading the byte form of a request gives the request back, and the bytes
/// that followed it.
pub proof fn lemma_request(r: RequestView, rest: Seq<u8>)
    requires
        request_fits(r),
    ensures
        parse_request(ser_request(r) + rest) == Some((r, rest)),
{
    lemma_assoc(ser_u8(op_code(r.operation())), ser_request_fields(r), rest);
    lemma_u8(op_code(r.operation()), ser_request_fields(r) + rest);
    lemma_op(r.operation());
    lemma_request_fields(r, rest);
}

/// The byte form of the payload of a success response.
pub open spec fn ser_response_fields(r: ResponseView) -> Seq<u8> {
    match r {
        ResponseView::Mount(id) => ser_text(id),
        ResponseView::Lookup(attr) => ser_attr(attr),
        ResponseView::Getattr(attr) => ser_attr(attr),
        ResponseView::Read(data) => ser_bytes(data),
        ResponseView::ReadDir(entries) => ser_entries(entries),
        ResponseView::Readlink(target) => ser_bytes(target),
        ResponseView::Write(count) => ser_u32(count),
        ResponseView::Mknod(attr) => ser_attr(attr),
        ResponseView::Mkdir(attr) => ser_attr(attr),
        ResponseView::Unlink => Seq::<u8>::empty(),
        ResponseView::Rename => Seq::<u8>::empty(),
        ResponseView::Setattr(attr) => ser_attr(attr),
        ResponseView::Error(_) => Seq::<u8>::empty(),
    }
}

/// The byte form of a response: a zero byte and the code for the error
/// response, else the tag of the operation and the payload.
pub open spec fn ser_response(r: ResponseView) -> Seq<u8> {
    match r {
        ResponseView::Error(code) => ser_u8(0) + ser_i32(code),
        _ => ser_u8(op_code(r.answers().unwrap())) + ser_response_fields(r),
    }
}

/// The payload of a success response for `op` at the front of `b`.
pub open spec fn parse_response_fields(op: Operation, b: Seq<u8>) -> Option<
    (ResponseView, Seq<u8>),
> {
    match op {
        Operation::Mount => match parse_text(b) {
            Some((id, r1)) => Some((ResponseView::Mount(id), r1)),
            None => None,
        },
        Operation::Lookup => match parse_attr(b) {
            Some((attr, r1)) => Some((ResponseView::Lookup(attr), r1)),
            None => None,
        },
        Operation::Getattr => match parse_attr(b) {
            Some((attr, r1)) => Some((ResponseView::Getattr(attr), r1)),
            None => None,
        },
        Operation::Read => match parse_bytes(b) {
            Some((data, r1)) => Some((ResponseView::Read(data), r1)),
            None => None,
        },
        Operation::ReadDir => match parse_entries(b) {
            Some((entries, r1)) => Some((ResponseView::ReadDir(entries), r1)),
            None => None,
        },
        Operation::Readlink => match parse_bytes(b) {
            Some((target, r1)) => Some((ResponseView::Readlink(target), r1)),
            None => None,
        },
        Operation::Write => match parse_u32(b) {
            Some((count, r1)) => Some((ResponseView::Write(count), r1)),
            None => None,
        },
        Operation::Mknod => match parse_attr(b) {
            Some((attr, r1)) => Some((ResponseView::Mknod(attr), r1)),
            None => None,
        },
        Operation::Mkdir => match parse_attr(b) {
            Some((attr, r1)) => Some((ResponseView::Mkdir(attr), r1)),
            None => None,
        },
        Operation::Unlink => Some((ResponseView::Unlink, b)),
        Operation::Rename => Some((ResponseView::Rename, b)),
        Operation::Setattr => match parse_attr(b) {
            Some((attr, r1)) => Some((ResponseView::Setattr(attr), r1)),
            None => None,
        },
    }
}

/// The response at the front of `b`.
pub open spec fn parse_response(b: Seq<u8>) -> Option<(ResponseView, Seq<u8>)> {
    match parse_u8(b) {
        Some((code, r1)) => if code == 0 {
            match parse_i32(r1) {
                Some((error, r2)) => Some((ResponseView::Error(error), r2)),
                None => None,
            }
        } else {
            match op_of(code) {
                Some(op) => parse_response_fields(op, r1),
                None => None,
            }
        },
        None => None,
    }
}

/// The response that `b` is the byte form of, if it is one: `b` must hold one
/// response and nothing after it.
pub open spec fn response_of(b: Seq<u8>) -> Option<ResponseView> {
    match parse_response(b) {
        Some((r, rest)) => if rest.len() == 0 {
            Some(r)
        } else {
            None
        },
        None => None,
    }
}

/// Every text, byte string and listing in `r` is short enough for its length
/// to be written down.
pub open spec fn response_fits(r: ResponseView) -> bool {
    match r {
        ResponseView::Mount(id) => text_fits(id),
        ResponseView::Read(data) => data.len() <= u64::MAX,
        ResponseView::ReadDir(entries) => entries.len() <= u64::MAX && entries_fit(entries),
        ResponseView::Readlink(target) => target.len() <= u64::MAX,
        _ => true,
    }
}

/// The payload of a `Mount` response read back.
proof fn lemma_response_mount(id: Seq<char>, rest: Seq<u8>)
    requires
        response_fits(ResponseView::Mount(id)),
    ensures
        parse_response_fields(
            Operation::Mount,
            ser_response_fields(ResponseView::Mount(id)) + rest,
        ) == Some(
            (ResponseView::Mount(id), rest),
        ),
{
    let k1 = rest;
    let h1 = ser_text(id);
    lemma_text(id, k1);
}

/// The payload of a `Lookup` response read back.
proof fn lemma_response_lookup(attr: FileAttr, rest: Seq<u8>)
    requires
        response_fits(ResponseView::Lookup(attr)),
    ensures
        parse_response_fields(
            Operation::Lookup,
            ser_response_fields(ResponseView::Lookup(attr)) + rest,
        ) == Some(
            (ResponseView::Lookup(attr), rest),
        ),
{
    let k1 = rest;
    let h1 = ser_attr(attr);
    lemma_attr(attr, k1);
}

/// The payload of a `Getattr` response read back.
proof fn lemma_response_getattr(attr: FileAttr, rest: Seq<u8>)
    requires
        response_fits(ResponseView::Getattr(attr)),
    ensures
        parse_response_fields(
            Operation::Getattr,
            ser_response_fields(ResponseView::Getattr(attr)) + rest,
        ) == Some(
            (ResponseView::Getattr(attr), rest),
        ),
{
    let k1 = rest;
    let h1 = ser_attr(attr);
    lemma_attr(attr, k1);
}

/// The payload of a `Read` response read back.
proof fn lemma_response_read(data: Seq<u8>, rest: Seq<u8>)
    requires
        response_fits(ResponseView::Read(data)),
    ensures
        parse_response_fields(
            Operation::Read,
            ser_response_fields(ResponseView::Read(data)) + rest,
        ) == Some(
            (ResponseView::Read(data), rest),
        ),
{
    let k1 = rest;
    let h1 = ser_bytes(data);
    lemma_bytes(data, k1);
}

/// The payload of a `ReadDir` response read back.
proof fn lemma_response_readdir(entries: Seq<DirEntryView>, rest: Seq<u8>)
    requires
        response_fits(ResponseView::ReadDir(entries)),
    ensures
        parse_response_fields(
            Operation::ReadDir,
            ser_response_fields(ResponseView::ReadDir(entries)) + rest,
        ) == Some(
            (ResponseView::ReadDir(entries), rest),
        ),
{
    let k1 = rest;
    let h1 = ser_entries(entries);
    lemma_entries(entries, k1);
}

/// The payload of a `Readlink` response read back.
proof fn lemma_response_readlink(target: Seq<u8>, rest: Seq<u8>)
    requires
        response_fits(ResponseView::Readlink(target)),
    ensures
        parse_response_fields(
            Operation::Readlink,
            ser_response_fields(ResponseView::Readlink(target)) + rest,
        ) == Some(
            (ResponseView::Readlink(target), rest),
        ),
{
    let k1 = rest;
    let h1 = ser_bytes(target);
    lemma_bytes(target, k1);
}

/// The payload of a `Write` response read back.
proof fn lemma_response_write(count: u32, rest: Seq<u8>)
    requires
        response_fits(ResponseView::Write(count)),
    ensures
        parse_response_fields(
            Operation::Write,
            ser_response_fields(ResponseView::Write(count)) + rest,
        ) == Some(
            (ResponseView::Write(count), rest),
        ),
{
    let k1 = rest;
    let h1 = ser_u32(count);
    lemma_u32(count, k1);
}

/// The payload of a `Mknod` response read back.
proof fn lemma_response_mknod(attr: FileAttr, rest: Seq<u8>)
    requires
        response_fits(ResponseView::Mknod(attr)),
    ensures
        parse_response_fields(
            Operation::Mknod,
            ser_response_fields(ResponseView::Mknod(attr)) + rest,
        ) == Some(
            (ResponseView::Mknod(attr), rest),
        ),
{
    let k1 = rest;
    let h1 = ser_attr(attr);
    lemma_attr(attr, k1);
}

/// The payload of a `Mkdir` response read back.
proof fn lemma_response_mkdir(attr: FileAttr, rest: Seq<u8>)
    requires
        response_fits(ResponseView::Mkdir(attr)),
    ensures
        parse_response_fields(
            Operation::Mkdir,
            ser_response_fields(ResponseView::Mkdir(attr)) + rest,
        ) == Some(
            (ResponseView::Mkdir(attr), rest),
        ),
{
    let k1 = rest;
    let h1 = ser_attr(attr);
    lemma_attr(attr, k1);
}

/// The payload of an `Unlink` response read back.
proof fn lemma_response_unlink(rest: Seq<u8>)
    requires
        response_fits(ResponseView::Unlink),
    ensures
        parse_response_fields(
            Operation::Unlink,
            ser_response_fields(ResponseView::Unlink) + rest,
        ) == Some(
            (ResponseView::Unlink, rest),
        ),
{
    assert(ser_response_fields(ResponseView::Unlink) + rest =~= rest);
}

/// The payload of a `Rename` response read back.
proof fn lemma_response_rename(rest: Seq<u8>)
    requires
        response_fits(ResponseView::Rename),
    ensures
        parse_response_fields(
            Operation::Rename,
            ser_response_fields(ResponseView::Rename) + rest,
        ) == Some(
            (ResponseView::Rename, rest),
        ),
{
    assert(ser_response_fields(ResponseView::Rename) + rest =~= rest);
}

/// The payload of a `Setattr` response read back.
proof fn lemma_response_setattr(attr: FileAttr, rest: Seq<u8>)
    requires
        response_fits(ResponseView::Setattr(attr)),
    ensures
        parse_response_fields(
            Operation::Setattr,
            ser_response_fields(ResponseView::Setattr(attr)) + rest,
        ) == Some(
            (ResponseView::Setattr(attr), rest),
        ),
{
    let k1 = rest;
    let h1 = ser_attr(attr);
    lemma_attr(attr, k1);
}

/// Reading the payload of a success response gives it back, and the bytes
/// that followed it.
pub proof fn lemma_response_fields(r: ResponseView, rest: Seq<u8>)
    requires
        response_fits(r), r.answers() is Some,
    ensures
        parse_response_fields(r.answers().unwrap(), ser_response_fields(r) + rest) == Some(
            (r, rest),
        ),
{
    match r {
        ResponseView::Mount(id) => {
            lemma_response_mount(id, rest);
        },
        ResponseView::Lookup(attr) => {
            lemma_response_lookup(attr, rest);
        },
        ResponseView::Getattr(attr) => {
            lemma_response_getattr(attr, rest);
        },
        ResponseView::Read(data) => {
            lemma_response_read(data, rest);
        },
        ResponseView::ReadDir(entries) => {
            lemma_response_readdir(entries, rest);
        },
        ResponseView::Readlink(target) => {
            lemma_response_readlink(target, rest);
        },
        ResponseView::Write(count) => {
            lemma_response_write(count, rest);
        },
        ResponseView::Mknod(attr) => {
            lemma_response_mknod(attr, rest);
        },
        ResponseView::Mkdir(attr) => {
            lemma_response_mkdir(attr, rest);
        },
        ResponseView::Unlink => {
            lemma_response_unlink(rest);
        },
        ResponseView::Rename => {
            lemma_response_rename(rest);
        },
        ResponseView::Setattr(attr) => {
            lemma_response_setattr(attr, rest);
        },
        ResponseView::Error(_) => {},
    }
}

/// Reading the byte form of a response gives the response back, and the bytes
/// that followed it.
pub proof fn lemma_response(r: ResponseView, rest: Seq<u8>)
    requires
        response_fits(r),
    ensures
        parse_response(ser_response(r) + rest) == Some((r, rest)),
{
    match r {
        ResponseView::Error(code) => {
            lemma_assoc(ser_u8(0), ser_i32(code), rest);
            lemma_u8(0, ser_i32(code) + rest);
            lemma_i32(code, rest);
        },
        _ => {
            let op = r.answers().unwrap();
            lemma_assoc(ser_u8(op_code(op)), ser_response_fields(r), rest);
            lemma_u8(op_code(op), ser_response_fields(r) + rest);
            lemma_op(op);
            lemma_response_fields(r, rest);
        },
    }
}

} // verus!
