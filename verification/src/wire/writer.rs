//! Writing the byte form of a value at the end of a buffer.

use vstd::prelude::*;
use vstd::bytes::*;
use vstd::slice::slice_to_vec;
use crate::attr::{FileAttr, FileType, Timestamp};
use crate::message::{entries_view, Changes, DirEntry, Operation, Request, Response};
use crate::wire::frame::{
    lemma_request, lemma_response, op_code, request_fits, request_of, response_fits, response_of,
    ser_request, ser_response,
};
use crate::wire::record::{
    entries_fit, kind_code, ser_attr, ser_changes, ser_each, ser_entries, ser_entry, ser_kind,
    ser_opt_time, ser_opt_u32, ser_opt_u64, ser_time,
};
use crate::wire::scalar::{
    lemma_assoc, ser_bytes, ser_i32, ser_i64, ser_text, ser_u16, ser_u32, ser_u64, ser_u8,
    text_fits,
};

verus! {

/// Writes a byte at the end of `out`.
pub(crate) fn put_u8(out: &mut Vec<u8>, x: u8)
    ensures
        final(out)@ == old(out)@ + ser_u8(x),
{
    out.push(x);
    assert(out@ =~= old(out)@ + ser_u8(x));
}

/// Writes a 16-bit number at the end of `out`.
pub(crate) fn put_u16(out: &mut Vec<u8>, x: u16)
    ensures
        final(out)@ == old(out)@ + ser_u16(x),
{
    let mut bytes = u16_to_le_bytes(x);
    out.append(&mut bytes);
}

/// Writes a 32-bit number at the end of `out`.
pub(crate) fn put_u32(out: &mut Vec<u8>, x: u32)
    ensures
        final(out)@ == old(out)@ + ser_u32(x),
{
    let mut bytes = u32_to_le_bytes(x);
    out.append(&mut bytes);
}

/// Writes a 64-bit number at the end of `out`.
pub(crate) fn put_u64(out: &mut Vec<u8>, x: u64)
    ensures
        final(out)@ == old(out)@ + ser_u64(x),
{
    let mut bytes = u64_to_le_bytes(x);
    out.append(&mut bytes);
}

/// Writes a signed 32-bit number at the end of `out`.
pub(crate) fn put_i32(out: &mut Vec<u8>, x: i32)
    ensures
        final(out)@ == old(out)@ + ser_i32(x),
{
    put_u32(out, x as u32);
}

/// Writes a signed 64-bit number at the end of `out`.
pub(crate) fn put_i64(out: &mut Vec<u8>, x: i64)
    ensures
        final(out)@ == old(out)@ + ser_i64(x),
{
    put_u64(out, x as u64);
}

/// Writes a byte string at the end of `out`.
pub(crate) fn put_bytes(out: &mut Vec<u8>, data: &[u8])
    ensures
        final(out)@ == old(out)@ + ser_bytes(data@),
        data@.len() <= u64::MAX,
{
    put_u64(out, data.len() as u64);
    let mut copy = slice_to_vec(data);
    out.append(&mut copy);
    proof {
        lemma_assoc(old(out)@, ser_u64(data@.len() as u64), data@);
    }
}

/// Writes a text at the end of `out`.
pub(crate) fn put_text(out: &mut Vec<u8>, text: &str)
    ensures
        final(out)@ == old(out)@ + ser_text(text@),
        text_fits(text@),
{
    put_bytes(out, text.as_bytes());
}

/// Writes an instant at the end of `out`.
pub(crate) fn put_time(out: &mut Vec<u8>, t: Timestamp)
    ensures
        final(out)@ == old(out)@ + ser_time(t),
{
    put_i64(out, t.secs);
    put_u32(out, t.nanos);
    proof {
        lemma_assoc(old(out)@, ser_i64(t.secs), ser_u32(t.nanos));
    }
}

/// The number that stands for `kind` on the wire.
pub fn code_of_kind(kind: FileType) -> (code: u8)
    ensures
        code == kind_code(kind),
{
    match kind {
        FileType::NamedPipe => 0,
        FileType::CharDevice => 1,
        FileType::BlockDevice => 2,
        FileType::Directory => 3,
        FileType::RegularFile => 4,
        FileType::Symlink => 5,
        FileType::Socket => 6,
    }
}

/// The tag byte of `op`.
pub fn code_of_op(op: Operation) -> (code: u8)
    ensures
        code == op_code(op),
{
    match op {
        Operation::Mount => 1,
        Operation::Lookup => 2,
        Operation::Getattr => 3,
        Operation::Read => 4,
        Operation::ReadDir => 5,
        Operation::Readlink => 6,
        Operation::Write => 7,
        Operation::Mknod => 8,
        Operation::Mkdir => 9,
        Operation::Unlink => 10,
        Operation::Rename => 11,
        Operation::Setattr => 12,
    }
}

/// Writes a kind of file at the end of `out`.
pub(crate) fn put_kind(out: &mut Vec<u8>, kind: FileType)
    ensures
        final(out)@ == old(out)@ + ser_kind(kind),
{
    put_u8(out, code_of_kind(kind));
}

/// Writes an attribute record at the end of `out`.
pub(crate) fn put_attr(out: &mut Vec<u8>, a: &FileAttr)
    ensures
        final(out)@ == old(out)@ + ser_attr(*a),
{
    let ghost start = out@;
    put_u64(out, a.ino);
    put_u64(out, a.size);
    put_u64(out, a.blocks);
    put_time(out, a.atime);
    put_time(out, a.mtime);
    put_time(out, a.ctime);
    put_time(out, a.crtime);
    put_kind(out, a.kind);
    put_u16(out, a.perm);
    put_u32(out, a.nlink);
    put_u32(out, a.uid);
    put_u32(out, a.gid);
    put_u32(out, a.rdev);
    put_u32(out, a.blksize);
    put_u32(out, a.flags);
    proof {
        reveal(ser_attr);
        let h1 = ser_u64(a.ino);
        let h2 = h1 + ser_u64(a.size);
        let h3 = h2 + ser_u64(a.blocks);
        let h4 = h3 + ser_time(a.atime);
        let h5 = h4 + ser_time(a.mtime);
        let h6 = h5 + ser_time(a.ctime);
        let h7 = h6 + ser_time(a.crtime);
        let h8 = h7 + ser_kind(a.kind);
        let h9 = h8 + ser_u16(a.perm);
        let h10 = h9 + ser_u32(a.nlink);
        let h11 = h10 + ser_u32(a.uid);
        let h12 = h11 + ser_u32(a.gid);
        let h13 = h12 + ser_u32(a.rdev);
        let h14 = h13 + ser_u32(a.blksize);
        lemma_assoc(start, h1, ser_u64(a.size));
        lemma_assoc(start, h2, ser_u64(a.blocks));
        lemma_assoc(start, h3, ser_time(a.atime));
        lemma_assoc(start, h4, ser_time(a.mtime));
        lemma_assoc(start, h5, ser_time(a.ctime));
        lemma_assoc(start, h6, ser_time(a.crtime));
        lemma_assoc(start, h7, ser_kind(a.kind));
        lemma_assoc(start, h8, ser_u16(a.perm));
        lemma_assoc(start, h9, ser_u32(a.nlink));
        lemma_assoc(start, h10, ser_u32(a.uid));
        lemma_assoc(start, h11, ser_u32(a.gid));
        lemma_assoc(start, h12, ser_u32(a.rdev));
        lemma_assoc(start, h13, ser_u32(a.blksize));
        lemma_assoc(start, h14, ser_u32(a.flags));
    }
}

/// Writes an optional 32-bit number at the end of `out`.
pub(crate) fn put_opt_u32(out: &mut Vec<u8>, o: Option<u32>)
    ensures
        final(out)@ == old(out)@ + ser_opt_u32(o),
{
    match o {
        None => put_u8(out, 0),
        Some(x) => {
            put_u8(out, 1);
            put_u32(out, x);
            proof {
                lemma_assoc(old(out)@, ser_u8(1), ser_u32(x));
            }
        },
    }
}

/// Writes an optional 64-bit number at the end of `out`.
pub(crate) fn put_opt_u64(out: &mut Vec<u8>, o: Option<u64>)
    ensures
        final(out)@ == old(out)@ + ser_opt_u64(o),
{
    match o {
        None => put_u8(out, 0),
        Some(x) => {
            put_u8(out, 1);
            put_u64(out, x);
            proof {
                lemma_assoc(old(out)@, ser_u8(1), ser_u64(x));
            }
        },
    }
}

/// Writes an optional instant at the end of `out`.
pub(crate) fn put_opt_time(out: &mut Vec<u8>, o: Option<Timestamp>)
    ensures
        final(out)@ == old(out)@ + ser_opt_time(o),
{
    match o {
        None => put_u8(out, 0),
        Some(x) => {
            put_u8(out, 1);
            put_time(out, x);
            proof {
                lemma_assoc(old(out)@, ser_u8(1), ser_time(x));
            }
        },
    }
}

/// Writes a set of attribute changes at the end of `out`.
pub(crate) fn put_changes(out: &mut Vec<u8>, c: &Changes)
    ensures
        final(out)@ == old(out)@ + ser_changes(*c),
{
    let ghost start = out@;
    put_opt_u32(out, c.mode);
    put_opt_u32(out, c.uid);
    put_opt_u32(out, c.gid);
    put_opt_u64(out, c.size);
    put_opt_time(out, c.atime);
    put_opt_time(out, c.mtime);
    put_opt_time(out, c.ctime);
    put_opt_u64(out, c.fh);
    put_opt_time(out, c.crtime);
    put_opt_time(out, c.chgtime);
    put_opt_time(out, c.bkuptime);
    put_opt_u32(out, c.flags);
    proof {
        reveal(ser_changes);
        let h1 = ser_opt_u32(c.mode);
        let h2 = h1 + ser_opt_u32(c.uid);
        let h3 = h2 + ser_opt_u32(c.gid);
        let h4 = h3 + ser_opt_u64(c.size);
        let h5 = h4 + ser_opt_time(c.atime);
        let h6 = h5 + ser_opt_time(c.mtime);
        let h7 = h6 + ser_opt_time(c.ctime);
        let h8 = h7 + ser_opt_u64(c.fh);
        let h9 = h8 + ser_opt_time(c.crtime);
        let h10 = h9 + ser_opt_time(c.chgtime);
        let h11 = h10 + ser_opt_time(c.bkuptime);
        lemma_assoc(start, h1, ser_opt_u32(c.uid));
        lemma_assoc(start, h2, ser_opt_u32(c.gid));
        lemma_assoc(start, h3, ser_opt_u64(c.size));
        lemma_assoc(start, h4, ser_opt_time(c.atime));
        lemma_assoc(start, h5, ser_opt_time(c.mtime));
        lemma_assoc(start, h6, ser_opt_time(c.ctime));
        lemma_assoc(start, h7, ser_opt_u64(c.fh));
        lemma_assoc(start, h8, ser_opt_time(c.crtime));
        lemma_assoc(start, h9, ser_opt_time(c.chgtime));
        lemma_assoc(start, h10, ser_opt_time(c.bkuptime));
        lemma_assoc(start, h11, ser_opt_u32(c.flags));
    }
}

/// Writes a directory entry at the end of `out`.
pub(crate) fn put_entry(out: &mut Vec<u8>, e: &DirEntry)
    ensures
        final(out)@ == old(out)@ + ser_entry(e@),
        text_fits(e@.name),
{
    put_u64(out, e.ino);
    put_kind(out, e.kind);
    put_text(out, e.name.as_str());
    proof {
        lemma_assoc(old(out)@, ser_u64(e.ino), ser_kind(e.kind));
        lemma_assoc(old(out)@, ser_u64(e.ino) + ser_kind(e.kind), ser_text(e.name@));
    }
}

/// Writes a listing at the end of `out`.
pub(crate) fn put_entries(out: &mut Vec<u8>, entries: &Vec<DirEntry>)
    ensures
        final(out)@ == old(out)@ + ser_entries(entries_view(entries@)),
        entries@.len() <= u64::MAX,
        entries_fit(entries_view(entries@)),
{
    let ghost all = entries_view(entries@);
    let ghost target = old(out)@ + ser_entries(all);
    put_u64(out, entries.len() as u64);
    proof {
        lemma_assoc(old(out)@, ser_u64(all.len() as u64), ser_each(all));
        assert(all.skip(0) =~= all);
    }
    let mut i: usize = 0;
    while i < entries.len()
        invariant
            i <= entries.len(),
            all == entries_view(entries@),
            out@ + ser_each(all.skip(i as int)) == target,
            forall|j: int| 0 <= j < i ==> text_fits(#[trigger] all[j].name),
        decreases entries.len() - i,
    {
        let ghost before = out@;
        put_entry(out, &entries[i]);
        proof {
            let left = all.skip(i as int);
            assert(left.drop_first() =~= all.skip(i + 1));
            assert(left[0] == entries[i as int]@);
            lemma_assoc(before, ser_entry(left[0]), ser_each(left.drop_first()));
        }
        i = i + 1;
    }
    proof {
        assert(out@ + ser_each(all.skip(i as int)) =~= out@);
    }
}

/// The bytes that carry `request` to the server. They read back as `request`.
pub fn encode_request(request: &Request) -> (bytes: Vec<u8>)
    ensures
        bytes@ == ser_request(request@),
        request_fits(request@),
        request_of(bytes@) == Some(request@),
{
    let mut out: Vec<u8> = Vec::new();
    put_u8(&mut out, code_of_op(request.operation()));
    let ghost tag = out@;
    match request {
        Request::Mount(greeting) => {
            put_text(&mut out, greeting.as_str());
        },
        Request::Lookup(parent, name) => {
            put_u64(&mut out, *parent);
            put_text(&mut out, name.as_str());
            proof {
                lemma_assoc(tag, ser_u64(*parent), ser_text(name@));
            }
        },
        Request::Getattr(ino) => {
            put_u64(&mut out, *ino);
        },
        Request::Read(ino, offset, size) => {
            put_u64(&mut out, *ino);
            put_i64(&mut out, *offset);
            put_u32(&mut out, *size);
            proof {
                lemma_assoc(tag, ser_u64(*ino), ser_i64(*offset));
                lemma_assoc(tag, ser_u64(*ino) + ser_i64(*offset), ser_u32(*size));
            }
        },
        Request::ReadDir(ino, offset) => {
            put_u64(&mut out, *ino);
            put_i64(&mut out, *offset);
            proof {
                lemma_assoc(tag, ser_u64(*ino), ser_i64(*offset));
            }
        },
        Request::Readlink(ino) => {
            put_u64(&mut out, *ino);
        },
        Request::Write(ino, offset, data) => {
            put_u64(&mut out, *ino);
            put_i64(&mut out, *offset);
            put_bytes(&mut out, data.as_slice());
            proof {
                lemma_assoc(tag, ser_u64(*ino), ser_i64(*offset));
                lemma_assoc(tag, ser_u64(*ino) + ser_i64(*offset), ser_bytes(data@));
            }
        },
        Request::Mknod(parent, name, mode, umask, rdev) => {
            put_u64(&mut out, *parent);
            put_text(&mut out, name.as_str());
            put_u32(&mut out, *mode);
            put_u32(&mut out, *umask);
            put_u32(&mut out, *rdev);
            proof {
                let h1 = ser_u64(*parent);
                let h2 = h1 + ser_text(name@);
                let h3 = h2 + ser_u32(*mode);
                let h4 = h3 + ser_u32(*umask);
                lemma_assoc(tag, h1, ser_text(name@));
                lemma_assoc(tag, h2, ser_u32(*mode));
                lemma_assoc(tag, h3, ser_u32(*umask));
                lemma_assoc(tag, h4, ser_u32(*rdev));
            }
        },
        Request::Mkdir(parent, name, mode, umask) => {
            put_u64(&mut out, *parent);
            put_text(&mut out, name.as_str());
            put_u32(&mut out, *mode);
            put_u32(&mut out, *umask);
            proof {
                let h1 = ser_u64(*parent);
                let h2 = h1 + ser_text(name@);
                let h3 = h2 + ser_u32(*mode);
                lemma_assoc(tag, h1, ser_text(name@));
                lemma_assoc(tag, h2, ser_u32(*mode));
                lemma_assoc(tag, h3, ser_u32(*umask));
            }
        },
        Request::Unlink(parent, name) => {
            put_u64(&mut out, *parent);
            put_text(&mut out, name.as_str());
            proof {
                lemma_assoc(tag, ser_u64(*parent), ser_text(name@));
            }
        },
        Request::Rename(parent, name, newparent, newname, flags) => {
            put_u64(&mut out, *parent);
            put_text(&mut out, name.as_str());
            put_u64(&mut out, *newparent);
            put_text(&mut out, newname.as_str());
            put_u32(&mut out, *flags);
            proof {
                let h1 = ser_u64(*parent);
                let h2 = h1 + ser_text(name@);
                let h3 = h2 + ser_u64(*newparent);
                let h4 = h3 + ser_text(newname@);
                lemma_assoc(tag, h1, ser_text(name@));
                lemma_assoc(tag, h2, ser_u64(*newparent));
                lemma_assoc(tag, h3, ser_text(newname@));
                lemma_assoc(tag, h4, ser_u32(*flags));
            }
        },
        Request::Setattr(ino, changes) => {
            put_u64(&mut out, *ino);
            put_changes(&mut out, changes);
            proof {
                lemma_assoc(tag, ser_u64(*ino), ser_changes(*changes));
            }
        },
    }
    assert(tag =~= ser_u8(op_code(request@.operation())));
    proof {
        lemma_request(request@, Seq::<u8>::empty());
        assert(ser_request(request@) + Seq::<u8>::empty() =~= ser_request(request@));
    }
    out
}

/// The bytes that carry `response` to the client. They read back as
/// `response`.
pub fn encode_response(response: &Response) -> (bytes: Vec<u8>)
    ensures
        bytes@ == ser_response(response@),
        response_fits(response@),
        response_of(bytes@) == Some(response@),
{
    let mut out: Vec<u8> = Vec::new();
    match response.answers() {
        None => {
            put_u8(&mut out, 0);
            assert(out@ =~= ser_u8(0));
            match response {
                Response::Error(code) => {
                    put_i32(&mut out, *code);
                },
                _ => {},
            }
        },
        Some(op) => {
            put_u8(&mut out, code_of_op(op));
            assert(out@ =~= ser_u8(op_code(op)));
            match response {
                Response::Mount(id) => {
                    put_text(&mut out, id.as_str());
                },
                Response::Lookup(attr) | Response::Getattr(attr) | Response::Mknod(attr)
                | Response::Mkdir(attr) | Response::Setattr(attr) => {
                    put_attr(&mut out, attr);
                },
                Response::Read(data) | Response::Readlink(data) => {
                    put_bytes(&mut out, data.as_slice());
                },
                Response::ReadDir(entries) => {
                    put_entries(&mut out, entries);
                },
                Response::Write(count) => {
                    put_u32(&mut out, *count);
                },
                _ => {
                    assert(out@ =~= out@ + Seq::<u8>::empty());
                },
            }
        },
    }
    proof {
        lemma_response(response@, Seq::<u8>::empty());
        assert(ser_response(response@) + Seq::<u8>::empty() =~= ser_response(response@));
    }
    out
}

} // verus!
