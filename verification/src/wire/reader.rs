//! Reading values off the front of received bytes.

use vstd::prelude::*;
use vstd::bytes::*;
use vstd::slice::{slice_subrange, slice_to_vec};
use crate::attr::{FileAttr, FileType, Timestamp};
use crate::message::{
    entries_view, Changes, DirEntry, DirEntryView, Operation, Request, Response,
};
use crate::text::decode_text;
use crate::wire::frame::{op_of, request_of, response_of};
use crate::wire::record::{
    kind_of, parse_attr, parse_changes, parse_each, parse_entries, parse_entry, parse_kind,
    parse_opt_time, parse_opt_u32, parse_opt_u64, parse_six, parse_time, parse_times,
};
use crate::wire::scalar::{
    parse_bytes, parse_i32, parse_i64, parse_text, parse_u16, parse_u32, parse_u64, parse_u8,
};

verus! {

/// Received bytes and how far they have been read.
pub(crate) struct Reader<'a> {
    input: &'a [u8],
    pos: usize,
}

impl<'a> Reader<'a> {
    /// The position lies inside the input.
    pub(crate) closed spec fn wf(&self) -> bool {
        self.pos <= self.input@.len()
    }

    /// The bytes that have not been read yet.
    pub(crate) closed spec fn rest(&self) -> Seq<u8> {
        self.input@.skip(self.pos as int)
    }

    /// A reader at the start of `input`.
    pub(crate) fn new(input: &'a [u8]) -> (reader: Reader<'a>)
        ensures
            reader.wf(),
            reader.rest() == input@,
    {
        let reader = Reader { input, pos: 0 };
        assert(reader.rest() =~= input@);
        reader
    }

    /// Nothing is left to read.
    pub(crate) fn at_end(&self) -> (done: bool)
        requires
            self.wf(),
        ensures
            done == (self.rest().len() == 0),
    {
        self.pos == self.input.len()
    }

    /// The next `n` bytes, if so many are left.
    fn take(&mut self, n: usize) -> (bytes: Option<&'a [u8]>)
        requires
            old(self).wf(),
        ensures
            final(self).wf(),
            if old(self).rest().len() >= n {
                bytes matches Some(s) && s@ == old(self).rest().subrange(0, n as int)
                    && final(self).rest() == old(self).rest().skip(n as int)
            } else {
                bytes is None
            },
    {
        if self.input.len() - self.pos >= n {
            let bytes = slice_subrange(self.input, self.pos, self.pos + n);
            assert(bytes@ =~= self.rest().subrange(0, n as int));
            assert(self.input@.skip(self.pos + n) =~= self.rest().skip(n as int));
            self.pos = self.pos + n;
            Some(bytes)
        } else {
            None
        }
    }

    /// Reads a byte off the front of what is left.
    pub(crate) fn take_u8(&mut self) -> (value: Option<u8>)
        requires
            old(self).wf(),
        ensures
            final(self).wf(),
            match parse_u8(old(self).rest()) {
                Some((v, rest)) => value == Some(v) && final(self).rest() == rest,
                None => value is None,
            },
    {
        match self.take(1) {
            Some(bytes) => Some(bytes[0]),
            None => None,
        }
    }

    /// Reads a 16-bit number off the front of what is left.
    pub(crate) fn take_u16(&mut self) -> (value: Option<u16>)
        requires
            old(self).wf(),
        ensures
            final(self).wf(),
            match parse_u16(old(self).rest()) {
                Some((v, rest)) => value == Some(v) && final(self).rest() == rest,
                None => value is None,
            },
    {
        match self.take(2) {
            Some(bytes) => Some(u16_from_le_bytes(bytes)),
            None => None,
        }
    }

    /// Reads a 32-bit number off the front of what is left.
    pub(crate) fn take_u32(&mut self) -> (value: Option<u32>)
        requires
            old(self).wf(),
        ensures
            final(self).wf(),
            match parse_u32(old(self).rest()) {
                Some((v, rest)) => value == Some(v) && final(self).rest() == rest,
                None => value is None,
            },
    {
        match self.take(4) {
            Some(bytes) => Some(u32_from_le_bytes(bytes)),
            None => None,
        }
    }

    /// Reads a 64-bit number off the front of what is left.
    pub(crate) fn take_u64(&mut self) -> (value: Option<u64>)
        requires
            old(self).wf(),
        ensures
            final(self).wf(),
            match parse_u64(old(self).rest()) {
                Some((v, rest)) => value == Some(v) && final(self).rest() == rest,
                None => value is None,
            },
    {
        match self.take(8) {
            Some(bytes) => Some(u64_from_le_bytes(bytes)),
            None => None,
        }
    }

    /// Reads a signed 32-bit number off the front of what is left.
    pub(crate) fn take_i32(&mut self) -> (value: Option<i32>)
        requires
            old(self).wf(),
        ensures
            final(self).wf(),
            match parse_i32(old(self).rest()) {
                Some((v, rest)) => value == Some(v) && final(self).rest() == rest,
                None => value is None,
            },
    {
        match self.take_u32() {
            Some(x) => Some(x as i32),
            None => None,
        }
    }

    /// Reads a signed 64-bit number off the front of what is left.
    pub(crate) fn take_i64(&mut self) -> (value: Option<i64>)
        requires
            old(self).wf(),
        ensures
            final(self).wf(),
            match parse_i64(old(self).rest()) {
                Some((v, rest)) => value == Some(v) && final(self).rest() == rest,
                None => value is None,
            },
    {
        match self.take_u64() {
            Some(x) => Some(x as i64),
            None => None,
        }
    }

    /// The byte string at the front, still inside the input.
    fn take_slice(&mut self) -> (value: Option<&'a [u8]>)
        requires
            old(self).wf(),
        ensures
            final(self).wf(),
            match parse_bytes(old(self).rest()) {
                Some((v, rest)) => value matches Some(s) && s@ == v && final(self).rest() == rest,
                None => value is None,
            },
    {
        match self.take_u64() {
            Some(n) => {
                if n <= (self.input.len() - self.pos) as u64 {
                    self.take(n as usize)
                } else {
                    None
                }
            },
            None => None,
        }
    }

    /// Reads a byte string off the front of what is left.
    pub(crate) fn take_bytes(&mut self) -> (value: Option<Vec<u8>>)
        requires
            old(self).wf(),
        ensures
            final(self).wf(),
            match parse_bytes(old(self).rest()) {
                Some((v, rest)) => value matches Some(s) && s@ == v && final(self).rest() == rest,
                None => value is None,
            },
    {
        match self.take_slice() {
            Some(bytes) => Some(slice_to_vec(bytes)),
            None => None,
        }
    }

    /// Reads a text off the front of what is left.
    pub(crate) fn take_text(&mut self) -> (value: Option<String>)
        requires
            old(self).wf(),
        ensures
            final(self).wf(),
            match parse_text(old(self).rest()) {
                Some((v, rest)) => value matches Some(s) && s@ == v && final(self).rest() == rest,
                None => value is None,
            },
    {
        match self.take_slice() {
            Some(bytes) => decode_text(bytes),
            None => None,
        }
    }

    /// Reads an instant off the front of what is left.
    pub(crate) fn take_time(&mut self) -> (value: Option<Timestamp>)
        requires
            old(self).wf(),
        ensures
            final(self).wf(),
            match parse_time(old(self).rest()) {
                Some((v, rest)) => value == Some(v) && final(self).rest() == rest,
                None => value is None,
            },
    {
        let secs = self.take_i64()?;
        let nanos = self.take_u32()?;
        Some(Timestamp { secs, nanos })
    }

    /// Reads a kind of file off the front of what is left.

    pub(crate) fn take_kind(&mut self) -> (value: Option<FileType>)
        requires
            old(self).wf(),
        ensures
            final(self).wf(),
            match parse_kind(old(self).rest()) {
                Some((v, rest)) => value == Some(v) && final(self).rest() == rest,
                None => value is None,
            },
    {
        match self.take_u8() {
            Some(code) => kind_for_code(code),
            None => None,
        }
    }

    /// Reads four instants off the front of what is left.
    pub(crate) fn take_times(&mut self) -> (value: Option<
        (Timestamp, Timestamp, Timestamp, Timestamp),
    >)
        requires
            old(self).wf(),
        ensures
            final(self).wf(),
            match parse_times(old(self).rest()) {
                Some((v, rest)) => value == Some(v) && final(self).rest() == rest,
                None => value is None,
            },
    {
        let atime = self.take_time()?;
        let mtime = self.take_time()?;
        let ctime = self.take_time()?;
        let crtime = self.take_time()?;
        Some((atime, mtime, ctime, crtime))
    }

    /// Reads six 32-bit numbers off the front of what is left.
    pub(crate) fn take_six(&mut self) -> (value: Option<(u32, u32, u32, u32, u32, u32)>)
        requires
            old(self).wf(),
        ensures
            final(self).wf(),
            match parse_six(old(self).rest()) {
                Some((v, rest)) => value == Some(v) && final(self).rest() == rest,
                None => value is None,
            },
    {
        let x1 = self.take_u32()?;
        let x2 = self.take_u32()?;
        let x3 = self.take_u32()?;
        let x4 = self.take_u32()?;
        let x5 = self.take_u32()?;
        let x6 = self.take_u32()?;
        Some((x1, x2, x3, x4, x5, x6))
    }

    /// Reads an attribute record off the front of what is left.
    pub(crate) fn take_attr(&mut self) -> (value: Option<FileAttr>)
        requires
            old(self).wf(),
        ensures
            final(self).wf(),
            match parse_attr(old(self).rest()) {
                Some((v, rest)) => value == Some(v) && final(self).rest() == rest,
                None => value is None,
            },
    {
        proof {
            reveal(parse_attr);
        }
        let ino = self.take_u64()?;
        let size = self.take_u64()?;
        let blocks = self.take_u64()?;
        let times = self.take_times()?;
        let kind = self.take_kind()?;
        let perm = self.take_u16()?;
        let six = self.take_six()?;
        Some(
            FileAttr {
                ino,
                size,
                blocks,
                atime: times.0,
                mtime: times.1,
                ctime: times.2,
                crtime: times.3,
                kind,
                perm,
                nlink: six.0,
                uid: six.1,
                gid: six.2,
                rdev: six.3,
                blksize: six.4,
                flags: six.5,
            },
        )
    }

    /// Reads an optional 32-bit number off the front of what is left.
    pub(crate) fn take_opt_u32(&mut self) -> (value: Option<Option<u32>>)
        requires
            old(self).wf(),
        ensures
            final(self).wf(),
            match parse_opt_u32(old(self).rest()) {
                Some((v, rest)) => value == Some(v) && final(self).rest() == rest,
                None => value is None,
            },
    {
        let flag = self.take_u8()?;
        if flag == 0 {
            Some(None)
        } else if flag == 1 {
            match self.take_u32() {
                Some(x) => Some(Some(x)),
                None => None,
            }
        } else {
            None
        }
    }

    /// Reads an optional 64-bit number off the front of what is left.
    pub(crate) fn take_opt_u64(&mut self) -> (value: Option<Option<u64>>)
        requires
            old(self).wf(),
        ensures
            final(self).wf(),
            match parse_opt_u64(old(self).rest()) {
                Some((v, rest)) => value == Some(v) && final(self).rest() == rest,
                None => value is None,
            },
    {
        let flag = self.take_u8()?;
        if flag == 0 {
            Some(None)
        } else if flag == 1 {
            match self.take_u64() {
                Some(x) => Some(Some(x)),
                None => None,
            }
        } else {
            None
        }
    }

    /// Reads an optional instant off the front of what is left.
    pub(crate) fn take_opt_time(&mut self) -> (value: Option<Option<Timestamp>>)
        requires
            old(self).wf(),
        ensures
            final(self).wf(),
            match parse_opt_time(old(self).rest()) {
                Some((v, rest)) => value == Some(v) && final(self).rest() == rest,
                None => value is None,
            },
    {
        let flag = self.take_u8()?;
        if flag == 0 {
            Some(None)
        } else if flag == 1 {
            match self.take_time() {
                Some(x) => Some(Some(x)),
                None => None,
            }
        } else {
            None
        }
    }

    /// Reads a set of attribute changes off the front of what is left.
    pub(crate) fn take_changes(&mut self) -> (value: Option<Changes>)
        requires
            old(self).wf(),
        ensures
            final(self).wf(),
            match parse_changes(old(self).rest()) {
                Some((v, rest)) => value == Some(v) && final(self).rest() == rest,
                None => value is None,
            },
    {
        proof {
            reveal(parse_changes);
        }
        let mode = self.take_opt_u32()?;
        let uid = self.take_opt_u32()?;
        let gid = self.take_opt_u32()?;
        let size = self.take_opt_u64()?;
        let atime = self.take_opt_time()?;
        let mtime = self.take_opt_time()?;
        let ctime = self.take_opt_time()?;
        let fh = self.take_opt_u64()?;
        let crtime = self.take_opt_time()?;
        let chgtime = self.take_opt_time()?;
        let bkuptime = self.take_opt_time()?;
        let flags = self.take_opt_u32()?;
        Some(
            Changes {
                mode,
                uid,
                gid,
                size,
                atime,
                mtime,
                ctime,
                fh,
                crtime,
                chgtime,
                bkuptime,
                flags,
            },
        )
    }

    /// Reads a directory entry off the front of what is left.
    pub(crate) fn take_entry(&mut self) -> (value: Option<DirEntry>)
        requires
            old(self).wf(),
        ensures
            final(self).wf(),
            match parse_entry(old(self).rest()) {
                Some((v, rest)) => value matches Some(s) && s@ == v && final(self).rest() == rest,
                None => value is None,
            },
    {
        let ino = self.take_u64()?;
        let kind = self.take_kind()?;
        let name = self.take_text()?;
        Some(DirEntry { ino, kind, name })
    }

    /// Reads a listing off the front of what is left.
    pub(crate) fn take_entries(&mut self) -> (value: Option<Vec<DirEntry>>)
        requires
            old(self).wf(),
        ensures
            final(self).wf(),
            match parse_entries(old(self).rest()) {
                Some((v, rest)) => value matches Some(s) && entries_view(s@) == v
                    && final(self).rest() == rest,
                None => value is None,
            },
    {
        let n = self.take_u64()?;
        let ghost start = self.rest();
        let ghost whole = parse_entries(old(self).rest());
        let mut entries: Vec<DirEntry> = Vec::new();
        let mut i: u64 = 0;
        proof {
            assert(entries_view(entries@) =~= Seq::<DirEntryView>::empty());
            lemma_each_from(Seq::<DirEntryView>::empty(), start, n as nat);
        }
        while i < n
            invariant
                self.wf(),
                i <= n,
                whole == parse_each(start, n as nat),
                whole == parse_entries(old(self).rest()),
                parse_each(start, n as nat) == prepend(
                    entries_view(entries@),
                    parse_each(self.rest(), (n - i) as nat),
                ),
            decreases n - i,
        {
            let ghost before = self.rest();
            let ghost sofar = entries_view(entries@);
            let entry = match self.take_entry() {
                Some(e) => e,
                None => {
                    assert(parse_each(before, (n - i) as nat) is None);
                    return None;
                },
            };
            entries.push(entry);
            proof {
                assert(entries_view(entries@) =~= sofar.push(entry@));
                lemma_each_step(sofar, entry@, before, self.rest(), (n - i) as nat);
            }
            i = i + 1;
        }
        Some(entries)
    }
}

/// The result of reading further entries, with `front` before them.
pub open spec fn prepend(
    front: Seq<DirEntryView>,
    more: Option<(Seq<DirEntryView>, Seq<u8>)>,
) -> Option<(Seq<DirEntryView>, Seq<u8>)> {
    match more {
        Some((es, rest)) => Some((front + es, rest)),
        None => None,
    }
}

/// Entries read with nothing before them are the entries read.
proof fn lemma_each_from(front: Seq<DirEntryView>, b: Seq<u8>, n: nat)
    requires
        front.len() == 0,
    ensures
        parse_each(b, n) == prepend(front, parse_each(b, n)),
{
    match parse_each(b, n) {
        Some((es, rest)) => {
            assert(front + es =~= es);
        },
        None => {},
    }
}

/// Reading one entry and then the others gives what reading them all gives.
proof fn lemma_each_step(
    front: Seq<DirEntryView>,
    e: DirEntryView,
    before: Seq<u8>,
    after: Seq<u8>,
    n: nat,
)
    requires
        n > 0,
        parse_entry(before) == Some((e, after)),
    ensures
        prepend(front, parse_each(before, n)) == prepend(
            front.push(e),
            parse_each(after, (n - 1) as nat),
        ),
{
    match parse_each(after, (n - 1) as nat) {
        Some((es, rest)) => {
            assert(front + (seq![e] + es) =~= front.push(e) + es);
        },
        None => {},
    }
}

/// The kind of file that `code` stands for on the wire.
pub fn kind_for_code(code: u8) -> (kind: Option<FileType>)
    ensures
        kind == kind_of(code),
{
    match code {
        0 => Some(FileType::NamedPipe),
        1 => Some(FileType::CharDevice),
        2 => Some(FileType::BlockDevice),
        3 => Some(FileType::Directory),
        4 => Some(FileType::RegularFile),
        5 => Some(FileType::Symlink),
        6 => Some(FileType::Socket),
        _ => None,
    }
}

/// The operation that the tag byte `code` stands for.
pub fn op_for_code(code: u8) -> (op: Option<Operation>)
    ensures
        op == op_of(code),
{
    match code {
        1 => Some(Operation::Mount),
        2 => Some(Operation::Lookup),
        3 => Some(Operation::Getattr),
        4 => Some(Operation::Read),
        5 => Some(Operation::ReadDir),
        6 => Some(Operation::Readlink),
        7 => Some(Operation::Write),
        8 => Some(Operation::Mknod),
        9 => Some(Operation::Mkdir),
        10 => Some(Operation::Unlink),
        11 => Some(Operation::Rename),
        12 => Some(Operation::Setattr),
        _ => None,
    }
}

/// Reads the request that `bytes` carry. The bytes must be those of one
/// request, with nothing after it; anything else is no request.
pub fn decode_request(bytes: &[u8]) -> (request: Option<Request>)
    ensures
        match request_of(bytes@) {
            Some(view) => request matches Some(r) && r@ == view,
            None => request is None,
        },
{
    let mut reader = Reader::new(bytes);
    let code = reader.take_u8()?;
    let op = op_for_code(code)?;
    let request = match op {
        Operation::Mount => {
            let greeting = reader.take_text()?;
            Request::Mount(greeting)
        },
        Operation::Lookup => {
            let parent = reader.take_u64()?;
            let name = reader.take_text()?;
            Request::Lookup(parent, name)
        },
        Operation::Getattr => {
            let ino = reader.take_u64()?;
            Request::Getattr(ino)
        },
        Operation::Read => {
            let ino = reader.take_u64()?;
            let offset = reader.take_i64()?;
            let size = reader.take_u32()?;
            Request::Read(ino, offset, size)
        },
        Operation::ReadDir => {
            let ino = reader.take_u64()?;
            let offset = reader.take_i64()?;
            Request::ReadDir(ino, offset)
        },
        Operation::Readlink => {
            let ino = reader.take_u64()?;
            Request::Readlink(ino)
        },
        Operation::Write => {
            let ino = reader.take_u64()?;
            let offset = reader.take_i64()?;
            let data = reader.take_bytes()?;
            Request::Write(ino, offset, data)
        },
        Operation::Mknod => {
            let parent = reader.take_u64()?;
            let name = reader.take_text()?;
            let mode = reader.take_u32()?;
            let umask = reader.take_u32()?;
            let rdev = reader.take_u32()?;
            Request::Mknod(parent, name, mode, umask, rdev)
        },
        Operation::Mkdir => {
            let parent = reader.take_u64()?;
            let name = reader.take_text()?;
            let mode = reader.take_u32()?;
            let umask = reader.take_u32()?;
            Request::Mkdir(parent, name, mode, umask)
        },
        Operation::Unlink => {
            let parent = reader.take_u64()?;
            let name = reader.take_text()?;
            Request::Unlink(parent, name)
        },
        Operation::Rename => {
            let parent = reader.take_u64()?;
            let name = reader.take_text()?;
            let newparent = reader.take_u64()?;
            let newname = reader.take_text()?;
            let flags = reader.take_u32()?;
            Request::Rename(parent, name, newparent, newname, flags)
        },
        Operation::Setattr => {
            let ino = reader.take_u64()?;
            let changes = reader.take_changes()?;
            Request::Setattr(ino, changes)
        },
    };
    if reader.at_end() {
        Some(request)
    } else {
        None
    }
}

/// Reads the response that `bytes` carry. The bytes must be those of one
/// response, with nothing after it; anything else is no response.
pub fn decode_response(bytes: &[u8]) -> (response: Option<Response>)
    ensures
        match response_of(bytes@) {
            Some(view) => response matches Some(r) && r@ == view,
            None => response is None,
        },
{
    let mut reader = Reader::new(bytes);
    let code = reader.take_u8()?;
    let response = if code == 0 {
        let error = reader.take_i32()?;
        Response::Error(error)
    } else {
        let op = op_for_code(code)?;
        match op {
        Operation::Mount => {
            let id = reader.take_text()?;
            Response::Mount(id)
        },
        Operation::Lookup => {
            let attr = reader.take_attr()?;
            Response::Lookup(attr)
        },
        Operation::Getattr => {
            let attr = reader.take_attr()?;
            Response::Getattr(attr)
        },
        Operation::Read => {
            let data = reader.take_bytes()?;
            Response::Read(data)
        },
        Operation::ReadDir => {
            let entries = reader.take_entries()?;
            Response::ReadDir(entries)
        },
        Operation::Readlink => {
            let target = reader.take_bytes()?;
            Response::Readlink(target)
        },
        Operation::Write => {
            let count = reader.take_u32()?;
            Response::Write(count)
        },
        Operation::Mknod => {
            let attr = reader.take_attr()?;
            Response::Mknod(attr)
        },
        Operation::Mkdir => {
            let attr = reader.take_attr()?;
            Response::Mkdir(attr)
        },
        Operation::Unlink => {
            Response::Unlink
        },
        Operation::Rename => {
            Response::Rename
        },
        Operation::Setattr => {
            let attr = reader.take_attr()?;
            Response::Setattr(attr)
        },
        }
    };
    if reader.at_end() {
        Some(response)
    } else {
        None
    }
}

} // verus!
