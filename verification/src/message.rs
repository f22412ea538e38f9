//! The closed set of messages: one request and one response per operation, and
//! an error response that may answer any request.

use vstd::prelude::*;
use crate::attr::{FileAttr, FileType, Timestamp};

verus! {

/// The operations that travel to the server. Removing a file and removing a
/// directory are the same operation on the wire.
#[derive(Clone, Copy, Debug, PartialEq, Eq, Structural)]
pub enum Operation {
    Mount,
    Lookup,
    Getattr,
    Read,
    ReadDir,
    Readlink,
    Write,
    Mknod,
    Mkdir,
    Unlink,
    Rename,
    Setattr,
}

/// The attribute changes of one `Setattr` request. A field that is `None` is
/// left as it is by the server.
#[derive(Clone, Copy, Debug, PartialEq, Eq, Structural)]
pub struct Changes {
    pub mode: Option<u32>,
    pub uid: Option<u32>,
    pub gid: Option<u32>,
    pub size: Option<u64>,
    pub atime: Option<Timestamp>,
    pub mtime: Option<Timestamp>,
    pub ctime: Option<Timestamp>,
    pub fh: Option<u64>,
    pub crtime: Option<Timestamp>,
    pub chgtime: Option<Timestamp>,
    pub bkuptime: Option<Timestamp>,
    pub flags: Option<u32>,
}

impl Changes {
    /// No field is set: the server is asked to change nothing.
    pub open spec fn is_empty(self) -> bool {
        &&& self.mode is None
        &&& self.uid is None
        &&& self.gid is None
        &&& self.size is None
        &&& self.atime is None
        &&& self.mtime is None
        &&& self.ctime is None
        &&& self.fh is None
        &&& self.crtime is None
        &&& self.chgtime is None
        &&& self.bkuptime is None
        &&& self.flags is None
    }
}

/// A request, with the arguments of its operation.
#[derive(Clone, Debug, PartialEq, Eq)]
pub enum Request {
    /// The greeting that opens a session.
    Mount(String),
    /// Parent inode and name.
    Lookup(u64, String),
    /// Inode.
    Getattr(u64),
    /// Inode, offset, size.
    Read(u64, i64, u32),
    /// Inode and the offset at which the listing resumes.
    ReadDir(u64, i64),
    /// Inode.
    Readlink(u64),
    /// Inode, offset, data.
    Write(u64, i64, Vec<u8>),
    /// Parent inode, name, mode, umask, device.
    Mknod(u64, String, u32, u32, u32),
    /// Parent inode, name, mode, umask.
    Mkdir(u64, String, u32, u32),
    /// Parent inode and name.
    Unlink(u64, String),
    /// Parent inode, name, new parent inode, new name, flags.
    Rename(u64, String, u64, String, u32),
    /// Inode and the fields to change.
    Setattr(u64, Changes),
}

/// What a [`Request`] is, as a mathematical value.
pub enum RequestView {
    Mount(Seq<char>),
    Lookup(u64, Seq<char>),
    Getattr(u64),
    Read(u64, i64, u32),
    ReadDir(u64, i64),
    Readlink(u64),
    Write(u64, i64, Seq<u8>),
    Mknod(u64, Seq<char>, u32, u32, u32),
    Mkdir(u64, Seq<char>, u32, u32),
    Unlink(u64, Seq<char>),
    Rename(u64, Seq<char>, u64, Seq<char>, u32),
    Setattr(u64, Changes),
}

impl View for Request {
    type V = RequestView;

    open spec fn view(&self) -> RequestView {
        match *self {
            Request::Mount(greeting) => RequestView::Mount(greeting@),
            Request::Lookup(parent, name) => RequestView::Lookup(parent, name@),
            Request::Getattr(ino) => RequestView::Getattr(ino),
            Request::Read(ino, offset, size) => RequestView::Read(ino, offset, size),
            Request::ReadDir(ino, offset) => RequestView::ReadDir(ino, offset),
            Request::Readlink(ino) => RequestView::Readlink(ino),
            Request::Write(ino, offset, data) => RequestView::Write(ino, offset, data@),
            Request::Mknod(parent, name, mode, umask, rdev) => RequestView::Mknod(
                parent,
                name@,
                mode,
                umask,
                rdev,
            ),
            Request::Mkdir(parent, name, mode, umask) => RequestView::Mkdir(
                parent,
                name@,
                mode,
                umask,
            ),
            Request::Unlink(parent, name) => RequestView::Unlink(parent, name@),
            Request::Rename(parent, name, newparent, newname, flags) => RequestView::Rename(
                parent,
                name@,
                newparent,
                newname@,
                flags,
            ),
            Request::Setattr(ino, changes) => RequestView::Setattr(ino, changes),
        }
    }
}

impl RequestView {
    /// The operation that this request asks for.
    pub open spec fn operation(self) -> Operation {
        match self {
            RequestView::Mount(..) => Operation::Mount,
            RequestView::Lookup(..) => Operation::Lookup,
            RequestView::Getattr(..) => Operation::Getattr,
            RequestView::Read(..) => Operation::Read,
            RequestView::ReadDir(..) => Operation::ReadDir,
            RequestView::Readlink(..) => Operation::Readlink,
            RequestView::Write(..) => Operation::Write,
            RequestView::Mknod(..) => Operation::Mknod,
            RequestView::Mkdir(..) => Operation::Mkdir,
            RequestView::Unlink(..) => Operation::Unlink,
            RequestView::Rename(..) => Operation::Rename,
            RequestView::Setattr(..) => Operation::Setattr,
        }
    }
}

impl Request {
    /// The operation that this request asks for.
    pub fn operation(&self) -> (op: Operation)
        ensures
            op == self@.operation(),
    {
        match self {
            Request::Mount(..) => Operation::Mount,
            Request::Lookup(..) => Operation::Lookup,
            Request::Getattr(..) => Operation::Getattr,
            Request::Read(..) => Operation::Read,
            Request::ReadDir(..) => Operation::ReadDir,
            Request::Readlink(..) => Operation::Readlink,
            Request::Write(..) => Operation::Write,
            Request::Mknod(..) => Operation::Mknod,
            Request::Mkdir(..) => Operation::Mkdir,
            Request::Unlink(..) => Operation::Unlink,
            Request::Rename(..) => Operation::Rename,
            Request::Setattr(..) => Operation::Setattr,
        }
    }
}

/// One entry of a directory listing.
#[derive(Clone, Debug, PartialEq, Eq)]
pub struct DirEntry {
    pub ino: u64,
    pub kind: FileType,
    pub name: String,
}

/// What a [`DirEntry`] is, as a mathematical value.
pub struct DirEntryView {
    pub ino: u64,
    pub kind: FileType,
    pub name: Seq<char>,
}

impl View for DirEntry {
    type V = DirEntryView;

    open spec fn view(&self) -> DirEntryView {
        DirEntryView { ino: self.ino, kind: self.kind, name: self.name@ }
    }
}

/// The entries of a listing, each as a mathematical value.
pub open spec fn entries_view(entries: Seq<DirEntry>) -> Seq<DirEntryView> {
    Seq::new(entries.len(), |i: int| entries[i]@)
}

/// A response: the result of one operation, or an error code in its place.
#[derive(Clone, Debug, PartialEq, Eq)]
pub enum Response {
    /// The identifier that the server gave the session.
    Mount(String),
    Lookup(FileAttr),
    Getattr(FileAttr),
    /// The bytes read; fewer than asked for at the end of the file.
    Read(Vec<u8>),
    /// The entries of the directory, in their stable order.
    ReadDir(Vec<DirEntry>),
    /// The target of the link.
    Readlink(Vec<u8>),
    /// The number of bytes written.
    Write(u32),
    Mknod(FileAttr),
    Mkdir(FileAttr),
    Unlink,
    Rename,
    Setattr(FileAttr),
    /// The operation failed with this code.
    Error(i32),
}

/// What a [`Response`] is, as a mathematical value.
pub enum ResponseView {
    Mount(Seq<char>),
    Lookup(FileAttr),
    Getattr(FileAttr),
    Read(Seq<u8>),
    ReadDir(Seq<DirEntryView>),
    Readlink(Seq<u8>),
    Write(u32),
    Mknod(FileAttr),
    Mkdir(FileAttr),
    Unlink,
    Rename,
    Setattr(FileAttr),
    Error(i32),
}

impl View for Response {
    type V = ResponseView;

    open spec fn view(&self) -> ResponseView {
        match *self {
            Response::Mount(id) => ResponseView::Mount(id@),
            Response::Lookup(attr) => ResponseView::Lookup(attr),
            Response::Getattr(attr) => ResponseView::Getattr(attr),
            Response::Read(data) => ResponseView::Read(data@),
            Response::ReadDir(entries) => ResponseView::ReadDir(entries_view(entries@)),
            Response::Readlink(target) => ResponseView::Readlink(target@),
            Response::Write(count) => ResponseView::Write(count),
            Response::Mknod(attr) => ResponseView::Mknod(attr),
            Response::Mkdir(attr) => ResponseView::Mkdir(attr),
            Response::Unlink => ResponseView::Unlink,
            Response::Rename => ResponseView::Rename,
            Response::Setattr(attr) => ResponseView::Setattr(attr),
            Response::Error(code) => ResponseView::Error(code),
        }
    }
}

impl ResponseView {
    /// The operation whose success this response reports; `None` for the error
    /// response, which may answer any request.
    pub open spec fn answers(self) -> Option<Operation> {
        match self {
            ResponseView::Mount(..) => Some(Operation::Mount),
            ResponseView::Lookup(..) => Some(Operation::Lookup),
            ResponseView::Getattr(..) => Some(Operation::Getattr),
            ResponseView::Read(..) => Some(Operation::Read),
            ResponseView::ReadDir(..) => Some(Operation::ReadDir),
            ResponseView::Readlink(..) => Some(Operation::Readlink),
            ResponseView::Write(..) => Some(Operation::Write),
            ResponseView::Mknod(..) => Some(Operation::Mknod),
            ResponseView::Mkdir(..) => Some(Operation::Mkdir),
            ResponseView::Unlink => Some(Operation::Unlink),
            ResponseView::Rename => Some(Operation::Rename),
            ResponseView::Setattr(..) => Some(Operation::Setattr),
            ResponseView::Error(..) => None,
        }
    }

    /// This response may follow a request for `op`: it is the success paired
    /// with `op`, or the error response.
    pub open spec fn may_answer(self, op: Operation) -> bool {
        self.answers() is None || self.answers() == Some(op)
    }
}

impl Response {
    /// The operation whose success this response reports; `None` for the error
    /// response.
    pub fn answers(&self) -> (op: Option<Operation>)
        ensures
            op == self@.answers(),
    {
        match self {
            Response::Mount(..) => Some(Operation::Mount),
            Response::Lookup(..) => Some(Operation::Lookup),
            Response::Getattr(..) => Some(Operation::Getattr),
            Response::Read(..) => Some(Operation::Read),
            Response::ReadDir(..) => Some(Operation::ReadDir),
            Response::Readlink(..) => Some(Operation::Readlink),
            Response::Write(..) => Some(Operation::Write),
            Response::Mknod(..) => Some(Operation::Mknod),
            Response::Mkdir(..) => Some(Operation::Mkdir),
            Response::Unlink => Some(Operation::Unlink),
            Response::Rename => Some(Operation::Rename),
            Response::Setattr(..) => Some(Operation::Setattr),
            Response::Error(..) => None,
        }
    }
}

} // verus!
